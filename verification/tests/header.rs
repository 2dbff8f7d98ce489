use stivale_rs::v2::{encode, Stivale2Header};

#[test]
fn header_stack_is_the_last_byte_of_the_region() {
    let header = Stivale2Header::new(0, 0x8_0000, 4096, 1, 0);
    assert_eq!(header.entry_point, 0);
    assert_eq!(header.stack, 0x8_0FFF);
    assert_eq!(header.flags, 1);
    assert_eq!(header.tags, 0);
}

#[test]
fn header_of_one_byte_stack_points_at_that_byte() {
    let header = Stivale2Header::new(0x20_0000, 0x1234, 1, 0, 0x30_0000);
    assert_eq!(
        header,
        Stivale2Header { entry_point: 0x20_0000, stack: 0x1234, flags: 0, tags: 0x30_0000 }
    );
}

#[test]
fn header_stack_may_end_at_the_top_of_the_address_space() {
    let header = Stivale2Header::new(0, u64::MAX - 0xFFF, 0x1000, u64::MAX, u64::MAX);
    assert_eq!(header.stack, u64::MAX);
    assert_eq!(header.flags, u64::MAX);
    assert_eq!(header.tags, u64::MAX);
    let header = Stivale2Header::new(0, 0, u64::MAX, 0, 0);
    assert_eq!(header.stack, u64::MAX - 1);
}

#[test]
fn header_built_for_a_stack_is_stored_with_its_stack_top() {
    let header = Stivale2Header::new(0, 0x100, 0x10, 0, 0);
    let bytes = encode(&header);
    assert_eq!(bytes.len(), 32);
    assert_eq!(&bytes[8..16], &[0x0F, 0x01, 0, 0, 0, 0, 0, 0]);
}
