use stivale_rs::v2::{
    encode, BootMemory, Stivale2MMapEntry, Stivale2MMapType, Stivale2Record, Stivale2Struct,
    Stivale2StructTagMemmap,
};

const BASE: u64 = 0x10_0000;
const MEMMAP_ID: u64 = 0x4D4D_4150;

fn row(base: u64, length: u64, region_type: Stivale2MMapType) -> Stivale2MMapEntry {
    Stivale2MMapEntry { base, length, type_code: region_type.code(), unsed: 0 }
}

#[test]
fn memory_map_yields_its_rows_in_order() {
    let rows = [row(0, 0x9000, Stivale2MMapType::Usable), row(0x9000, 0x1000, Stivale2MMapType::Reserved)];
    let array_at = BASE + 32;
    let tag = Stivale2StructTagMemmap { identifier: MEMMAP_ID, next: 0, entries: 2, memmap: array_at };
    let mut image = encode(&tag);
    rows[0].encode_into(&mut image);
    rows[1].encode_into(&mut image);
    let memory = BootMemory::new(BASE, &image);

    let info = Stivale2Struct { bootloader_brand: [0; 64], bootloader_version: [0; 64], tags: BASE };
    let found: Stivale2StructTagMemmap = info._get(&memory, MEMMAP_ID).unwrap();
    assert_eq!(found, tag);

    let read = found.rows(&memory);
    assert_eq!(read.len(), 2);
    assert_eq!(read[0], Stivale2MMapEntry { base: 0, length: 0x9000, type_code: 1, unsed: 0 });
    assert_eq!(read[1], Stivale2MMapEntry { base: 0x9000, length: 0x1000, type_code: 2, unsed: 0 });
    assert_eq!(read[0].region_type(), Stivale2MMapType::Usable);
    assert_eq!(read[1].region_type(), Stivale2MMapType::Reserved);
    assert_eq!(found.entry(&memory, 0), rows[0]);
    assert_eq!(found.entry(&memory, 1), rows[1]);
}

#[test]
fn memory_map_without_rows_is_empty() {
    let tag = Stivale2StructTagMemmap { identifier: MEMMAP_ID, next: 0, entries: 0, memmap: BASE + 32 };
    let image = encode(&tag);
    let memory = BootMemory::new(BASE, &image);
    assert!(tag.rows(&memory).is_empty());
}

#[test]
fn memory_map_rows_are_not_truncated() {
    let mut image = vec![0u8; 5];
    let mut expected = Vec::new();
    for k in 0..40u64 {
        let entry = Stivale2MMapEntry {
            base: k * 0x1000,
            length: 0x1000 + k,
            type_code: (k % 7) as u32,
            unsed: 0xDEAD_0000 + k as u32,
        };
        entry.encode_into(&mut image);
        expected.push(entry);
    }
    image.extend_from_slice(&[0xFF; 9]);
    let memory = BootMemory::new(BASE, &image);
    let tag = Stivale2StructTagMemmap { identifier: MEMMAP_ID, next: 0, entries: 40, memmap: BASE + 5 };
    assert_eq!(tag.rows(&memory), expected);
    assert_eq!(tag.entry(&memory, 39), expected[39]);
    assert_eq!(memory.read_item::<Stivale2MMapEntry>(BASE + 5, 17), expected[17]);

    let shorter = Stivale2StructTagMemmap { entries: 3, ..tag };
    assert_eq!(shorter.rows(&memory), &expected[..3]);
}

#[test]
fn memory_map_entry_has_its_exact_bytes() {
    let entry = Stivale2MMapEntry {
        base: 0x0000_0001_0000_0000,
        length: 0x9000,
        type_code: 0x1001,
        unsed: 0x0A0B_0C0D,
    };
    let expected: [u8; 24] = [
        0, 0, 0, 0, 1, 0, 0, 0, //
        0, 0x90, 0, 0, 0, 0, 0, 0, //
        0x01, 0x10, 0, 0, //
        0x0D, 0x0C, 0x0B, 0x0A,
    ];
    assert_eq!(encode(&entry), expected);
    assert_eq!(Stivale2MMapEntry::decode(&expected), entry);
    assert_eq!(entry.region_type(), Stivale2MMapType::KernelAndModules);
}

#[test]
fn region_types_have_their_codes() {
    assert_eq!(Stivale2MMapType::Usable.code(), 1);
    assert_eq!(Stivale2MMapType::Reserved.code(), 2);
    assert_eq!(Stivale2MMapType::ACPIReclaimable.code(), 3);
    assert_eq!(Stivale2MMapType::ACPINvs.code(), 4);
    assert_eq!(Stivale2MMapType::BadMemory.code(), 5);
    assert_eq!(Stivale2MMapType::BootloaderReclaimable.code(), 0x1000);
    assert_eq!(Stivale2MMapType::KernelAndModules.code(), 0x1001);
    assert_eq!(Stivale2MMapType::Framebuffer.code(), 0x1002);
}

#[test]
fn region_type_codes_round_trip() {
    let all = [
        Stivale2MMapType::Usable,
        Stivale2MMapType::Reserved,
        Stivale2MMapType::ACPIReclaimable,
        Stivale2MMapType::ACPINvs,
        Stivale2MMapType::BadMemory,
        Stivale2MMapType::BootloaderReclaimable,
        Stivale2MMapType::KernelAndModules,
        Stivale2MMapType::Framebuffer,
    ];
    for region_type in all {
        assert_eq!(Stivale2MMapType::from_code(region_type.code()), region_type);
    }
}

#[test]
fn unknown_region_codes_are_reserved_never_usable() {
    for code in [0u32, 6, 7, 0xFFF, 0x1003, 0x2000, 0x8000_0001, u32::MAX] {
        assert_eq!(Stivale2MMapType::from_code(code), Stivale2MMapType::Reserved);
        let entry = Stivale2MMapEntry { base: 0, length: 1, type_code: code, unsed: 0 };
        assert_ne!(entry.region_type(), Stivale2MMapType::Usable);
    }
    assert_eq!(Stivale2MMapType::from_code(1), Stivale2MMapType::Usable);
    assert_eq!(Stivale2MMapType::from_code(2), Stivale2MMapType::Reserved);
}
