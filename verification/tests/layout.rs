use stivale_rs::v2::wire::{push_array, push_u16, push_u32, push_u64, read_array, read_u16, read_u32, read_u64};
use stivale_rs::v2::{
    encode, BootMemory, Stivale2Header, Stivale2HeaderTagFrameBuffer, Stivale2HeaderTagTerminal,
    Stivale2MMapEntry, Stivale2Record, Stivale2Struct, Stivale2StructTagCmdline,
    Stivale2StructTagEFISystemTable, Stivale2StructTagEpoch, Stivale2StructTagFirmware,
    Stivale2StructTagFramebuffer, Stivale2StructTagKernelFile, Stivale2StructTagMemmap,
    Stivale2StructTagTerminal, Stivale2Tag, STIVALE2_HEADER_TAG_FRAMEBUFFER_ID,
    STIVALE2_HEADER_TAG_TERMINAL_ID, STIVALE2_STRUCT_TAG_FRAMEBUFFER_ID,
    STIVALE2_STRUCT_TAG_TERMINAL_ID,
};

#[test]
fn identifiers_have_their_protocol_values() {
    assert_eq!(STIVALE2_HEADER_TAG_FRAMEBUFFER_ID, 0x3ecc1bc43d0f7971);
    assert_eq!(STIVALE2_HEADER_TAG_TERMINAL_ID, 0xa85d499b1823be72);
    assert_eq!(STIVALE2_STRUCT_TAG_FRAMEBUFFER_ID, 0x506461d2950408fa);
    assert_eq!(STIVALE2_STRUCT_TAG_TERMINAL_ID, 0xc2b3f4c3233b0974);
}

#[test]
fn integers_are_read_least_significant_byte_first() {
    let bytes = [0xFFu8, 0x01, 0x02, 0x03, 0x04, 0x05, 0x06, 0x07, 0x08, 0xFF];
    assert_eq!(read_u16(&bytes, 1), 0x0201);
    assert_eq!(read_u32(&bytes, 1), 0x0403_0201);
    assert_eq!(read_u64(&bytes, 1), 0x0807_0605_0403_0201);
    assert_eq!(read_u16(&bytes, 8), 0xFF08);
    assert_eq!(read_u64(&bytes, 2), 0xFF08_0706_0504_0302);
    assert_eq!(read_u16(&[0xFF, 0xFF], 0), u16::MAX);
    assert_eq!(read_u32(&[0xFF; 4], 0), u32::MAX);
    assert_eq!(read_u64(&[0xFF; 8], 0), u64::MAX);
    assert_eq!(read_u64(&[0; 8], 0), 0);
    assert_eq!(read_u64(&[0, 0, 0, 0, 0, 0, 0, 0x80], 0), 1 << 63);
}

#[test]
fn integers_are_written_least_significant_byte_first() {
    let mut out = vec![0xAAu8];
    push_u16(&mut out, 0x0201);
    assert_eq!(out, [0xAA, 0x01, 0x02]);
    push_u32(&mut out, 0x0605_0403);
    assert_eq!(out, [0xAA, 0x01, 0x02, 0x03, 0x04, 0x05, 0x06]);
    let mut out = Vec::new();
    push_u64(&mut out, 0x1122_3344_5566_7788);
    assert_eq!(out, [0x88, 0x77, 0x66, 0x55, 0x44, 0x33, 0x22, 0x11]);
    let mut out = Vec::new();
    push_u64(&mut out, u64::MAX);
    push_u64(&mut out, 0);
    push_u16(&mut out, u16::MAX);
    push_u32(&mut out, u32::MAX);
    assert_eq!(&out[..8], &[0xFF; 8]);
    assert_eq!(&out[8..16], &[0; 8]);
    assert_eq!(&out[16..], &[0xFF; 6]);
}

#[test]
fn written_integers_read_back() {
    for value in [0u64, 1, 0xFF, 0x100, 0xFFFF, 0x1_0000, 0xFFFF_FFFF, 0x1_0000_0000, 0xc2b3f4c3233b0974, u64::MAX] {
        let mut out = vec![0x55u8; 3];
        push_u64(&mut out, value);
        push_u32(&mut out, value as u32);
        push_u16(&mut out, value as u16);
        out.push(0x55);
        assert_eq!(out.len(), 18);
        assert_eq!(read_u64(&out, 3), value);
        assert_eq!(read_u32(&out, 11), value as u32);
        assert_eq!(read_u16(&out, 15), value as u16);
    }
}

#[test]
fn byte_arrays_are_copied_byte_for_byte() {
    let bytes: Vec<u8> = (0u8..100).collect();
    let array: [u8; 64] = read_array(&bytes, 30);
    for k in 0..64 {
        assert_eq!(array[k], 30 + k as u8);
    }
    let empty: [u8; 0] = read_array(&bytes, 100);
    assert_eq!(empty.len(), 0);
    let mut out = vec![9u8];
    push_array(&mut out, &[1u8, 2, 3]);
    push_array(&mut out, &empty);
    assert_eq!(out, [9, 1, 2, 3]);
}

#[test]
fn records_have_their_packed_sizes() {
    assert_eq!(Stivale2Header::size(), 32);
    assert_eq!(Stivale2Tag::size(), 16);
    assert_eq!(Stivale2HeaderTagFrameBuffer::size(), 22);
    assert_eq!(Stivale2HeaderTagTerminal::size(), 24);
    assert_eq!(Stivale2Struct::size(), 136);
    assert_eq!(Stivale2StructTagFramebuffer::size(), 39);
    assert_eq!(Stivale2StructTagTerminal::size(), 32);
    assert_eq!(Stivale2StructTagCmdline::size(), 24);
    assert_eq!(Stivale2StructTagMemmap::size(), 32);
    assert_eq!(Stivale2MMapEntry::size(), 24);
    assert_eq!(Stivale2StructTagEpoch::size(), 24);
    assert_eq!(Stivale2StructTagFirmware::size(), 24);
    assert_eq!(Stivale2StructTagEFISystemTable::size(), 24);
    assert_eq!(Stivale2StructTagKernelFile::size(), 24);
}

#[test]
fn tag_header_has_its_exact_bytes() {
    let tag = Stivale2Tag { identifier: 0x0102_0304_0506_0708, next: 0x1112_1314_1516_1718 };
    let bytes = encode(&tag);
    assert_eq!(
        bytes,
        [0x08, 0x07, 0x06, 0x05, 0x04, 0x03, 0x02, 0x01, 0x18, 0x17, 0x16, 0x15, 0x14, 0x13, 0x12, 0x11]
    );
    assert_eq!(Stivale2Tag::decode(&bytes), tag);
}

#[test]
fn terminal_tag_has_its_exact_bytes() {
    let terminal = Stivale2StructTagTerminal {
        identifier: STIVALE2_STRUCT_TAG_TERMINAL_ID,
        next: 0x10,
        flags: 0xA1A2_A3A4,
        cols: 0x0050,
        rows: 0x0019,
        term_write: 0xB1B2_B3B4_B5B6_B7B8,
    };
    let bytes = encode(&terminal);
    let expected: [u8; 32] = [
        0x74, 0x09, 0x3b, 0x23, 0xc3, 0xf4, 0xb3, 0xc2, // identifier
        0x10, 0, 0, 0, 0, 0, 0, 0, // next
        0xA4, 0xA3, 0xA2, 0xA1, // flags
        0x50, 0x00, // cols
        0x19, 0x00, // rows
        0xB8, 0xB7, 0xB6, 0xB5, 0xB4, 0xB3, 0xB2, 0xB1, // term_write
    ];
    assert_eq!(bytes, expected);
    assert_eq!(Stivale2StructTagTerminal::decode(&expected), terminal);
}

#[test]
fn framebuffer_tag_has_its_exact_bytes() {
    let framebuffer = Stivale2StructTagFramebuffer {
        identifier: STIVALE2_STRUCT_TAG_FRAMEBUFFER_ID,
        next: 0,
        framebuffer_addr: 0x0000_0000_FD00_0000,
        framebuffer_width: 0x0400,
        framebuffer_height: 0x0300,
        framebuffer_pitch: 0x1000,
        framebuffer_bpp: 0x0020,
        memory_model: 1,
        red_mask_size: 2,
        red_mask_shift: 3,
        green_mask_size: 4,
        green_mask_shift: 5,
        blue_mask_size: 6,
        blue_mask_shift: 7,
    };
    let expected: [u8; 39] = [
        0xfa, 0x08, 0x04, 0x95, 0xd2, 0x61, 0x64, 0x50, // identifier
        0, 0, 0, 0, 0, 0, 0, 0, // next
        0, 0, 0, 0xFD, 0, 0, 0, 0, // framebuffer_addr
        0x00, 0x04, 0x00, 0x03, 0x00, 0x10, 0x20, 0x00, // width, height, pitch, bpp
        1, 2, 3, 4, 5, 6, 7,
    ];
    assert_eq!(encode(&framebuffer), expected);
    assert_eq!(Stivale2StructTagFramebuffer::decode(&expected), framebuffer);
}

#[test]
fn header_has_its_exact_bytes() {
    let header = Stivale2Header { entry_point: 1, stack: 0x0203, flags: 4, tags: 0x05_0000_0000 };
    let expected: [u8; 32] = [
        1, 0, 0, 0, 0, 0, 0, 0, //
        3, 2, 0, 0, 0, 0, 0, 0, //
        4, 0, 0, 0, 0, 0, 0, 0, //
        0, 0, 0, 0, 5, 0, 0, 0,
    ];
    assert_eq!(encode(&header), expected);
    assert_eq!(Stivale2Header::decode(&expected), header);
}

#[test]
fn request_tags_have_their_exact_bytes() {
    let framebuffer = Stivale2HeaderTagFrameBuffer {
        identifier: STIVALE2_HEADER_TAG_FRAMEBUFFER_ID,
        next: 0x0A,
        framebuffer_width: 0x0102,
        framebuffer_height: 0x0304,
        framebuffer_bpp: 0x0506,
    };
    let expected: [u8; 22] = [
        0x71, 0x79, 0x0f, 0x3d, 0xc4, 0x1b, 0xcc, 0x3e, //
        0x0A, 0, 0, 0, 0, 0, 0, 0, //
        2, 1, 4, 3, 6, 5,
    ];
    assert_eq!(encode(&framebuffer), expected);
    assert_eq!(Stivale2HeaderTagFrameBuffer::decode(&expected), framebuffer);

    let terminal = Stivale2HeaderTagTerminal {
        identifier: STIVALE2_HEADER_TAG_TERMINAL_ID,
        next: 0,
        flags: 0x8000_0000_0000_0001,
    };
    let expected: [u8; 24] = [
        0x72, 0xbe, 0x23, 0x18, 0x9b, 0x49, 0x5d, 0xa8, //
        0, 0, 0, 0, 0, 0, 0, 0, //
        1, 0, 0, 0, 0, 0, 0, 0x80,
    ];
    assert_eq!(encode(&terminal), expected);
    assert_eq!(Stivale2HeaderTagTerminal::decode(&expected), terminal);
}

#[test]
fn single_field_tags_round_trip() {
    let cmdline = Stivale2StructTagCmdline { identifier: 1, next: 2, cmdline: 0xFFFF_FFFF_FFFF_FFF0 };
    assert_eq!(Stivale2StructTagCmdline::decode(&encode(&cmdline)), cmdline);
    assert_eq!(read_u64(&encode(&cmdline), 16), 0xFFFF_FFFF_FFFF_FFF0);
    let epoch = Stivale2StructTagEpoch { identifier: 3, next: 4, epoch: 1_700_000_000 };
    assert_eq!(Stivale2StructTagEpoch::decode(&encode(&epoch)), epoch);
    assert_eq!(read_u64(&encode(&epoch), 16), 1_700_000_000);
    let firmware = Stivale2StructTagFirmware { identifier: 5, next: 6, flags: 1 };
    assert_eq!(Stivale2StructTagFirmware::decode(&encode(&firmware)), firmware);
    assert_eq!(read_u64(&encode(&firmware), 16), 1);
    let efi = Stivale2StructTagEFISystemTable { identifier: 7, next: 8, system_table: 0x7FF0_0000 };
    assert_eq!(Stivale2StructTagEFISystemTable::decode(&encode(&efi)), efi);
    assert_eq!(read_u64(&encode(&efi), 16), 0x7FF0_0000);
    let file = Stivale2StructTagKernelFile { identifier: 9, next: 10, kernel_file: u64::MAX };
    assert_eq!(Stivale2StructTagKernelFile::decode(&encode(&file)), file);
    assert_eq!(read_u64(&encode(&file), 16), u64::MAX);
}

#[test]
fn decode_reads_only_the_bytes_of_the_record() {
    let tag = Stivale2Tag { identifier: 0xAB, next: 0xCD };
    let mut bytes = encode(&tag);
    bytes.extend_from_slice(&[0x99; 40]);
    assert_eq!(Stivale2Tag::decode(&bytes), tag);
}

#[test]
fn encode_into_appends_to_what_is_there() {
    let first = Stivale2Tag { identifier: 1, next: 2 };
    let second = Stivale2StructTagEpoch { identifier: 3, next: 4, epoch: 5 };
    let mut out = vec![0xEEu8, 0xEE];
    first.encode_into(&mut out);
    second.encode_into(&mut out);
    assert_eq!(out.len(), 2 + 16 + 24);
    assert_eq!(&out[..2], &[0xEE, 0xEE]);
    assert_eq!(&out[2..18], &encode(&first)[..]);
    assert_eq!(&out[18..], &encode(&second)[..]);
}

fn limine_brand() -> [u8; 64] {
    let mut brand = [0u8; 64];
    brand[..6].copy_from_slice(b"LIMINE");
    brand
}

#[test]
fn info_structure_exposes_the_brand_field_unmodified() {
    let mut version = [0u8; 64];
    version[..5].copy_from_slice(b"2.0.1");
    let mut image = Vec::new();
    image.extend_from_slice(&limine_brand());
    image.extend_from_slice(&version);
    image.extend_from_slice(&0x0000_0000_0009_F000u64.to_le_bytes());
    assert_eq!(image.len(), 136);

    let info = Stivale2Struct::decode(&image);
    assert_eq!(info.bootloader_brand.len(), 64);
    assert_eq!(info.bootloader_brand, limine_brand());
    assert_eq!(&info.bootloader_brand[..6], b"LIMINE");
    assert!(info.bootloader_brand[6..].iter().all(|b| *b == 0));
    assert_eq!(info.bootloader_version, version);
    assert_eq!(info.tags, 0x9_F000);
    assert_eq!(encode(&info), image);
}

#[test]
fn info_structure_keeps_strings_without_a_terminator() {
    let brand = [b'A'; 64];
    let mut version = [b'z'; 64];
    version[63] = 0xFF;
    let info = Stivale2Struct { bootloader_brand: brand, bootloader_version: version, tags: 0 };
    let bytes = encode(&info);
    assert_eq!(&bytes[..64], &brand[..]);
    assert_eq!(&bytes[64..128], &version[..]);
    assert_eq!(&bytes[128..], &[0u8; 8]);
    let back = Stivale2Struct::decode(&bytes);
    assert_eq!(back.bootloader_brand, brand);
    assert_eq!(back.bootloader_version, version);
    assert_eq!(back.tags, 0);
}

#[test]
fn info_structure_is_read_from_boot_memory() {
    let info = Stivale2Struct {
        bootloader_brand: limine_brand(),
        bootloader_version: [b'1'; 64],
        tags: 0x5000 + 200,
    };
    let mut image = vec![0xCCu8; 10];
    info.encode_into(&mut image);
    image.resize(200, 0xCC);
    Stivale2Tag { identifier: 0x77, next: 0 }.encode_into(&mut image);
    let memory = BootMemory::new(0x5000, &image);
    assert!(memory.contains(0x500A, Stivale2Struct::size()));
    let read: Stivale2Struct = memory.read(0x500A);
    assert_eq!(read.bootloader_brand, limine_brand());
    assert_eq!(read.bootloader_version, [b'1'; 64]);
    assert_eq!(read.tags, 0x50C8);
    assert_eq!(read.get_tag(&memory, 0x77), Some(0x50C8));
    assert_eq!(read.get_tag(&memory, 0x78), None);
}
