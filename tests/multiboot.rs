use treasureos::multiboot::{checksum, MultibootHeader, HEADER_LEN, MULTIBOOT_FLAGS, MULTIBOOT_MAGIC};

#[test]
fn header_checksum_cancels_magic_and_flags() {
    let h = MultibootHeader::new();
    assert_eq!(h.magic, 0x1BAD_B002);
    assert_eq!(h.flags, 0x0000_0003);
    assert_eq!(h.checksum, 0xE452_4FFB);
    assert_eq!(h.magic.wrapping_add(h.flags).wrapping_add(h.checksum), 0);
    assert!(h.is_valid());
}

#[test]
fn checksum_of_other_fields() {
    assert_eq!(checksum(0, 0), 0);
    assert_eq!(checksum(1, 0), 0xFFFF_FFFF);
    assert_eq!(checksum(0xFFFF_FFFF, 0xFFFF_FFFF), 2);
    assert_eq!(checksum(MULTIBOOT_MAGIC, MULTIBOOT_FLAGS), 0xE452_4FFB);
}

#[test]
fn header_rejected_on_bad_checksum_or_magic() {
    let good = MultibootHeader::new();
    let bad_sum = MultibootHeader { checksum: good.checksum.wrapping_add(1), ..good };
    assert!(!bad_sum.is_valid());
    let other_magic = MultibootHeader { magic: 0x1BAD_B003, flags: 3, checksum: checksum(0x1BAD_B003, 3) };
    assert!(!other_magic.is_valid());
}

#[test]
fn header_bytes_are_little_endian() {
    let bytes = MultibootHeader::new().to_bytes();
    assert_eq!(bytes.len(), HEADER_LEN);
    assert_eq!(
        bytes,
        vec![0x02, 0xB0, 0xAD, 0x1B, 0x03, 0x00, 0x00, 0x00, 0xFB, 0x4F, 0x52, 0xE4]
    );
}
