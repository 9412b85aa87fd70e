//! The multiboot header that lets a bootloader recognise the kernel image.

use vstd::prelude::*;

verus! {

/// Magic value that marks a multiboot header.
pub const MULTIBOOT_MAGIC: u32 = 0x1BAD_B002;

/// Flags: page-align loaded modules, and pass memory information.
pub const MULTIBOOT_FLAGS: u32 = 0x0000_0003;

/// Size in bytes of the encoded header.
pub const HEADER_LEN: usize = 12;

/// The three header fields add up to zero modulo 2^32.
pub open spec fn sums_to_zero(magic: u32, flags: u32, checksum: u32) -> bool {
    (magic + flags + checksum) % 0x1_0000_0000 == 0
}

/// The four bytes of `x`, least significant first.
pub open spec fn le_bytes(x: u32) -> Seq<u8> {
    seq![
        (x % 0x100) as u8,
        ((x / 0x100) % 0x100) as u8,
        ((x / 0x1_0000) % 0x100) as u8,
        (x / 0x100_0000) as u8,
    ]
}

/// The header record as the bootloader reads it.
#[derive(Clone, Copy, Debug, PartialEq, Eq, Structural)]
pub struct MultibootHeader {
    pub magic: u32,
    pub flags: u32,
    pub checksum: u32,
}

/// The checksum that makes `magic + flags + checksum` vanish modulo 2^32.
pub fn checksum(magic: u32, flags: u32) -> (r: u32)
    ensures
        sums_to_zero(magic, flags, r),
{
    0u32.wrapping_sub(magic.wrapping_add(flags))
}

fn push_le_bytes(out: &mut Vec<u8>, x: u32)
    ensures
        final(out)@ == old(out)@ + le_bytes(x),
{
    out.push((x % 0x100) as u8);
    out.push(((x / 0x100) % 0x100) as u8);
    out.push(((x / 0x1_0000) % 0x100) as u8);
    out.push((x / 0x100_0000) as u8);
    proof {
        assert(out@ =~= old(out)@ + le_bytes(x));
    }
}

impl MultibootHeader {
    /// The kernel's header: the magic value, its flags and their checksum.
    pub fn new() -> (h: MultibootHeader)
        ensures
            h.magic == MULTIBOOT_MAGIC,
            h.flags == MULTIBOOT_FLAGS,
            sums_to_zero(h.magic, h.flags, h.checksum),
    {
        MultibootHeader {
            magic: MULTIBOOT_MAGIC,
            flags: MULTIBOOT_FLAGS,
            checksum: checksum(MULTIBOOT_MAGIC, MULTIBOOT_FLAGS),
        }
    }

    /// Whether a bootloader accepts the header: the magic value, and fields that
    /// sum to zero.
    pub fn is_valid(&self) -> (r: bool)
        ensures
            r == (self.magic == MULTIBOOT_MAGIC && sums_to_zero(
                self.magic,
                self.flags,
                self.checksum,
            )),
    {
        self.magic == MULTIBOOT_MAGIC && self.magic.wrapping_add(self.flags).wrapping_add(
            self.checksum,
        ) == 0
    }

    /// The 12-byte record: magic, flags and checksum, each little-endian.
    pub fn to_bytes(&self) -> (r: Vec<u8>)
        ensures
            r@ == le_bytes(self.magic) + le_bytes(self.flags) + le_bytes(self.checksum),
            r@.len() == HEADER_LEN,
    {
        let mut out: Vec<u8> = Vec::new();
        push_le_bytes(&mut out, self.magic);
        push_le_bytes(&mut out, self.flags);
        push_le_bytes(&mut out, self.checksum);
        proof {
            assert(out@ =~= Seq::<u8>::empty() + le_bytes(self.magic) + le_bytes(self.flags)
                + le_bytes(self.checksum));
        }
        out
    }
}

} // verus!
