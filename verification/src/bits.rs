//! Bit-level helpers shared by the decoder and the executor: sign extension
//! of the immediate fields to 64 bits, and little-endian assembly of
//! multi-byte values read from memory.

use vstd::prelude::*;

verus! {

/// Sign-extends the low 8 bits of `v` (the higher bits must be zero) to 64 bits.
pub open spec fn sext8(v: u64) -> u64 {
    if v & 0x80 != 0 {
        v | 0xffff_ffff_ffff_ff00u64
    } else {
        v
    }
}

/// Sign-extends the low 12 bits of `v` (the higher bits must be zero) to 64 bits.
pub open spec fn sext12(v: u64) -> u64 {
    if v & 0x800 != 0 {
        v | 0xffff_ffff_ffff_f000u64
    } else {
        v
    }
}

/// Sign-extends the low 13 bits of `v` (the higher bits must be zero) to 64 bits.
pub open spec fn sext13(v: u64) -> u64 {
    if v & 0x1000 != 0 {
        v | 0xffff_ffff_ffff_e000u64
    } else {
        v
    }
}

/// Sign-extends the low 16 bits of `v` (the higher bits must be zero) to 64 bits.
pub open spec fn sext16(v: u64) -> u64 {
    if v & 0x8000 != 0 {
        v | 0xffff_ffff_ffff_0000u64
    } else {
        v
    }
}

/// Sign-extends the low 21 bits of `v` (the higher bits must be zero) to 64 bits.
pub open spec fn sext21(v: u64) -> u64 {
    if v & 0x10_0000 != 0 {
        v | 0xffff_ffff_ffe0_0000u64
    } else {
        v
    }
}

/// Sign-extends the low 32 bits of `v` (the higher bits must be zero) to 64 bits.
pub open spec fn sext32(v: u64) -> u64 {
    if v & 0x8000_0000 != 0 {
        v | 0xffff_ffff_0000_0000u64
    } else {
        v
    }
}

/// The 16-bit little-endian value at offset `a` of `mem`.
pub open spec fn le16_at(mem: Seq<u8>, a: int) -> u64 {
    (mem[a] as u64) | ((mem[a + 1] as u64) << 8)
}

/// The 32-bit little-endian value at offset `a` of `mem`.
pub open spec fn le32_at(mem: Seq<u8>, a: int) -> u64 {
    (mem[a] as u64) | ((mem[a + 1] as u64) << 8) | ((mem[a + 2] as u64) << 16)
        | ((mem[a + 3] as u64) << 24)
}

/// The 64-bit little-endian value at offset `a` of `mem`.
pub open spec fn le64_at(mem: Seq<u8>, a: int) -> u64 {
    (mem[a] as u64) | ((mem[a + 1] as u64) << 8) | ((mem[a + 2] as u64) << 16)
        | ((mem[a + 3] as u64) << 24) | ((mem[a + 4] as u64) << 32) | ((mem[a + 5] as u64) << 40)
        | ((mem[a + 6] as u64) << 48) | ((mem[a + 7] as u64) << 56)
}

/// The instruction fields named by the decoder all fit their register-index
/// or function-select ranges, whatever the word.
pub proof fn lemma_field_ranges(ir: u32)
    by (bit_vector)
    ensures
        (ir >> 2) & 0x1f < 32,
        (ir >> 7) & 0x1f < 32,
        (ir >> 15) & 0x1f < 32,
        (ir >> 20) & 0x1f < 32,
        (ir >> 12) & 0x7 < 8,
        ir >> 25 < 128,
        ir >> 20 < 4096,
{
}

/// The low twelve bits of a word always fit the CSR address space.
pub proof fn lemma_low12_range(v: u64)
    by (bit_vector)
    ensures
        v & 0xfff < 4096,
{
}

} // verus!
