//! The decoder: a pure function from a 32-bit instruction word to an
//! operation descriptor, per the six RISC-V base instruction formats
//! (R/I/S/B/U/J).  Instructions are keyed by the 5-bit opcode class, word
//! bits 6:2; only the fields relevant to the matched format are filled,
//! all others are zero.

use vstd::prelude::*;

use crate::bits::{lemma_field_ranges, sext12, sext13, sext21};
use crate::fault::Fault;

verus! {

// The opcode classes (word bits 6:2) the interpreter knows.
pub const OP_LOAD: u8 = 0b00000;
pub const OP_FENCE: u8 = 0b00011;
pub const OP_ALU_IMM: u8 = 0b00100;
pub const OP_AUIPC: u8 = 0b00101;
pub const OP_ALU_IMM_32: u8 = 0b00110;
pub const OP_STORE: u8 = 0b01000;
pub const OP_ALU_REG: u8 = 0b01100;
pub const OP_LUI: u8 = 0b01101;
pub const OP_BRANCH: u8 = 0b11000;
pub const OP_JALR: u8 = 0b11001;
pub const OP_JAL: u8 = 0b11011;
pub const OP_SYSTEM: u8 = 0b11100;

/// The operation descriptor a decoded instruction word yields: opcode class,
/// register indices, function-select fields, and the immediate, already
/// sign-extended to 64 bits where the format calls for it.
#[derive(Clone, Copy, Debug, PartialEq, Eq, Structural)]
pub struct Instr {
    /// Opcode class: word bits 6:2.
    pub opclass: u8,
    /// Destination register index (0 when the format has none).
    pub rdi: u8,
    /// First source register index (0 when the format has none).
    pub rs1i: u8,
    /// Second source register index (0 when the format has none).
    pub rs2i: u8,
    /// The 3-bit function-select field (0 when the format has none).
    pub func3: u8,
    /// The 7-bit function-select field (R-type only, else 0).
    pub func7: u8,
    /// The immediate: sign-extended to 64 bits for the I, S, B and J
    /// formats, the raw bits 31:12 in place for the U format, 0 otherwise.
    pub imm: u64,
}

/// Word bits 1:0 must equal `11` (the 32-bit instruction marker) and word
/// bits 4:2 must not equal `111` (the escape to 48-bit-and-longer
/// encodings); any other word is an illegal instruction.
pub open spec fn spec_word_is_32bit(ir: u32) -> bool {
    ir & 0b11 == 0b11 && ir & 0b11100 != 0b11100
}

/// The opcode class: word bits 6:2.
pub open spec fn spec_opclass(ir: u32) -> u8 {
    (((ir & 0x7f) >> 2) & 0x1f) as u8
}

/// The destination register index: word bits 11:7.
pub open spec fn spec_rd(ir: u32) -> u8 {
    ((ir >> 7) & 0x1f) as u8
}

/// The first source register index: word bits 19:15.
pub open spec fn spec_rs1(ir: u32) -> u8 {
    ((ir >> 15) & 0x1f) as u8
}

/// The second source register index: word bits 24:20.
pub open spec fn spec_rs2(ir: u32) -> u8 {
    ((ir >> 20) & 0x1f) as u8
}

/// The 3-bit function-select field: word bits 14:12.
pub open spec fn spec_func3(ir: u32) -> u8 {
    ((ir >> 12) & 0x7) as u8
}

/// The 7-bit function-select field: word bits 31:25.
pub open spec fn spec_func7(ir: u32) -> u8 {
    (ir >> 25) as u8
}

/// The I-format immediate: word bits 31:20, sign-extended to 64 bits.
pub open spec fn spec_imm_i(ir: u32) -> u64 {
    sext12((ir >> 20) as u64)
}

/// The S-format immediate: word bits 11:7 and 31:25 reassembled into a
/// 12-bit value, sign-extended to 64 bits.
pub open spec fn spec_imm_s(ir: u32) -> u64 {
    sext12((((ir >> 7) & 0x1f) | (((ir >> 25) & 0x7f) << 5)) as u64)
}

/// The B-format immediate: word bits 31, 30:25, 11:8 and 7 reassembled into
/// a 13-bit branch offset (bit 0 implicitly zero), sign-extended to 64 bits.
pub open spec fn spec_imm_b(ir: u32) -> u64 {
    sext13(
        (((ir & 0x8000_0000) >> 19) | ((ir & 0x7e00_0000) >> 20) | ((ir & 0x0000_0f00) >> 7) | (
        (ir & 0x0000_0080) << 4)) as u64,
    )
}

/// The U-format immediate: word bits 31:12 in place.  No sign extension is
/// applied; the value is the zero-extended 32-bit quantity, as the executor
/// consumes it.
pub open spec fn spec_imm_u(ir: u32) -> u64 {
    (ir & 0xffff_f000) as u64
}

/// The J-format immediate: word bits 31, 30:21, 20 and 19:12 reassembled
/// into a 21-bit jump offset (bit 0 implicitly zero), sign-extended to 64
/// bits.
pub open spec fn spec_imm_j(ir: u32) -> u64 {
    sext21(
        (((ir & 0x8000_0000) >> 11) | ((ir & 0x7fe0_0000) >> 20) | ((ir & 0x0010_0000) >> 9) | (ir
            & 0x000f_f000)) as u64,
    )
}

/// What decoding an instruction word yields: `None` exactly on the illegal
/// words (no 32-bit marker, reserved escape, or an opcode class outside the
/// format groupings), otherwise the operation descriptor.
pub open spec fn spec_decode(ir: u32) -> Option<Instr> {
    if !spec_word_is_32bit(ir) {
        None
    } else {
        let c = spec_opclass(ir);
        if c == OP_ALU_REG {
            Some(
                Instr {
                    opclass: c,
                    rdi: spec_rd(ir),
                    rs1i: spec_rs1(ir),
                    rs2i: spec_rs2(ir),
                    func3: spec_func3(ir),
                    func7: spec_func7(ir),
                    imm: 0,
                },
            )
        } else if c == OP_JALR || c == OP_LOAD || c == OP_ALU_IMM || c == OP_ALU_IMM_32 || c
            == OP_SYSTEM {
            Some(
                Instr {
                    opclass: c,
                    rdi: spec_rd(ir),
                    rs1i: spec_rs1(ir),
                    rs2i: 0,
                    func3: spec_func3(ir),
                    func7: 0,
                    imm: spec_imm_i(ir),
                },
            )
        } else if c == OP_STORE {
            Some(
                Instr {
                    opclass: c,
                    rdi: 0,
                    rs1i: spec_rs1(ir),
                    rs2i: spec_rs2(ir),
                    func3: spec_func3(ir),
                    func7: 0,
                    imm: spec_imm_s(ir),
                },
            )
        } else if c == OP_BRANCH {
            Some(
                Instr {
                    opclass: c,
                    rdi: 0,
                    rs1i: spec_rs1(ir),
                    rs2i: spec_rs2(ir),
                    func3: spec_func3(ir),
                    func7: 0,
                    imm: spec_imm_b(ir),
                },
            )
        } else if c == OP_LUI || c == OP_AUIPC {
            Some(
                Instr {
                    opclass: c,
                    rdi: spec_rd(ir),
                    rs1i: 0,
                    rs2i: 0,
                    func3: 0,
                    func7: 0,
                    imm: spec_imm_u(ir),
                },
            )
        } else if c == OP_JAL {
            Some(
                Instr {
                    opclass: c,
                    rdi: spec_rd(ir),
                    rs1i: 0,
                    rs2i: 0,
                    func3: 0,
                    func7: 0,
                    imm: spec_imm_j(ir),
                },
            )
        } else if c == OP_FENCE {
            // FENCE carries no fields the executor reads; it is a no-op.
            Some(Instr { opclass: c, rdi: 0, rs1i: 0, rs2i: 0, func3: 0, func7: 0, imm: 0 })
        } else {
            None
        }
    }
}

/// Every descriptor the decoder yields has in-range register indices and
/// function-select fields.
pub open spec fn spec_instr_ranges(i: Instr) -> bool {
    &&& i.rdi < 32
    &&& i.rs1i < 32
    &&& i.rs2i < 32
    &&& i.func3 < 8
    &&& i.func7 < 128
}

/// Decodes a 32-bit instruction word into an operation descriptor, failing
/// with an illegal-instruction fault exactly on the words `spec_decode`
/// rejects.
pub fn decode(ir: u32) -> (r: Result<Instr, Fault>)
    ensures
        r == match spec_decode(ir) {
            Some(i) => Ok::<Instr, Fault>(i),
            None => Err::<Instr, Fault>(Fault::IllegalInstruction),
        },
        r matches Ok(i) ==> spec_instr_ranges(i),
{
    proof {
        lemma_field_ranges(ir);
    }
    if (ir & 0b11) != 0b11 || (ir & 0b11100) == 0b11100 {
        return Err(Fault::IllegalInstruction);
    }
    let c: u8 = (((ir & 0x7f) >> 2) & 0x1f) as u8;
    if c == OP_ALU_REG {
        Ok(
            Instr {
                opclass: c,
                rdi: ((ir >> 7) & 0x1f) as u8,
                rs1i: ((ir >> 15) & 0x1f) as u8,
                rs2i: ((ir >> 20) & 0x1f) as u8,
                func3: ((ir >> 12) & 0x7) as u8,
                func7: (ir >> 25) as u8,
                imm: 0,
            },
        )
    } else if c == OP_JALR || c == OP_LOAD || c == OP_ALU_IMM || c == OP_ALU_IMM_32 || c
        == OP_SYSTEM {
        let low: u64 = (ir >> 20) as u64;
        let imm: u64 = if low & 0x800 != 0 {
            low | 0xffff_ffff_ffff_f000u64
        } else {
            low
        };
        Ok(
            Instr {
                opclass: c,
                rdi: ((ir >> 7) & 0x1f) as u8,
                rs1i: ((ir >> 15) & 0x1f) as u8,
                rs2i: 0,
                func3: ((ir >> 12) & 0x7) as u8,
                func7: 0,
                imm,
            },
        )
    } else if c == OP_STORE {
        let low: u64 = (((ir >> 7) & 0x1f) | (((ir >> 25) & 0x7f) << 5)) as u64;
        let imm: u64 = if low & 0x800 != 0 {
            low | 0xffff_ffff_ffff_f000u64
        } else {
            low
        };
        Ok(
            Instr {
                opclass: c,
                rdi: 0,
                rs1i: ((ir >> 15) & 0x1f) as u8,
                rs2i: ((ir >> 20) & 0x1f) as u8,
                func3: ((ir >> 12) & 0x7) as u8,
                func7: 0,
                imm,
            },
        )
    } else if c == OP_BRANCH {
        let low: u64 = (((ir & 0x8000_0000) >> 19) | ((ir & 0x7e00_0000) >> 20) | ((ir
            & 0x0000_0f00) >> 7) | ((ir & 0x0000_0080) << 4)) as u64;
        let imm: u64 = if low & 0x1000 != 0 {
            low | 0xffff_ffff_ffff_e000u64
        } else {
            low
        };
        Ok(
            Instr {
                opclass: c,
                rdi: 0,
                rs1i: ((ir >> 15) & 0x1f) as u8,
                rs2i: ((ir >> 20) & 0x1f) as u8,
                func3: ((ir >> 12) & 0x7) as u8,
                func7: 0,
                imm,
            },
        )
    } else if c == OP_LUI || c == OP_AUIPC {
        Ok(
            Instr {
                opclass: c,
                rdi: ((ir >> 7) & 0x1f) as u8,
                rs1i: 0,
                rs2i: 0,
                func3: 0,
                func7: 0,
                imm: (ir & 0xffff_f000) as u64,
            },
        )
    } else if c == OP_JAL {
        let low: u64 = (((ir & 0x8000_0000) >> 11) | ((ir & 0x7fe0_0000) >> 20) | ((ir
            & 0x0010_0000) >> 9) | (ir & 0x000f_f000)) as u64;
        let imm: u64 = if low & 0x10_0000 != 0 {
            low | 0xffff_ffff_ffe0_0000u64
        } else {
            low
        };
        Ok(
            Instr {
                opclass: c,
                rdi: ((ir >> 7) & 0x1f) as u8,
                rs1i: 0,
                rs2i: 0,
                func3: 0,
                func7: 0,
                imm,
            },
        )
    } else if c == OP_FENCE {
        Ok(Instr { opclass: c, rdi: 0, rs1i: 0, rs2i: 0, func3: 0, func7: 0, imm: 0 })
    } else {
        Err(Fault::IllegalInstruction)
    }
}

} // verus!
