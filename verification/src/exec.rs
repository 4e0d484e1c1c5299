//! The executor: applies a decoded operation to the hart and shared machine
//! state, yielding the destination-register value and the next program
//! counter, and mutating memory, the CSR bank and the UART output where the
//! operation calls for it.  Every operation's semantics is stated by
//! `spec_execute` and the executable `execute` is proved against it.
//!
//! Trap handling is next-pc redirection only: ECALL and EBREAK write MEPC
//! and MCAUSE and divert to the MTVEC target, MRET and SRET restore the
//! program counter from MEPC and SEPC; the privilege-stack bookkeeping
//! (xPP/xPIE/xIE) is out of scope and the privilege mode never changes.

use vstd::prelude::*;

use crate::bits::{lemma_low12_range, sext32};
use crate::csr::{
    csr_is_legal,
    csr_write,
    CsrAddress,
    spec_csr_is_legal,
    spec_csr_write,
    CSR_BANK_SIZE,
};
use crate::decode::{
    Instr,
    spec_instr_ranges,
    OP_ALU_IMM,
    OP_ALU_IMM_32,
    OP_ALU_REG,
    OP_AUIPC,
    OP_BRANCH,
    OP_FENCE,
    OP_JAL,
    OP_JALR,
    OP_LOAD,
    OP_LUI,
    OP_STORE,
    OP_SYSTEM,
};
use crate::fault::Fault;
use crate::mem::{load, spec_load, spec_store, store};

verus! {

/// What executing one instruction leaves behind: the value destined for the
/// destination register (0 when the operation writes none), the next program
/// counter, and the new memory, CSR bank and UART output.
pub struct Effect {
    pub rd_val: u64,
    pub next_pc: u64,
    pub mem: Seq<u8>,
    pub csr: Seq<u64>,
    pub uart: Seq<u8>,
}

/// Whether a conditional branch with function-select `func3` is taken on
/// operands `rs1` and `rs2`: BEQ/BNE/BLT/BGE/BLTU/BGEU at
/// 000/001/100/101/110/111.
pub open spec fn spec_branch_taken(func3: u8, rs1: u64, rs2: u64) -> bool {
    if func3 == 0b000 {
        rs1 == rs2
    } else if func3 == 0b001 {
        rs1 != rs2
    } else if func3 == 0b100 {
        (rs1 as i64) < (rs2 as i64)
    } else if func3 == 0b101 {
        (rs1 as i64) >= (rs2 as i64)
    } else if func3 == 0b110 {
        rs1 < rs2
    } else {
        rs1 >= rs2
    }
}

/// What an ALU operation yields on operands `a` and `b`.  `is_imm` says the
/// second operand came from an immediate (so SUB does not exist), `bit30`
/// is word bit 30 (selecting SUB over ADD and SRA over SRL).  Any shift
/// amount greater than 63 is a fault: a deliberate guard against undefined
/// shift behaviour.
pub open spec fn spec_alu(func3: u8, is_imm: bool, bit30: bool, a: u64, b: u64) -> Result<
    u64,
    Fault,
> {
    if func3 == 0b000 {
        Ok(
            if !is_imm && bit30 {
                a.wrapping_sub(b)
            } else {
                a.wrapping_add(b)
            },
        )
    } else if func3 == 0b001 {
        if b > 63 {
            Err(Fault::ShiftAmountTooLarge)
        } else {
            Ok(a << b)
        }
    } else if func3 == 0b010 {
        Ok(
            if (a as i64) < (b as i64) {
                1
            } else {
                0
            },
        )
    } else if func3 == 0b011 {
        Ok(
            if a < b {
                1
            } else {
                0
            },
        )
    } else if func3 == 0b100 {
        Ok(a ^ b)
    } else if func3 == 0b101 {
        if b > 63 {
            Err(Fault::ShiftAmountTooLarge)
        } else if bit30 {
            Ok(((a as i64) >> b) as u64)
        } else {
            Ok(a >> b)
        }
    } else if func3 == 0b110 {
        Ok(a | b)
    } else {
        Ok(a & b)
    }
}

/// The trap-vector target for a trap with cause `cause`: MTVEC mode 0 is
/// direct (the base), mode 1 is vectored (base + 4 * cause for asynchronous
/// causes, the base for synchronous ones); the reserved modes behave as
/// direct.
pub open spec fn spec_trap_target(mtvec: u64, cause: u64, is_async: bool) -> u64 {
    let base = mtvec & !0b11u64;
    if mtvec & 0b11 == 1 && is_async {
        base.wrapping_add(cause.wrapping_mul(4))
    } else {
        base
    }
}

/// The cause code of an environment call from privilege mode `mode`:
/// 8/9/10/11 for U/S/reserved/M.
pub open spec fn spec_ecall_cause(mode: u8) -> u64 {
    (8 + (mode & 3)) as u64
}

/// The cause code of a breakpoint (EBREAK).
pub const EBREAK_CAUSE: u64 = 3;

/// What executing the decoded instruction `i` yields, given the program
/// counter, the privilege mode, the two source-register values, and the
/// shared machine state.  A fault leaves no effect.
pub open spec fn spec_execute(
    i: Instr,
    pc: u64,
    mode: u8,
    rs1: u64,
    rs2: u64,
    mem: Seq<u8>,
    csr: Seq<u64>,
    uart: Seq<u8>,
) -> Result<Effect, Fault> {
    let pc4 = pc.wrapping_add(4);
    if i.opclass == OP_LUI {
        Ok(Effect { rd_val: i.imm, next_pc: pc4, mem, csr, uart })
    } else if i.opclass == OP_AUIPC {
        Ok(Effect { rd_val: pc.wrapping_add(i.imm), next_pc: pc4, mem, csr, uart })
    } else if i.opclass == OP_JAL {
        Ok(Effect { rd_val: pc4, next_pc: pc.wrapping_add(i.imm), mem, csr, uart })
    } else if i.opclass == OP_JALR {
        Ok(Effect { rd_val: pc4, next_pc: rs1.wrapping_add(i.imm) & !1u64, mem, csr, uart })
    } else if i.opclass == OP_BRANCH {
        if i.func3 == 0b010 || i.func3 == 0b011 {
            Err(Fault::UnsupportedOperation)
        } else {
            Ok(
                Effect {
                    rd_val: 0,
                    next_pc: if spec_branch_taken(i.func3, rs1, rs2) {
                        pc.wrapping_add(i.imm)
                    } else {
                        pc4
                    },
                    mem,
                    csr,
                    uart,
                },
            )
        }
    } else if i.opclass == OP_LOAD {
        match spec_load(mem, i.func3, rs1.wrapping_add(i.imm)) {
            Ok(v) => Ok(Effect { rd_val: v, next_pc: pc4, mem, csr, uart }),
            Err(f) => Err(f),
        }
    } else if i.opclass == OP_STORE {
        match spec_store(mem, uart, i.func3, rs1.wrapping_add(i.imm), rs2) {
            Ok((m2, u2)) => Ok(Effect { rd_val: 0, next_pc: pc4, mem: m2, csr, uart: u2 }),
            Err(f) => Err(f),
        }
    } else if i.opclass == OP_ALU_IMM || i.opclass == OP_ALU_REG {
        let is_imm = i.opclass == OP_ALU_IMM;
        let b = if is_imm {
            i.imm
        } else {
            rs2
        };
        let bit30 = if is_imm {
            i.imm & 0x400 != 0
        } else {
            i.func7 & 0x20 != 0
        };
        match spec_alu(i.func3, is_imm, bit30, rs1, b) {
            Ok(v) => Ok(Effect { rd_val: v, next_pc: pc4, mem, csr, uart }),
            Err(f) => Err(f),
        }
    } else if i.opclass == OP_ALU_IMM_32 {
        if i.func3 == 0b000 {
            // ADDIW: 32-bit add, truncated and sign-extended to 64 bits.
            Ok(
                Effect {
                    rd_val: sext32(rs1.wrapping_add(i.imm) & 0xffff_ffff),
                    next_pc: pc4,
                    mem,
                    csr,
                    uart,
                },
            )
        } else {
            // SLLIW/SRLIW/SRAIW are recognized but unimplemented, and any
            // other function-select is undefined here: both fail loudly.
            Err(Fault::UnsupportedOperation)
        }
    } else if i.opclass == OP_FENCE {
        // No memory-ordering model exists here: FENCE is a no-op.
        Ok(Effect { rd_val: 0, next_pc: pc4, mem, csr, uart })
    } else if i.opclass == OP_SYSTEM {
        let src = if i.func3 & 0b100 != 0 {
            // The immediate forms carry the 5-bit uimm in the rs1 field.
            i.rs1i as u64
        } else {
            rs1
        };
        let imm12 = i.imm & 0xfff;
        if i.func3 & 0b11 == 0b00 {
            if imm12 == 0b0000_0000_0000 || imm12 == 0b0000_0000_0001 {
                // ECALL / EBREAK: trap entry.  MEPC holds the aligned trap
                // pc, MCAUSE the cause; the next pc comes from MTVEC (the
                // cause is synchronous, so the vectored mode still yields
                // the base).
                let cause = if imm12 == 0 {
                    spec_ecall_cause(mode)
                } else {
                    EBREAK_CAUSE
                };
                let c1 = spec_csr_write(csr, CsrAddress::Mepc.spec_value(), pc & !0b11u64);
                let c2 = spec_csr_write(c1, CsrAddress::Mcause.spec_value(), cause);
                Ok(
                    Effect {
                        rd_val: 0,
                        next_pc: spec_trap_target(
                            csr[CsrAddress::Mtvec.spec_value() as int],
                            cause,
                            false,
                        ),
                        mem,
                        csr: c2,
                        uart,
                    },
                )
            } else if imm12 == 0b0001_0000_0010 {
                // SRET: restore the pc from SEPC.
                Ok(
                    Effect {
                        rd_val: 0,
                        next_pc: csr[CsrAddress::Sepc.spec_value() as int],
                        mem,
                        csr,
                        uart,
                    },
                )
            } else if imm12 == 0b0011_0000_0010 {
                // MRET: restore the pc from MEPC.
                Ok(
                    Effect {
                        rd_val: 0,
                        next_pc: csr[CsrAddress::Mepc.spec_value() as int],
                        mem,
                        csr,
                        uart,
                    },
                )
            } else {
                Err(Fault::UnsupportedOperation)
            }
        } else {
            let caddr = imm12 as u16;
            if !spec_csr_is_legal(caddr) {
                Err(Fault::CsrAccessFault)
            } else {
                let prev = csr[caddr as int];
                if i.func3 & 0b11 == 0b01 {
                    // CSRRW(I): read the old value if rd is not x0, always
                    // write the source.
                    Ok(
                        Effect {
                            rd_val: if i.rdi != 0 {
                                prev
                            } else {
                                0
                            },
                            next_pc: pc4,
                            mem,
                            csr: spec_csr_write(csr, caddr, src),
                            uart,
                        },
                    )
                } else if i.func3 & 0b11 == 0b10 {
                    // CSRRS(I): read, and set the source bits unless the
                    // source register index (or uimm) is zero.
                    Ok(
                        Effect {
                            rd_val: prev,
                            next_pc: pc4,
                            mem,
                            csr: if i.rs1i != 0 {
                                spec_csr_write(csr, caddr, prev | src)
                            } else {
                                csr
                            },
                            uart,
                        },
                    )
                } else {
                    // CSRRC(I): read, and clear the source bits unless the
                    // source register index (or uimm) is zero.
                    Ok(
                        Effect {
                            rd_val: prev,
                            next_pc: pc4,
                            mem,
                            csr: if i.rs1i != 0 {
                                spec_csr_write(csr, caddr, prev & !src)
                            } else {
                                csr
                            },
                            uart,
                        },
                    )
                }
            }
        }
    } else {
        // The decoder never yields another opcode class.
        Err(Fault::IllegalInstruction)
    }
}

/// Computes the trap-vector target for a trap with cause `cause`.
pub fn trap_target(mtvec: u64, cause: u64, is_async: bool) -> (t: u64)
    ensures
        t == spec_trap_target(mtvec, cause, is_async),
{
    let base: u64 = mtvec & !0b11u64;
    if mtvec & 0b11 == 1 && is_async {
        base.wrapping_add(cause.wrapping_mul(4))
    } else {
        base
    }
}

/// Executes the decoded instruction `i`, returning the destination-register
/// value and the next program counter, and mutating memory, the CSR bank
/// and the UART output exactly as `spec_execute` states.  A fault mutates
/// nothing.
pub fn execute(
    i: &Instr,
    pc: u64,
    mode: u8,
    rs1: u64,
    rs2: u64,
    mem: &mut Vec<u8>,
    csr: &mut Vec<u64>,
    uart_out: &mut Vec<u8>,
) -> (r: Result<(u64, u64), Fault>)
    requires
        old(csr)@.len() == CSR_BANK_SIZE,
        spec_instr_ranges(*i),
    ensures
        match spec_execute(*i, pc, mode, rs1, rs2, old(mem)@, old(csr)@, old(uart_out)@) {
            Ok(e) => r == Ok::<(u64, u64), Fault>((e.rd_val, e.next_pc)) && final(mem)@ == e.mem
                && final(csr)@ == e.csr && final(uart_out)@ == e.uart,
            Err(f) => r == Err::<(u64, u64), Fault>(f) && final(mem)@ == old(mem)@ && final(csr)@
                == old(csr)@ && final(uart_out)@ == old(uart_out)@,
        },
        final(csr)@.len() == old(csr)@.len(),
{
    let pc4: u64 = pc.wrapping_add(4);
    if i.opclass == OP_LUI {
        Ok((i.imm, pc4))
    } else if i.opclass == OP_AUIPC {
        Ok((pc.wrapping_add(i.imm), pc4))
    } else if i.opclass == OP_JAL {
        Ok((pc4, pc.wrapping_add(i.imm)))
    } else if i.opclass == OP_JALR {
        Ok((pc4, rs1.wrapping_add(i.imm) & !1u64))
    } else if i.opclass == OP_BRANCH {
        if i.func3 == 0b010 || i.func3 == 0b011 {
            return Err(Fault::UnsupportedOperation);
        }
        let taken: bool = if i.func3 == 0b000 {
            rs1 == rs2
        } else if i.func3 == 0b001 {
            rs1 != rs2
        } else if i.func3 == 0b100 {
            (#[verifier::truncate] (rs1 as i64)) < (#[verifier::truncate] (rs2 as i64))
        } else if i.func3 == 0b101 {
            (#[verifier::truncate] (rs1 as i64)) >= (#[verifier::truncate] (rs2 as i64))
        } else if i.func3 == 0b110 {
            rs1 < rs2
        } else {
            rs1 >= rs2
        };
        Ok(
            (
                0,
                if taken {
                    pc.wrapping_add(i.imm)
                } else {
                    pc4
                },
            ),
        )
    } else if i.opclass == OP_LOAD {
        match load(mem, i.func3, rs1.wrapping_add(i.imm)) {
            Ok(v) => Ok((v, pc4)),
            Err(f) => Err(f),
        }
    } else if i.opclass == OP_STORE {
        match store(mem, i.func3, rs1.wrapping_add(i.imm), rs2, uart_out) {
            Ok(()) => Ok((0, pc4)),
            Err(f) => Err(f),
        }
    } else if i.opclass == OP_ALU_IMM || i.opclass == OP_ALU_REG {
        let is_imm: bool = i.opclass == OP_ALU_IMM;
        let b: u64 = if is_imm {
            i.imm
        } else {
            rs2
        };
        let bit30: bool = if is_imm {
            i.imm & 0x400 != 0
        } else {
            i.func7 & 0x20 != 0
        };
        let v: u64 = if i.func3 == 0b000 {
            if !is_imm && bit30 {
                rs1.wrapping_sub(b)
            } else {
                rs1.wrapping_add(b)
            }
        } else if i.func3 == 0b001 {
            if b > 63 {
                return Err(Fault::ShiftAmountTooLarge);
            }
            rs1 << b
        } else if i.func3 == 0b010 {
            if (#[verifier::truncate] (rs1 as i64)) < (#[verifier::truncate] (b as i64)) {
                1
            } else {
                0
            }
        } else if i.func3 == 0b011 {
            if rs1 < b {
                1
            } else {
                0
            }
        } else if i.func3 == 0b100 {
            rs1 ^ b
        } else if i.func3 == 0b101 {
            if b > 63 {
                return Err(Fault::ShiftAmountTooLarge);
            }
            if bit30 {
                #[verifier::truncate]
                (((#[verifier::truncate] (rs1 as i64)) >> b) as u64)
            } else {
                rs1 >> b
            }
        } else if i.func3 == 0b110 {
            rs1 | b
        } else {
            rs1 & b
        };
        Ok((v, pc4))
    } else if i.opclass == OP_ALU_IMM_32 {
        if i.func3 == 0b000 {
            let w: u64 = rs1.wrapping_add(i.imm) & 0xffff_ffff;
            let v: u64 = if w & 0x8000_0000 != 0 {
                w | 0xffff_ffff_0000_0000u64
            } else {
                w
            };
            Ok((v, pc4))
        } else {
            Err(Fault::UnsupportedOperation)
        }
    } else if i.opclass == OP_FENCE {
        Ok((0, pc4))
    } else if i.opclass == OP_SYSTEM {
        let src: u64 = if i.func3 & 0b100 != 0 {
            i.rs1i as u64
        } else {
            rs1
        };
        proof {
            lemma_low12_range(i.imm);
        }
        let imm12: u64 = i.imm & 0xfff;
        if i.func3 & 0b11 == 0b00 {
            if imm12 == 0b0000_0000_0000 || imm12 == 0b0000_0000_0001 {
                let cause: u64 = if imm12 == 0 {
                    8u64 + ((mode & 3) as u64)
                } else {
                    EBREAK_CAUSE
                };
                let mtvec: u64 = csr[CsrAddress::Mtvec.value() as usize];
                csr_write(csr, CsrAddress::Mepc.value(), pc & !0b11u64);
                csr_write(csr, CsrAddress::Mcause.value(), cause);
                Ok((0, trap_target(mtvec, cause, false)))
            } else if imm12 == 0b0001_0000_0010 {
                Ok((0, csr[CsrAddress::Sepc.value() as usize]))
            } else if imm12 == 0b0011_0000_0010 {
                Ok((0, csr[CsrAddress::Mepc.value() as usize]))
            } else {
                Err(Fault::UnsupportedOperation)
            }
        } else {
            let caddr: u16 = imm12 as u16;
            if !csr_is_legal(caddr) {
                return Err(Fault::CsrAccessFault);
            }
            let prev: u64 = csr[caddr as usize];
            if i.func3 & 0b11 == 0b01 {
                csr_write(csr, caddr, src);
                Ok(
                    (
                        if i.rdi != 0 {
                            prev
                        } else {
                            0
                        },
                        pc4,
                    ),
                )
            } else if i.func3 & 0b11 == 0b10 {
                if i.rs1i != 0 {
                    csr_write(csr, caddr, prev | src);
                }
                Ok((prev, pc4))
            } else {
                if i.rs1i != 0 {
                    csr_write(csr, caddr, prev & !src);
                }
                Ok((prev, pc4))
            }
        }
    } else {
        Err(Fault::IllegalInstruction)
    }
}

} // verus!
