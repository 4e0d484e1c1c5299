//! Laws of the interpreter: properties that hold of all inputs, stated over
//! the spec functions the public contracts use and proved once and for all.

use vstd::prelude::*;

use crate::csr::{lemma_csr_mask_extremes, spec_csr_is_legal, spec_csr_write, CsrAddress};
use crate::decode::{spec_decode, spec_word_is_32bit, Instr, OP_ALU_IMM, OP_SYSTEM};
use crate::exec::{spec_alu, spec_execute, Effect};
use crate::fault::Fault;
use crate::mem::{spec_store, UART_DATA};
use crate::sim::{spec_fetch, spec_step_hart, HartV};

verus! {

/// A word without the 32-bit instruction marker (bits 1:0 not `11`), or
/// with the reserved wide-encoding escape (bits 4:2 equal to `111`), never
/// decodes, and a step that fetches such a word fails with an illegal
/// instruction and mutates no register, program counter, memory, CSR or
/// UART output.
pub proof fn lemma_illegal_word_faults(h: HartV, mem: Seq<u8>, csr: Seq<u64>, uart: Seq<u8>)
    requires
        h.pc + 4 <= mem.len(),
        !spec_word_is_32bit(spec_fetch(mem, h.pc as int)),
    ensures
        spec_decode(spec_fetch(mem, h.pc as int)) is None,
        ({
            let o = spec_step_hart(h, mem, csr, uart);
            &&& o.fault == Some(Fault::IllegalInstruction)
            &&& o.mem == mem
            &&& o.csr == csr
            &&& o.uart == uart
            &&& o.hart.regs == h.regs
            &&& o.hart.pc == h.pc
        }),
{
}

/// Storing any value at the UART data register appends exactly its low
/// byte to the UART output and leaves general memory untouched, whatever
/// the store width.
pub proof fn lemma_uart_store_appends(mem: Seq<u8>, uart: Seq<u8>, func3: u8, v: u64)
    ensures
        spec_store(mem, uart, func3, UART_DATA, v) == Ok::<(Seq<u8>, Seq<u8>), Fault>(
            (mem, uart.push(v as u8)),
        ),
{
}

/// The CSR round trip: CSRRW writes a value V to MSCRATCH, and CSRRS with
/// source register x0 on the same CSR then reads back exactly V and leaves
/// the CSR bank unmodified (a zero source index means read-only).
pub proof fn lemma_csrrw_csrrs_round_trip(
    csr: Seq<u64>,
    mem: Seq<u8>,
    uart: Seq<u8>,
    pc1: u64,
    pc2: u64,
    mode: u8,
    v: u64,
    w: Instr,
    r: Instr,
)
    requires
        csr.len() == 4096,
        w == (Instr {
            opclass: OP_SYSTEM,
            rdi: 0,
            rs1i: 1,
            rs2i: 0,
            func3: 0b001,
            func7: 0,
            imm: CsrAddress::Mscratch.spec_value() as u64,
        }),
        r == (Instr {
            opclass: OP_SYSTEM,
            rdi: 1,
            rs1i: 0,
            rs2i: 0,
            func3: 0b010,
            func7: 0,
            imm: CsrAddress::Mscratch.spec_value() as u64,
        }),
    ensures
        ({
            let c2 = spec_csr_write(csr, CsrAddress::Mscratch.spec_value(), v);
            &&& c2[CsrAddress::Mscratch.spec_value() as int] == v
            &&& spec_execute(w, pc1, mode, v, 0, mem, csr, uart) == Ok::<Effect, Fault>(
                Effect { rd_val: 0, next_pc: pc1.wrapping_add(4), mem, csr: c2, uart },
            )
            &&& spec_execute(r, pc2, mode, 0, 0, mem, c2, uart) == Ok::<Effect, Fault>(
                Effect { rd_val: v, next_pc: pc2.wrapping_add(4), mem, csr: c2, uart },
            )
        }),
{
    let a = CsrAddress::Mscratch.spec_value();
    assert(a == 0x340);
    let wi = w.imm;
    assert(wi & 0xfff == 0x340) by (bit_vector)
        requires
            wi == 0x340u64,
    ;
    assert(spec_csr_is_legal(0x340u16)) by {
        assert(CsrAddress::Mscratch.spec_value() == 0x340u16);
    }
    assert(0b001u8 & 0b100u8 == 0u8 && 0b001u8 & 0b11u8 == 0b001u8 && 0b010u8 & 0b100u8 == 0u8
        && 0b010u8 & 0b11u8 == 0b010u8) by (bit_vector);
    lemma_csr_mask_extremes(csr[a as int], v);
}

/// Any shift whose amount exceeds 63 is refused by the ALU, for both shift
/// directions and both operand forms.
pub proof fn lemma_oversized_shift_refused(func3: u8, is_imm: bool, bit30: bool, a: u64, b: u64)
    requires
        func3 == 0b001 || func3 == 0b101,
        b > 63,
    ensures
        spec_alu(func3, is_imm, bit30, a, b) == Err::<u64, Fault>(Fault::ShiftAmountTooLarge),
{
}

/// A shift-immediate instruction whose immediate exceeds 63 aborts
/// execution with no effect; with `step`'s contract, the destination
/// register and the program counter are left unmodified.
pub proof fn lemma_oversized_shift_immediate_faults(
    i: Instr,
    pc: u64,
    mode: u8,
    rs1: u64,
    rs2: u64,
    mem: Seq<u8>,
    csr: Seq<u64>,
    uart: Seq<u8>,
)
    requires
        i.opclass == OP_ALU_IMM,
        i.func3 == 0b001 || i.func3 == 0b101,
        i.imm > 63,
    ensures
        spec_execute(i, pc, mode, rs1, rs2, mem, csr, uart) == Err::<Effect, Fault>(
            Fault::ShiftAmountTooLarge,
        ),
{
}

} // verus!
