//! The simulator: one or more hart states, the shared memory, the shared
//! CSR bank, and the transient diagnostic fields.  `step` advances every
//! hart by exactly one instruction (fetch, decode, execute, writeback, pc
//! update), in index order; any fault is terminal for that step and leaves
//! the faulting hart's registers and program counter untouched.

use vstd::prelude::*;

use crate::csr::{spec_csr_default, default_csr, CSR_BANK_SIZE};
use crate::decode::{decode, spec_decode, Instr};
use crate::exec::{execute, spec_execute};
use crate::fault::Fault;
use crate::mem::MEM_SIZE;
use crate::text::{fault_message, hex_u32, spec_fault_message, spec_hex32};

verus! {

/// The machine privilege mode (the reset mode of a hart).
pub const MODE_MACHINE: u8 = 0b11;

/// One hardware thread of execution: 32 general-purpose registers
/// (register 0 is the architectural zero register: the executor never
/// persists a write to it), the program counter, two diagnostic fields, and
/// the 2-bit privilege mode (00 user, 01 supervisor, 10 reserved,
/// 11 machine).
pub struct CpuState {
    pub regs: Vec<u64>,
    pub pc: u64,
    /// The previous fetch address (diagnostic).
    pub last_pc: u64,
    /// A hexadecimal rendering of the last fetched word (diagnostic).
    pub last_instruction: String,
    pub current_mode: u8,
}

/// The mathematical view of a hart.
pub struct HartV {
    pub regs: Seq<u64>,
    pub pc: u64,
    pub last_pc: u64,
    pub last_instruction: Seq<char>,
    pub current_mode: u8,
}

impl HartV {
    /// A well-formed hart has 32 registers and keeps register 0 at zero.
    pub open spec fn wf(self) -> bool {
        &&& self.regs.len() == 32
        &&& self.regs[0] == 0
    }
}

impl View for CpuState {
    type V = HartV;

    open spec fn view(&self) -> HartV {
        HartV {
            regs: self.regs@,
            pc: self.pc,
            last_pc: self.last_pc,
            last_instruction: self.last_instruction@,
            current_mode: self.current_mode,
        }
    }
}

/// The simulator: the hart states, the memory image, the CSR bank, a
/// status/log string and a per-step trace string (both diagnostics), the
/// UART output fed by stores to the UART data register, and an alive flag
/// owned by the external caller.
pub struct Simulator {
    pub states: Vec<CpuState>,
    pub mem: Vec<u8>,
    pub csr: Vec<u64>,
    pub log: String,
    pub sim_out: String,
    pub uart_out: Vec<u8>,
    pub state: bool,
}

/// The mathematical view of the simulator: the diagnostic strings and the
/// alive flag are not part of the functional state.
pub struct SimV {
    pub harts: Seq<HartV>,
    pub mem: Seq<u8>,
    pub csr: Seq<u64>,
    pub uart: Seq<u8>,
}

impl SimV {
    /// A well-formed simulator has at least one hart, well-formed harts,
    /// and a full CSR bank.
    pub open spec fn wf(self) -> bool {
        &&& self.harts.len() >= 1
        &&& forall|j: int| 0 <= j < self.harts.len() ==> (#[trigger] self.harts[j]).wf()
        &&& self.csr.len() == CSR_BANK_SIZE
    }
}

impl View for Simulator {
    type V = SimV;

    open spec fn view(&self) -> SimV {
        SimV {
            harts: self.states@.map_values(|st: CpuState| st@),
            mem: self.mem@,
            csr: self.csr@,
            uart: self.uart_out@,
        }
    }
}

impl Simulator {
    /// A well-formed simulator.
    pub open spec fn wf(&self) -> bool {
        self@.wf()
    }
}

/// The 32-bit instruction word fetched little-endian at offset `a`.
pub open spec fn spec_fetch(mem: Seq<u8>, a: int) -> u32 {
    (mem[a] as u32) | ((mem[a + 1] as u32) << 8) | ((mem[a + 2] as u32) << 16) | ((mem[a
        + 3] as u32) << 24)
}

/// What writeback leaves in the register file: a write to register 0 is
/// always discarded.
pub open spec fn spec_write_rd(regs: Seq<u64>, rdi: u8, v: u64) -> Seq<u64> {
    if rdi == 0 {
        regs
    } else {
        regs.update(rdi as int, v)
    }
}

/// What stepping one hart leaves behind.  On a fault, the hart keeps its
/// registers and program counter (only the diagnostic fields move) and the
/// shared state is untouched.
pub struct HartStepOut {
    pub hart: HartV,
    pub mem: Seq<u8>,
    pub csr: Seq<u64>,
    pub uart: Seq<u8>,
    pub fault: Option<Fault>,
}

/// One hart's step: fetch the word at the program counter, decode it,
/// execute it, write the destination register back (discarding writes to
/// register 0), and move the program counter to the next-pc the operation
/// computed (`pc + 4` unless the operation redirects it).
pub open spec fn spec_step_hart(h: HartV, mem: Seq<u8>, csr: Seq<u64>, uart: Seq<u8>) -> HartStepOut {
    let h1 = HartV {
        regs: h.regs,
        pc: h.pc,
        last_pc: h.pc,
        last_instruction: h.last_instruction,
        current_mode: h.current_mode,
    };
    if h.pc + 4 > mem.len() {
        HartStepOut { hart: h1, mem, csr, uart, fault: Some(Fault::FetchAccessFault) }
    } else {
        let ir = spec_fetch(mem, h.pc as int);
        let h2 = HartV {
            regs: h1.regs,
            pc: h1.pc,
            last_pc: h1.last_pc,
            last_instruction: spec_hex32(ir),
            current_mode: h1.current_mode,
        };
        match spec_decode(ir) {
            None => HartStepOut { hart: h2, mem, csr, uart, fault: Some(Fault::IllegalInstruction) },
            Some(i) => match spec_execute(
                i,
                h.pc,
                h.current_mode,
                h.regs[i.rs1i as int],
                h.regs[i.rs2i as int],
                mem,
                csr,
                uart,
            ) {
                Err(f) => HartStepOut { hart: h2, mem, csr, uart, fault: Some(f) },
                Ok(e) => HartStepOut {
                    hart: HartV {
                        regs: spec_write_rd(h.regs, i.rdi, e.rd_val),
                        pc: e.next_pc,
                        last_pc: h2.last_pc,
                        last_instruction: h2.last_instruction,
                        current_mode: h2.current_mode,
                    },
                    mem: e.mem,
                    csr: e.csr,
                    uart: e.uart,
                    fault: None,
                },
            },
        }
    }
}

/// Steps the harts from index `k` on, in index order, against the shared
/// state; the first fault ends the step with the remaining harts untouched.
pub open spec fn spec_step_sim(s: SimV, k: int) -> (SimV, Option<Fault>)
    decreases s.harts.len() - k,
{
    if k < 0 || k >= s.harts.len() {
        (s, None)
    } else {
        let o = spec_step_hart(s.harts[k], s.mem, s.csr, s.uart);
        let s2 = SimV { harts: s.harts.update(k, o.hart), mem: o.mem, csr: o.csr, uart: o.uart };
        match o.fault {
            Some(f) => (s2, Some(f)),
            None => spec_step_sim(s2, k + 1),
        }
    }
}

/// Steps hart `k` once, exactly as `spec_step_hart` states.  The log is the
/// caller's; the per-step trace string is cleared.
fn step_hart(sim: &mut Simulator, k: usize) -> (r: Result<(), Fault>)
    requires
        old(sim).wf(),
        k < old(sim)@.harts.len(),
    ensures
        final(sim).wf(),
        final(sim).state == old(sim).state,
        final(sim).log == old(sim).log,
        final(sim).sim_out@ == Seq::<char>::empty(),
        ({
            let o = spec_step_hart(
                old(sim)@.harts[k as int],
                old(sim)@.mem,
                old(sim)@.csr,
                old(sim)@.uart,
            );
            &&& final(sim)@ == (SimV {
                harts: old(sim)@.harts.update(k as int, o.hart),
                mem: o.mem,
                csr: o.csr,
                uart: o.uart,
            })
            &&& r == (match o.fault {
                None => Ok::<(), Fault>(()),
                Some(f) => Err::<(), Fault>(f),
            })
        }),
{
    let ghost o = spec_step_hart(old(sim)@.harts[k as int], old(sim)@.mem, old(sim)@.csr, old(sim)@.uart);
    assert(sim.states.len() == old(sim)@.harts.len());
    let pc: u64 = sim.states[k].pc;
    sim.states[k].last_pc = pc;
    sim.sim_out = String::new();
    if sim.mem.len() < 4 || pc > (sim.mem.len() - 4) as u64 {
        proof {
            assert(sim@.harts =~= old(sim)@.harts.update(k as int, o.hart));
        }
        return Err(Fault::FetchAccessFault);
    }
    let a: usize = pc as usize;
    let ir: u32 = (sim.mem[a] as u32) | ((sim.mem[a + 1] as u32) << 8) | ((sim.mem[a + 2] as u32)
        << 16) | ((sim.mem[a + 3] as u32) << 24);
    proof {
        assert(ir == spec_fetch(old(sim)@.mem, pc as int));
    }
    sim.states[k].last_instruction = hex_u32(ir);
    let inst: Instr = match decode(ir) {
        Ok(d) => d,
        Err(f) => {
            proof {
                assert(sim@.harts =~= old(sim)@.harts.update(k as int, o.hart));
            }
            return Err(f);
        },
    };
    let rs1: u64 = sim.states[k].regs[inst.rs1i as usize];
    let rs2: u64 = sim.states[k].regs[inst.rs2i as usize];
    let mode: u8 = sim.states[k].current_mode;
    let (rd_val, next_pc): (u64, u64) = match execute(
        &inst,
        pc,
        mode,
        rs1,
        rs2,
        &mut sim.mem,
        &mut sim.csr,
        &mut sim.uart_out,
    ) {
        Ok(p) => p,
        Err(f) => {
            proof {
                assert(sim@.harts =~= old(sim)@.harts.update(k as int, o.hart));
            }
            return Err(f);
        },
    };
    if inst.rdi != 0 {
        sim.states[k].regs[inst.rdi as usize] = rd_val;
    }
    sim.states[k].pc = next_pc;
    proof {
        assert(sim.states@[k as int]@.regs =~= o.hart.regs);
        assert(sim@.harts =~= old(sim)@.harts.update(k as int, o.hart));
    }
    Ok(())
}

/// Advances every hart by exactly one instruction, in index order.  On
/// success the log reads `OK`; on a fault the step ends there, the
/// remaining harts are untouched, and the log holds the fault's message.
pub fn step(sim: &mut Simulator) -> (ok: bool)
    requires
        old(sim).wf(),
    ensures
        final(sim).wf(),
        final(sim).state == old(sim).state,
        ({
            let (s2, f) = spec_step_sim(old(sim)@, 0);
            &&& final(sim)@ == s2
            &&& ok == (f is None)
            &&& final(sim).log@ == (match f {
                None => "OK"@,
                Some(g) => spec_fault_message(g),
            })
        }),
{
    let n: usize = sim.states.len();
    let mut k: usize = 0;
    while k < n
        invariant
            k <= n,
            sim.wf(),
            sim@.harts.len() == n,
            sim.states.len() == n,
            sim.state == old(sim).state,
            spec_step_sim(sim@, k as int) == spec_step_sim(old(sim)@, 0),
        decreases n - k,
    {
        match step_hart(sim, k) {
            Ok(()) => {},
            Err(f) => {
                sim.log = fault_message(&f);
                return false;
            },
        }
        k = k + 1;
    }
    sim.log = "OK".to_owned();
    true
}

/// A fresh hart: zero-filled registers, zero program counter, machine mode.
pub fn default_cpu_state() -> (st: CpuState)
    ensures
        st@.wf(),
        st@.regs =~= Seq::new(32, |i: int| 0u64),
        st@.pc == 0,
        st@.last_pc == 0,
        st@.last_instruction =~= Seq::<char>::empty(),
        st@.current_mode == MODE_MACHINE,
{
    CpuState {
        regs: vec![0u64; 32],
        pc: 0,
        last_pc: 0,
        last_instruction: String::new(),
        current_mode: MODE_MACHINE,
    }
}

/// A fresh simulator: one hart, zero-filled memory, the default CSR bank,
/// an empty UART output, and the log reading `OK`.
pub fn default_sim() -> (sim: Simulator)
    ensures
        sim.wf(),
        sim@.harts.len() == 1,
        sim@.harts[0].wf(),
        sim@.harts[0].regs =~= Seq::new(32, |i: int| 0u64),
        sim@.harts[0].pc == 0,
        sim@.harts[0].last_pc == 0,
        sim@.harts[0].last_instruction =~= Seq::<char>::empty(),
        sim@.harts[0].current_mode == MODE_MACHINE,
        sim@.mem =~= Seq::new(MEM_SIZE as nat, |i: int| 0u8),
        sim@.csr == spec_csr_default(),
        sim@.uart =~= Seq::<u8>::empty(),
        sim.log@ == "OK"@,
        sim.sim_out@ =~= Seq::<char>::empty(),
        sim.state == true,
{
    let mut states: Vec<CpuState> = Vec::new();
    states.push(default_cpu_state());
    Simulator {
        states,
        mem: vec![0u8; MEM_SIZE],
        csr: default_csr(),
        log: "OK".to_owned(),
        sim_out: String::new(),
        uart_out: Vec::new(),
        state: true,
    }
}

/// Why an image cannot be loaded.
#[derive(Clone, Copy, Debug, PartialEq, Eq, Structural)]
pub enum LoadImageError {
    /// The image holds more bytes than the memory image can.
    ImageTooLarge,
}

/// Copies `image` over the front of memory and zero-fills the remainder.
/// An image larger than the memory capacity is rejected whole, and nothing
/// changes.
pub fn load_image(sim: &mut Simulator, image: &Vec<u8>) -> (r: Result<(), LoadImageError>)
    ensures
        final(sim).states == old(sim).states,
        final(sim).csr == old(sim).csr,
        final(sim).uart_out == old(sim).uart_out,
        final(sim).log == old(sim).log,
        final(sim).sim_out == old(sim).sim_out,
        final(sim).state == old(sim).state,
        match r {
            Ok(()) => image@.len() <= old(sim).mem@.len() && final(sim).mem@ =~= Seq::new(
                old(sim).mem@.len(),
                |i: int|
                    if i < image@.len() {
                        image@[i]
                    } else {
                        0u8
                    },
            ),
            Err(e) => e == LoadImageError::ImageTooLarge && image@.len() > old(sim).mem@.len()
                && final(sim).mem == old(sim).mem,
        },
{
    if image.len() > sim.mem.len() {
        return Err(LoadImageError::ImageTooLarge);
    }
    let n: usize = sim.mem.len();
    let m: usize = image.len();
    let mut i: usize = 0;
    while i < m
        invariant
            i <= m,
            m <= n,
            m == image@.len(),
            n == sim.mem@.len(),
            forall|j: int| 0 <= j < i ==> sim.mem@[j] == image@[j],
            forall|j: int| i <= j < n ==> sim.mem@[j] == old(sim).mem@[j],
            sim.states == old(sim).states,
            sim.csr == old(sim).csr,
            sim.uart_out == old(sim).uart_out,
            sim.log == old(sim).log,
            sim.sim_out == old(sim).sim_out,
            sim.state == old(sim).state,
        decreases m - i,
    {
        sim.mem[i] = image[i];
        i = i + 1;
    }
    let mut j: usize = m;
    while j < n
        invariant
            m <= j <= n,
            m == image@.len(),
            n == sim.mem@.len(),
            forall|t: int| 0 <= t < m ==> sim.mem@[t] == image@[t],
            forall|t: int| m <= t < j ==> sim.mem@[t] == 0u8,
            sim.states == old(sim).states,
            sim.csr == old(sim).csr,
            sim.uart_out == old(sim).uart_out,
            sim.log == old(sim).log,
            sim.sim_out == old(sim).sim_out,
            sim.state == old(sim).state,
        decreases n - j,
    {
        sim.mem[j] = 0;
        j = j + 1;
    }
    Ok(())
}

} // verus!
