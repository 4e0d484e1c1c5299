//! A single-hart RISC-V (RV64I + Zicsr) instruction-set interpreter.
//!
//! The interpreter fetches a 32-bit instruction word from a byte-addressable
//! memory image, decodes it per the RISC-V base instruction formats, executes
//! the decoded operation against a register file and a control/status
//! register (CSR) bank, and advances the program counter.  Every step of that
//! pipeline is specified by spec functions over mathematical views of the
//! machine state, and the executable code is proved to implement them.

pub mod bits;
pub mod csr;
pub mod decode;
pub mod exec;
pub mod fault;
pub mod laws;
pub mod mem;
pub mod sim;
pub mod text;
