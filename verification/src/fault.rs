//! The fault taxonomy of the interpreter.  Any fault is terminal for the
//! current step only: the faulting hart's registers and program counter are
//! left as they were, and the step reports failure to the caller.

use vstd::prelude::*;

verus! {

/// Why a step aborted.
#[derive(Clone, Copy, Debug, PartialEq, Eq, Structural)]
pub enum Fault {
    /// The fetched word is not a legal 32-bit instruction encoding, or its
    /// opcode class lies outside the recognized format groupings.
    IllegalInstruction,
    /// A recognized instruction with an unsupported function-select
    /// combination, or a recognized-but-unimplemented sub-operation.
    UnsupportedOperation,
    /// A shift with an amount greater than 63: a deliberate guard against
    /// undefined shift behaviour.
    ShiftAmountTooLarge,
    /// The program counter does not leave room for a 4-byte fetch inside
    /// the memory image.
    FetchAccessFault,
    /// A load from an address outside RAM and the memory-mapped I/O window,
    /// or one that would read past the RAM bound.
    LoadAccessFault,
    /// A store to an address outside RAM and the memory-mapped I/O window,
    /// or one that would write past the RAM bound.
    StoreAccessFault,
    /// A CSR access to an address absent from the legal CSR table.
    CsrAccessFault,
}

} // verus!
