//! The memory abstraction: a flat byte buffer of general RAM plus a small
//! memory-mapped I/O window (UART).  Every access path goes through one
//! bounds-checked, typed read/write pair with an explicit address-range
//! dispatch, so all accesses share one fault policy:
//!
//! - addresses below `RAM_END` address general RAM (little-endian, and a
//!   multi-byte access must fit inside the buffer);
//! - `UART_DATA` is a write-only UART data register: a store appends one
//!   byte to the output sequence, a load reads zero;
//! - the seven addresses above `UART_DATA` are UART status registers, not
//!   yet implemented: accesses are no-ops;
//! - any other address is an access fault.

use vstd::prelude::*;

use crate::bits::{le16_at, le32_at, le64_at, sext8, sext16, sext32};
use crate::fault::Fault;

verus! {

/// The default capacity of the memory image, in bytes.
pub const MEM_SIZE: usize = 8192;

/// The first address past general RAM.
pub const RAM_END: u64 = 0x1000;

/// The write-only UART data register.
pub const UART_DATA: u64 = 0x1000_0000;

/// The last of the (unimplemented) UART status registers.
pub const UART_STATUS_LAST: u64 = 0x1000_0007;

/// How many bytes a load with function-select `func3` reads
/// (LB/LH/LW/LD/LBU/LHU), or 0 when the combination is unsupported.
pub open spec fn spec_load_size(func3: u8) -> int {
    if func3 == 0b000 || func3 == 0b100 {
        1
    } else if func3 == 0b001 || func3 == 0b101 {
        2
    } else if func3 == 0b010 {
        4
    } else if func3 == 0b011 {
        8
    } else {
        0
    }
}

/// What a load with function-select `func3` yields from RAM at `a`:
/// little-endian bytes, sign-extended for LB/LH/LW, zero-extended for
/// LBU/LHU, raw for LD.
pub open spec fn spec_ram_read(mem: Seq<u8>, func3: u8, a: int) -> u64 {
    if func3 == 0b000 {
        sext8(mem[a] as u64)
    } else if func3 == 0b001 {
        sext16(le16_at(mem, a))
    } else if func3 == 0b010 {
        sext32(le32_at(mem, a))
    } else if func3 == 0b100 {
        mem[a] as u64
    } else if func3 == 0b101 {
        le16_at(mem, a)
    } else {
        le64_at(mem, a)
    }
}

/// What a load yields: the RAM value for in-bounds RAM accesses, zero for
/// the UART window (the data register is write-only and the status
/// registers are unimplemented), a fault otherwise.
pub open spec fn spec_load(mem: Seq<u8>, func3: u8, address: u64) -> Result<u64, Fault> {
    if address < RAM_END {
        if spec_load_size(func3) == 0 {
            Err(Fault::UnsupportedOperation)
        } else if address + spec_load_size(func3) <= mem.len() {
            Ok(spec_ram_read(mem, func3, address as int))
        } else {
            Err(Fault::LoadAccessFault)
        }
    } else if UART_DATA <= address <= UART_STATUS_LAST {
        Ok(0)
    } else {
        Err(Fault::LoadAccessFault)
    }
}

/// What a store leaves in RAM at `a`: 1, 2, 4 or 8 little-endian bytes of
/// `v`, per `func3`.
pub open spec fn spec_ram_write(mem: Seq<u8>, func3: u8, a: int, v: u64) -> Seq<u8> {
    if func3 == 0b000 {
        mem.update(a, v as u8)
    } else if func3 == 0b001 {
        mem.update(a, v as u8).update(a + 1, (v >> 8) as u8)
    } else if func3 == 0b010 {
        mem.update(a, v as u8).update(a + 1, (v >> 8) as u8).update(a + 2, (v >> 16) as u8).update(
            a + 3,
            (v >> 24) as u8,
        )
    } else {
        mem.update(a, v as u8).update(a + 1, (v >> 8) as u8).update(a + 2, (v >> 16) as u8).update(
            a + 3,
            (v >> 24) as u8,
        ).update(a + 4, (v >> 32) as u8).update(a + 5, (v >> 40) as u8).update(
            a + 6,
            (v >> 48) as u8,
        ).update(a + 7, (v >> 56) as u8)
    }
}

/// How many bytes a store with function-select `func3` writes
/// (SB/SH/SW/SD), or 0 when the combination is unsupported.
pub open spec fn spec_store_size(func3: u8) -> int {
    if func3 == 0b000 {
        1
    } else if func3 == 0b001 {
        2
    } else if func3 == 0b010 {
        4
    } else if func3 == 0b011 {
        8
    } else {
        0
    }
}

/// What a store leaves behind, as (memory, UART output): an in-bounds RAM
/// store writes little-endian bytes; a store to the UART data register
/// appends exactly the low byte of the value to the UART output and leaves
/// memory untouched; a store to a UART status register is a no-op; any
/// other address is a fault.
pub open spec fn spec_store(mem: Seq<u8>, uart: Seq<u8>, func3: u8, address: u64, v: u64) -> Result<
    (Seq<u8>, Seq<u8>),
    Fault,
> {
    if address < RAM_END {
        if spec_store_size(func3) == 0 {
            Err(Fault::UnsupportedOperation)
        } else if address + spec_store_size(func3) <= mem.len() {
            Ok((spec_ram_write(mem, func3, address as int, v), uart))
        } else {
            Err(Fault::StoreAccessFault)
        }
    } else if address == UART_DATA {
        Ok((mem, uart.push(v as u8)))
    } else if UART_DATA <= address <= UART_STATUS_LAST {
        Ok((mem, uart))
    } else {
        Err(Fault::StoreAccessFault)
    }
}

/// Loads a value from memory per the load function-select field.
pub fn load(mem: &Vec<u8>, func3: u8, address: u64) -> (r: Result<u64, Fault>)
    ensures
        r == spec_load(mem@, func3, address),
{
    if address < RAM_END {
        let a: usize = address as usize;
        if func3 == 0b000 {
            if a + 1 <= mem.len() {
                let b: u64 = mem[a] as u64;
                Ok(
                    if b & 0x80 != 0 {
                        b | 0xffff_ffff_ffff_ff00u64
                    } else {
                        b
                    },
                )
            } else {
                Err(Fault::LoadAccessFault)
            }
        } else if func3 == 0b001 || func3 == 0b101 {
            if a + 2 <= mem.len() {
                let v: u64 = (mem[a] as u64) | ((mem[a + 1] as u64) << 8);
                if func3 == 0b001 {
                    Ok(
                        if v & 0x8000 != 0 {
                            v | 0xffff_ffff_ffff_0000u64
                        } else {
                            v
                        },
                    )
                } else {
                    Ok(v)
                }
            } else {
                Err(Fault::LoadAccessFault)
            }
        } else if func3 == 0b010 {
            if a + 4 <= mem.len() {
                let v: u64 = (mem[a] as u64) | ((mem[a + 1] as u64) << 8) | ((mem[a + 2] as u64)
                    << 16) | ((mem[a + 3] as u64) << 24);
                Ok(
                    if v & 0x8000_0000 != 0 {
                        v | 0xffff_ffff_0000_0000u64
                    } else {
                        v
                    },
                )
            } else {
                Err(Fault::LoadAccessFault)
            }
        } else if func3 == 0b100 {
            if a + 1 <= mem.len() {
                Ok(mem[a] as u64)
            } else {
                Err(Fault::LoadAccessFault)
            }
        } else if func3 == 0b011 {
            if a + 8 <= mem.len() {
                let v: u64 = (mem[a] as u64) | ((mem[a + 1] as u64) << 8) | ((mem[a + 2] as u64)
                    << 16) | ((mem[a + 3] as u64) << 24) | ((mem[a + 4] as u64) << 32) | ((mem[a
                    + 5] as u64) << 40) | ((mem[a + 6] as u64) << 48) | ((mem[a + 7] as u64) << 56);
                Ok(v)
            } else {
                Err(Fault::LoadAccessFault)
            }
        } else {
            Err(Fault::UnsupportedOperation)
        }
    } else if UART_DATA <= address && address <= UART_STATUS_LAST {
        // The UART data register is write-only and the status registers are
        // unimplemented: reads are ignored and yield zero.
        Ok(0)
    } else {
        Err(Fault::LoadAccessFault)
    }
}

/// Stores a value to memory per the store function-select field, appending
/// to `uart_out` when the address is the UART data register.
pub fn store(mem: &mut Vec<u8>, func3: u8, address: u64, rs2: u64, uart_out: &mut Vec<u8>) -> (r:
    Result<(), Fault>)
    ensures
        match spec_store(old(mem)@, old(uart_out)@, func3, address, rs2) {
            Ok((m2, u2)) => r is Ok && final(mem)@ == m2 && final(uart_out)@ == u2,
            Err(f) => r == Err::<(), Fault>(f) && final(mem)@ == old(mem)@ && final(uart_out)@
                == old(uart_out)@,
        },
{
    if address < RAM_END {
        let a: usize = address as usize;
        if func3 == 0b000 {
            if a + 1 <= mem.len() {
                mem[a] = #[verifier::truncate] (rs2 as u8);
                Ok(())
            } else {
                Err(Fault::StoreAccessFault)
            }
        } else if func3 == 0b001 {
            if a + 2 <= mem.len() {
                mem[a] = #[verifier::truncate] (rs2 as u8);
                mem[a + 1] = #[verifier::truncate] ((rs2 >> 8) as u8);
                Ok(())
            } else {
                Err(Fault::StoreAccessFault)
            }
        } else if func3 == 0b010 {
            if a + 4 <= mem.len() {
                mem[a] = #[verifier::truncate] (rs2 as u8);
                mem[a + 1] = #[verifier::truncate] ((rs2 >> 8) as u8);
                mem[a + 2] = #[verifier::truncate] ((rs2 >> 16) as u8);
                mem[a + 3] = #[verifier::truncate] ((rs2 >> 24) as u8);
                Ok(())
            } else {
                Err(Fault::StoreAccessFault)
            }
        } else if func3 == 0b011 {
            if a + 8 <= mem.len() {
                mem[a] = #[verifier::truncate] (rs2 as u8);
                mem[a + 1] = #[verifier::truncate] ((rs2 >> 8) as u8);
                mem[a + 2] = #[verifier::truncate] ((rs2 >> 16) as u8);
                mem[a + 3] = #[verifier::truncate] ((rs2 >> 24) as u8);
                mem[a + 4] = #[verifier::truncate] ((rs2 >> 32) as u8);
                mem[a + 5] = #[verifier::truncate] ((rs2 >> 40) as u8);
                mem[a + 6] = #[verifier::truncate] ((rs2 >> 48) as u8);
                mem[a + 7] = #[verifier::truncate] ((rs2 >> 56) as u8);
                Ok(())
            } else {
                Err(Fault::StoreAccessFault)
            }
        } else {
            Err(Fault::UnsupportedOperation)
        }
    } else if address == UART_DATA {
        uart_out.push(#[verifier::truncate] (rs2 as u8));
        Ok(())
    } else if UART_DATA <= address && address <= UART_STATUS_LAST {
        // UART status registers are not implemented: the store is dropped.
        Ok(())
    } else {
        Err(Fault::StoreAccessFault)
    }
}

/// Translates a virtual address to a physical address.  The Sv39 paging
/// scheme is recognized by the data model but not activated: translation is
/// bypassed and every address maps to itself.
pub fn translate_address(csr: &Vec<u64>, va: u64, access_type: u8) -> (pa: u64)
    ensures
        pa == va,
{
    let _ = csr;
    let _ = access_type;
    va
}

} // verus!
