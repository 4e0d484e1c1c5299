//! The control/status register (CSR) bank: a bank of 4096 64-bit registers
//! addressed by a 12-bit index, of which only a fixed table of addresses is
//! legal to access.  Each legal address carries a human-readable name and a
//! write-access mask: most entries admit every bit, the physical-memory-
//! protection registers (PMPCFG*, PMPADDR*) are present in the address space
//! but carry a zero mask (read-only, not yet implemented).

use vstd::prelude::*;

verus! {

/// How many CSR slots the bank holds (one per 12-bit address).
pub const CSR_BANK_SIZE: usize = 4096;

/// The named CSR addresses the interpreter knows.
#[derive(Clone, Copy, Debug, PartialEq, Eq, Structural)]
pub enum CsrAddress {
    // Supervisor trap setup.
    Sstatus,
    Sie,
    Stvec,
    Scounteren,
    // Supervisor configuration.
    Senvcfg,
    // Supervisor trap handling.
    Sscratch,
    Sepc,
    Scause,
    Stval,
    Sip,
    // Supervisor protection and translation.
    Satp,
    // Supervisor debug/trace.
    Scontext,
    // Machine information.
    Mhartid,
    // Machine trap setup.
    Mstatus,
    Misa,
    Medeleg,
    Mideleg,
    Mie,
    Mtvec,
    Mcounteren,
    // Machine configuration.
    Menvcfg,
    // Machine trap handling.
    Mscratch,
    Mepc,
    Mcause,
    Mip,
}

impl CsrAddress {
    /// The 12-bit address of the register.
    pub open spec fn spec_value(self) -> u16 {
        match self {
            CsrAddress::Sstatus => 0x100,
            CsrAddress::Sie => 0x104,
            CsrAddress::Stvec => 0x105,
            CsrAddress::Scounteren => 0x106,
            CsrAddress::Senvcfg => 0x10a,
            CsrAddress::Sscratch => 0x140,
            CsrAddress::Sepc => 0x141,
            CsrAddress::Scause => 0x142,
            CsrAddress::Stval => 0x143,
            CsrAddress::Sip => 0x144,
            CsrAddress::Satp => 0x180,
            CsrAddress::Scontext => 0x5a8,
            CsrAddress::Mhartid => 0xf14,
            CsrAddress::Mstatus => 0x300,
            CsrAddress::Misa => 0x301,
            CsrAddress::Medeleg => 0x302,
            CsrAddress::Mideleg => 0x303,
            CsrAddress::Mie => 0x304,
            CsrAddress::Mtvec => 0x305,
            CsrAddress::Mcounteren => 0x306,
            CsrAddress::Menvcfg => 0x30a,
            CsrAddress::Mscratch => 0x340,
            CsrAddress::Mepc => 0x341,
            CsrAddress::Mcause => 0x342,
            CsrAddress::Mip => 0x344,
        }
    }

    /// The 12-bit address of the register.
    pub fn value(self) -> (a: u16)
        ensures
            a == self.spec_value(),
    {
        match self {
            CsrAddress::Sstatus => 0x100,
            CsrAddress::Sie => 0x104,
            CsrAddress::Stvec => 0x105,
            CsrAddress::Scounteren => 0x106,
            CsrAddress::Senvcfg => 0x10a,
            CsrAddress::Sscratch => 0x140,
            CsrAddress::Sepc => 0x141,
            CsrAddress::Scause => 0x142,
            CsrAddress::Stval => 0x143,
            CsrAddress::Sip => 0x144,
            CsrAddress::Satp => 0x180,
            CsrAddress::Scontext => 0x5a8,
            CsrAddress::Mhartid => 0xf14,
            CsrAddress::Mstatus => 0x300,
            CsrAddress::Misa => 0x301,
            CsrAddress::Medeleg => 0x302,
            CsrAddress::Mideleg => 0x303,
            CsrAddress::Mie => 0x304,
            CsrAddress::Mtvec => 0x305,
            CsrAddress::Mcounteren => 0x306,
            CsrAddress::Menvcfg => 0x30a,
            CsrAddress::Mscratch => 0x340,
            CsrAddress::Mepc => 0x341,
            CsrAddress::Mcause => 0x342,
            CsrAddress::Mip => 0x344,
        }
    }

    /// The register's human-readable name.
    pub open spec fn spec_name(self) -> Seq<char> {
        match self {
            CsrAddress::Sstatus => "SSTATUS"@,
            CsrAddress::Sie => "SIE"@,
            CsrAddress::Stvec => "STVEC"@,
            CsrAddress::Scounteren => "SCOUNTEREN"@,
            CsrAddress::Senvcfg => "SENVCFG"@,
            CsrAddress::Sscratch => "SSCRATCH"@,
            CsrAddress::Sepc => "SEPC"@,
            CsrAddress::Scause => "SCAUSE"@,
            CsrAddress::Stval => "STVAL"@,
            CsrAddress::Sip => "SIP"@,
            CsrAddress::Satp => "SATP"@,
            CsrAddress::Scontext => "SCONTEXT"@,
            CsrAddress::Mhartid => "MHARTID"@,
            CsrAddress::Mstatus => "MSTATUS"@,
            CsrAddress::Misa => "MISA"@,
            CsrAddress::Medeleg => "MEDELEG"@,
            CsrAddress::Mideleg => "MIDELEG"@,
            CsrAddress::Mie => "MIE"@,
            CsrAddress::Mtvec => "MTVEC"@,
            CsrAddress::Mcounteren => "MCOUNTEREN"@,
            CsrAddress::Menvcfg => "MENVCFG"@,
            CsrAddress::Mscratch => "MSCRATCH"@,
            CsrAddress::Mepc => "MEPC"@,
            CsrAddress::Mcause => "MCAUSE"@,
            CsrAddress::Mip => "MIP"@,
        }
    }

    /// The register's human-readable name (a diagnostic aid).
    pub fn name(self) -> (s: &'static str)
        ensures
            s@ == self.spec_name(),
    {
        match self {
            CsrAddress::Sstatus => "SSTATUS",
            CsrAddress::Sie => "SIE",
            CsrAddress::Stvec => "STVEC",
            CsrAddress::Scounteren => "SCOUNTEREN",
            CsrAddress::Senvcfg => "SENVCFG",
            CsrAddress::Sscratch => "SSCRATCH",
            CsrAddress::Sepc => "SEPC",
            CsrAddress::Scause => "SCAUSE",
            CsrAddress::Stval => "STVAL",
            CsrAddress::Sip => "SIP",
            CsrAddress::Satp => "SATP",
            CsrAddress::Scontext => "SCONTEXT",
            CsrAddress::Mhartid => "MHARTID",
            CsrAddress::Mstatus => "MSTATUS",
            CsrAddress::Misa => "MISA",
            CsrAddress::Medeleg => "MEDELEG",
            CsrAddress::Mideleg => "MIDELEG",
            CsrAddress::Mie => "MIE",
            CsrAddress::Mtvec => "MTVEC",
            CsrAddress::Mcounteren => "MCOUNTEREN",
            CsrAddress::Menvcfg => "MENVCFG",
            CsrAddress::Mscratch => "MSCRATCH",
            CsrAddress::Mepc => "MEPC",
            CsrAddress::Mcause => "MCAUSE",
            CsrAddress::Mip => "MIP",
        }
    }
}

/// The first address of the physical-memory-protection window
/// (PMPCFG0..PMPCFG15 at 0x3a0..0x3af, PMPADDR0..PMPADDR63 at 0x3b0..0x3ef).
pub const PMP_FIRST: u16 = 0x3a0;

/// The last address of the physical-memory-protection window.
pub const PMP_LAST: u16 = 0x3ef;

/// Whether `a` lies in the physical-memory-protection window.
pub open spec fn spec_is_pmp(a: u16) -> bool {
    PMP_FIRST <= a <= PMP_LAST
}

/// Whether `a` is in the legal CSR table: one of the named registers, or
/// inside the physical-memory-protection window.  Access to any other
/// address is a fault.
pub open spec fn spec_csr_is_legal(a: u16) -> bool {
    ||| exists|c: CsrAddress| c.spec_value() == a
    ||| spec_is_pmp(a)
}

/// Decides membership in the legal CSR table.
pub fn csr_is_legal(a: u16) -> (r: bool)
    ensures
        r == spec_csr_is_legal(a),
{
    if PMP_FIRST <= a && a <= PMP_LAST {
        return true;
    }
    let named: bool = a == 0x100 || a == 0x104 || a == 0x105 || a == 0x106 || a == 0x10a || a
        == 0x140 || a == 0x141 || a == 0x142 || a == 0x143 || a == 0x144 || a == 0x180 || a
        == 0x5a8 || a == 0xf14 || a == 0x300 || a == 0x301 || a == 0x302 || a == 0x303 || a
        == 0x304 || a == 0x305 || a == 0x306 || a == 0x30a || a == 0x340 || a == 0x341 || a
        == 0x342 || a == 0x344;
    proof {
        if named {
            if a == 0x100 {
                assert(CsrAddress::Sstatus.spec_value() == a);
            } else if a == 0x104 {
                assert(CsrAddress::Sie.spec_value() == a);
            } else if a == 0x105 {
                assert(CsrAddress::Stvec.spec_value() == a);
            } else if a == 0x106 {
                assert(CsrAddress::Scounteren.spec_value() == a);
            } else if a == 0x10a {
                assert(CsrAddress::Senvcfg.spec_value() == a);
            } else if a == 0x140 {
                assert(CsrAddress::Sscratch.spec_value() == a);
            } else if a == 0x141 {
                assert(CsrAddress::Sepc.spec_value() == a);
            } else if a == 0x142 {
                assert(CsrAddress::Scause.spec_value() == a);
            } else if a == 0x143 {
                assert(CsrAddress::Stval.spec_value() == a);
            } else if a == 0x144 {
                assert(CsrAddress::Sip.spec_value() == a);
            } else if a == 0x180 {
                assert(CsrAddress::Satp.spec_value() == a);
            } else if a == 0x5a8 {
                assert(CsrAddress::Scontext.spec_value() == a);
            } else if a == 0xf14 {
                assert(CsrAddress::Mhartid.spec_value() == a);
            } else if a == 0x300 {
                assert(CsrAddress::Mstatus.spec_value() == a);
            } else if a == 0x301 {
                assert(CsrAddress::Misa.spec_value() == a);
            } else if a == 0x302 {
                assert(CsrAddress::Medeleg.spec_value() == a);
            } else if a == 0x303 {
                assert(CsrAddress::Mideleg.spec_value() == a);
            } else if a == 0x304 {
                assert(CsrAddress::Mie.spec_value() == a);
            } else if a == 0x305 {
                assert(CsrAddress::Mtvec.spec_value() == a);
            } else if a == 0x306 {
                assert(CsrAddress::Mcounteren.spec_value() == a);
            } else if a == 0x30a {
                assert(CsrAddress::Menvcfg.spec_value() == a);
            } else if a == 0x340 {
                assert(CsrAddress::Mscratch.spec_value() == a);
            } else if a == 0x341 {
                assert(CsrAddress::Mepc.spec_value() == a);
            } else if a == 0x342 {
                assert(CsrAddress::Mcause.spec_value() == a);
            } else {
                assert(CsrAddress::Mip.spec_value() == a);
            }
        } else {
            assert forall|c: CsrAddress| c.spec_value() != a by {
                if c.spec_value() == a {
                    assert(named);
                }
            }
        }
    }
    named
}

/// Every named CSR address is in the legal table.
pub proof fn lemma_named_csr_is_legal(c: CsrAddress)
    ensures
        spec_csr_is_legal(c.spec_value()),
{
}

/// The write-access mask of a legal CSR: all ones for every entry except
/// the physical-memory-protection window, which is read-only.
pub open spec fn spec_csr_mask(a: u16) -> u64 {
    if spec_is_pmp(a) {
        0
    } else {
        0xffff_ffff_ffff_ffffu64
    }
}

/// The write-access mask of a legal CSR.
pub fn csr_mask(a: u16) -> (m: u64)
    ensures
        m == spec_csr_mask(a),
{
    if PMP_FIRST <= a && a <= PMP_LAST {
        0
    } else {
        0xffff_ffff_ffff_ffffu64
    }
}

/// What a CSR write leaves in the bank: bits admitted by the address's
/// write-access mask come from the new value, all others are preserved.
pub open spec fn spec_csr_write(csr: Seq<u64>, a: u16, v: u64) -> Seq<u64> {
    csr.update(a as int, (csr[a as int] & !spec_csr_mask(a)) | (v & spec_csr_mask(a)))
}

/// Writes `v` to the CSR at address `a` through the address's write-access
/// mask.
pub fn csr_write(csr: &mut Vec<u64>, a: u16, v: u64)
    requires
        old(csr)@.len() == CSR_BANK_SIZE,
        a < CSR_BANK_SIZE,
    ensures
        final(csr)@ == spec_csr_write(old(csr)@, a, v),
{
    let m: u64 = csr_mask(a);
    let prev: u64 = csr[a as usize];
    csr[a as usize] = (prev & !m) | (v & m);
}

/// A write through an all-ones mask stores the value exactly; a write
/// through a zero mask preserves the old value exactly.
pub proof fn lemma_csr_mask_extremes(x: u64, v: u64)
    by (bit_vector)
    ensures
        (x & !0xffff_ffff_ffff_ffffu64) | (v & 0xffff_ffff_ffff_ffffu64) == v,
        (x & !0u64) | (v & 0u64) == x,
{
}

/// The MISA reset value: 64-bit (MXL = 2), RV64I base, extensions S and U
/// present.
pub open spec fn spec_misa_default() -> u64 {
    (0b10u64 << 62) | (1u64 << 8) | (1u64 << 18) | (1u64 << 20)
}

/// The CSR bank at reset: every legal address zero except MISA.
pub open spec fn spec_csr_default() -> Seq<u64> {
    Seq::new(
        CSR_BANK_SIZE as nat,
        |i: int|
            if i == CsrAddress::Misa.spec_value() {
                spec_misa_default()
            } else {
                0u64
            },
    )
}

/// Builds the CSR bank at reset.
pub fn default_csr() -> (csr: Vec<u64>)
    ensures
        csr@ == spec_csr_default(),
        csr@.len() == CSR_BANK_SIZE,
{
    let mut csr: Vec<u64> = vec![0u64; CSR_BANK_SIZE];
    let misa: u16 = CsrAddress::Misa.value();
    csr[misa as usize] = (0b10u64 << 62) | (1u64 << 8) | (1u64 << 18) | (1u64 << 20);
    proof {
        assert(csr@ =~= spec_csr_default());
    }
    csr
}

} // verus!
