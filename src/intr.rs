use vstd::prelude::*;
use crate::common::{mode_bits, PrivMode, Word};
use crate::csr::{
    CSR_MCAUSE, CSR_MEDELEG, CSR_MEPC, CSR_MIDELEG, CSR_MIE, CSR_MIP, CSR_MSTATUS, CSR_MTVAL, CSR_MTVEC,
    CSR_SCAUSE, CSR_SEPC, CSR_STVAL, CSR_STVEC,
};
use crate::state::CpuState;

verus! {

pub const INTR_BIT: u32 = 0x8000_0000;

/// Highest-priority enabled interrupt cause (with bit 31 set), or 0.
/// `pending` is MIP together with the lines that devices drive.
pub open spec fn query_intr_spec(csr: Seq<u32>, mode: PrivMode, pending: u32) -> u32 {
    let mstatus = csr[CSR_MSTATUS as int];
    let mie = csr[CSR_MIE as int];
    let mideleg = csr[CSR_MIDELEG as int];
    let m_en = mode != PrivMode::Machine || (mstatus >> 3) & 1 == 1;
    let s_en = mode == PrivMode::User || (mode == PrivMode::Supervisor && (mstatus >> 1) & 1 == 1);
    let mp = pending & mie & !mideleg;
    let sp = pending & mie & mideleg;
    if m_en && mp & 0x800 != 0 {
        INTR_BIT | 11
    } else if m_en && mp & 0x80 != 0 {
        INTR_BIT | 7
    } else if m_en && mp & 0x8 != 0 {
        INTR_BIT | 3
    } else if s_en && sp & 0x200 != 0 {
        INTR_BIT | 9
    } else if s_en && sp & 0x20 != 0 {
        INTR_BIT | 5
    } else if s_en && sp & 0x2 != 0 {
        INTR_BIT | 1
    } else {
        0
    }
}

/// Computes the interrupt to take now, if any (0 when none).
pub fn isa_query_intr(cpu: &CpuState, clint_mip: u32, ext_mip: u32) -> (r: Word)
    requires
        cpu.wf(),
    ensures
        r == query_intr_spec(cpu.csr@, cpu.mode, cpu.csr@[CSR_MIP as int] | clint_mip | ext_mip),
{
    let mstatus = cpu.csr[CSR_MSTATUS as usize];
    let mie = cpu.csr[CSR_MIE as usize];
    let mideleg = cpu.csr[CSR_MIDELEG as usize];
    let pending = cpu.csr[CSR_MIP as usize] | clint_mip | ext_mip;
    let m_en = cpu.mode != PrivMode::Machine || (mstatus >> 3) & 1 == 1;
    let s_en = cpu.mode == PrivMode::User || (cpu.mode == PrivMode::Supervisor && (mstatus >> 1)
        & 1 == 1);
    let mp = pending & mie & !mideleg;
    let sp = pending & mie & mideleg;
    if m_en && mp & 0x800 != 0 {
        INTR_BIT | 11
    } else if m_en && mp & 0x80 != 0 {
        INTR_BIT | 7
    } else if m_en && mp & 0x8 != 0 {
        INTR_BIT | 3
    } else if s_en && sp & 0x200 != 0 {
        INTR_BIT | 9
    } else if s_en && sp & 0x20 != 0 {
        INTR_BIT | 5
    } else if s_en && sp & 0x2 != 0 {
        INTR_BIT | 1
    } else {
        0
    }
}

/// A trap with this cause, taken in `mode`, goes to S-mode.
pub open spec fn delegated(csr: Seq<u32>, mode: PrivMode, no: u32) -> bool {
    let code = no & 0x7fff_ffff;
    let deleg = if no & INTR_BIT != 0 {
        csr[CSR_MIDELEG as int]
    } else {
        csr[CSR_MEDELEG as int]
    };
    mode != PrivMode::Machine && code < 32 && (deleg >> code) & 1 == 1
}

/// MSTATUS after entering S-mode: SPIE <- SIE, SIE <- 0, SPP <- mode.
pub open spec fn mstatus_s_trap(ms: u32, mode: PrivMode) -> u32 {
    (ms & !0x122u32) | (((ms >> 1) & 1) << 5) | (mode_bits(mode) << 8)
}

/// MSTATUS after entering M-mode: MPIE <- MIE, MIE <- 0, MPP <- mode.
pub open spec fn mstatus_m_trap(ms: u32, mode: PrivMode) -> u32 {
    (ms & !0x1888u32) | (((ms >> 3) & 1) << 7) | (mode_bits(mode) << 11)
}

/// The CSR bank after a trap.
pub open spec fn trap_csrs(csr: Seq<u32>, mode: PrivMode, no: u32, epc: u32, tval: u32) -> Seq<u32> {
    if delegated(csr, mode, no) {
        csr.update(CSR_SCAUSE as int, no).update(CSR_SEPC as int, epc).update(
            CSR_STVAL as int,
            tval,
        ).update(CSR_MSTATUS as int, mstatus_s_trap(csr[CSR_MSTATUS as int], mode))
    } else {
        csr.update(CSR_MCAUSE as int, no).update(CSR_MEPC as int, epc).update(
            CSR_MTVAL as int,
            tval,
        ).update(CSR_MSTATUS as int, mstatus_m_trap(csr[CSR_MSTATUS as int], mode))
    }
}

/// Takes a trap: records cause, EPC and TVAL on the chosen side, updates
/// MSTATUS and the mode, and returns the handler address.
pub fn isa_raise_intr(cpu: &mut CpuState, no: Word, epc: Word, tval: Word) -> (r: Word)
    requires
        old(cpu).wf(),
    ensures
        final(cpu).wf(),
        final(cpu).csr@ == trap_csrs(old(cpu).csr@, old(cpu).mode, no, epc, tval),
        final(cpu).mode == (if delegated(old(cpu).csr@, old(cpu).mode, no) {
            PrivMode::Supervisor
        } else {
            PrivMode::Machine
        }),
        r == (if delegated(old(cpu).csr@, old(cpu).mode, no) {
            old(cpu).csr@[CSR_STVEC as int]
        } else {
            old(cpu).csr@[CSR_MTVEC as int]
        }),
        final(cpu).gpr == old(cpu).gpr,
        final(cpu).pc == old(cpu).pc,
        final(cpu).reservation == old(cpu).reservation,
{
    let is_intr = (no & INTR_BIT) != 0;
    let code = no & 0x7fff_ffff;
    let deleg_reg = if is_intr {
        cpu.csr[CSR_MIDELEG as usize]
    } else {
        cpu.csr[CSR_MEDELEG as usize]
    };
    let delegate_to_s = cpu.mode != PrivMode::Machine && code < 32 && (deleg_reg >> code) & 1
        == 1;
    let mode = cpu.mode.bits();
    let mstatus = cpu.csr[CSR_MSTATUS as usize];
    cpu.is_exception = true;
    if delegate_to_s {
        cpu.set_csr(CSR_SCAUSE, no);
        cpu.set_csr(CSR_SEPC, epc);
        cpu.set_csr(CSR_STVAL, tval);
        cpu.set_csr(CSR_MSTATUS, (mstatus & !0x122u32) | (((mstatus >> 1) & 1) << 5) | (mode << 8));
        cpu.mode = PrivMode::Supervisor;
        cpu.csr[CSR_STVEC as usize]
    } else {
        cpu.set_csr(CSR_MCAUSE, no);
        cpu.set_csr(CSR_MEPC, epc);
        cpu.set_csr(CSR_MTVAL, tval);
        cpu.set_csr(
            CSR_MSTATUS,
            (mstatus & !0x1888u32) | (((mstatus >> 3) & 1) << 7) | (mode << 11),
        );
        cpu.mode = PrivMode::Machine;
        cpu.csr[CSR_MTVEC as usize]
    }
}

/// The mode that a two-bit previous-privilege field names (2 reads as User).
pub open spec fn mode_of_bits(b: u32) -> PrivMode {
    if b == 3 {
        PrivMode::Machine
    } else if b == 1 {
        PrivMode::Supervisor
    } else {
        PrivMode::User
    }
}

/// MSTATUS after MRET: MIE <- MPIE, MPIE <- 1, MPP <- User.
pub open spec fn mstatus_mret(ms: u32) -> u32 {
    (((ms & !0x8u32) | (((ms >> 7) & 1) << 3)) | 0x80) & !0x1800u32
}

/// MSTATUS after SRET: SIE <- SPIE, SPIE <- 1, SPP <- User.
pub open spec fn mstatus_sret(ms: u32) -> u32 {
    (((ms & !0x2u32) | (((ms >> 5) & 1) << 1)) | 0x20) & !0x100u32
}

/// Returns from an M-mode trap handler.
pub fn isa_mret(cpu: &mut CpuState)
    requires
        old(cpu).wf(),
    ensures
        final(cpu).wf(),
        final(cpu).csr@ == old(cpu).csr@.update(
            CSR_MSTATUS as int,
            mstatus_mret(old(cpu).csr@[CSR_MSTATUS as int]),
        ),
        final(cpu).mode == mode_of_bits((old(cpu).csr@[CSR_MSTATUS as int] >> 11) & 3),
        final(cpu).pc == old(cpu).csr@[CSR_MEPC as int],
        final(cpu).gpr == old(cpu).gpr,
        final(cpu).reservation == old(cpu).reservation,
{
    let ms = cpu.csr[CSR_MSTATUS as usize];
    let mpp = (ms >> 11) & 3;
    let mepc = cpu.csr[CSR_MEPC as usize];
    cpu.set_csr(CSR_MSTATUS, (((ms & !0x8u32) | (((ms >> 7) & 1) << 3)) | 0x80) & !0x1800u32);
    cpu.mode = if mpp == 3 {
        PrivMode::Machine
    } else if mpp == 1 {
        PrivMode::Supervisor
    } else {
        PrivMode::User
    };
    cpu.pc = mepc;
}

/// Returns from an S-mode trap handler (SPP is a single bit).
pub fn isa_sret(cpu: &mut CpuState)
    requires
        old(cpu).wf(),
    ensures
        final(cpu).wf(),
        final(cpu).csr@ == old(cpu).csr@.update(
            CSR_MSTATUS as int,
            mstatus_sret(old(cpu).csr@[CSR_MSTATUS as int]),
        ),
        final(cpu).mode == (if (old(cpu).csr@[CSR_MSTATUS as int] >> 8) & 1 == 1 {
            PrivMode::Supervisor
        } else {
            PrivMode::User
        }),
        final(cpu).pc == old(cpu).csr@[CSR_SEPC as int],
        final(cpu).gpr == old(cpu).gpr,
        final(cpu).reservation == old(cpu).reservation,
{
    let ms = cpu.csr[CSR_MSTATUS as usize];
    let spp = (ms >> 8) & 1;
    let sepc = cpu.csr[CSR_SEPC as usize];
    cpu.set_csr(CSR_MSTATUS, (((ms & !0x2u32) | (((ms >> 5) & 1) << 1)) | 0x20) & !0x100u32);
    cpu.mode = if spp == 1 {
        PrivMode::Supervisor
    } else {
        PrivMode::User
    };
    cpu.pc = sepc;
}

/// A trap followed by the matching return restores the mode, resumes at the
/// trapping PC, and gives back the interrupt-enable bit of the side that took
/// the trap.
pub proof fn lemma_trap_return(csr: Seq<u32>, mode: PrivMode, no: u32, epc: u32, tval: u32)
    requires
        csr.len() == 4096,
    ensures
        ({
            let c1 = trap_csrs(csr, mode, no, epc, tval);
            let ms0 = csr[CSR_MSTATUS as int];
            let ms1 = c1[CSR_MSTATUS as int];
            if delegated(csr, mode, no) {
                &&& (if (ms1 >> 8) & 1 == 1 { PrivMode::Supervisor } else { PrivMode::User }) == mode
                &&& c1[CSR_SEPC as int] == epc
                &&& (mstatus_sret(ms1) >> 1) & 1 == (ms0 >> 1) & 1
            } else {
                &&& mode_of_bits((ms1 >> 11) & 3) == mode
                &&& c1[CSR_MEPC as int] == epc
                &&& (mstatus_mret(ms1) >> 3) & 1 == (ms0 >> 3) & 1
            }
        }),
{
    let ms0 = csr[CSR_MSTATUS as int];
    let mb = mode_bits(mode);
    if delegated(csr, mode, no) {
        assert(mb <= 1);
        let ms1 = mstatus_s_trap(ms0, mode);
        let ms2 = mstatus_sret(ms1);
        assert((ms1 >> 8) & 1 == mb && (ms2 >> 1) & 1 == (ms0 >> 1) & 1) by (bit_vector)
            requires
                mb <= 1,
                ms1 == (ms0 & !0x122u32) | (((ms0 >> 1) & 1) << 5) | (mb << 8),
                ms2 == (((ms1 & !0x2u32) | (((ms1 >> 5) & 1) << 1)) | 0x20) & !0x100u32,
        ;
    } else {
        assert(mb <= 3);
        let ms1 = mstatus_m_trap(ms0, mode);
        let ms2 = mstatus_mret(ms1);
        assert((ms1 >> 11) & 3 == mb && (ms2 >> 3) & 1 == (ms0 >> 3) & 1) by (bit_vector)
            requires
                mb <= 3,
                ms1 == (ms0 & !0x1888u32) | (((ms0 >> 3) & 1) << 7) | (mb << 11),
                ms2 == (((ms1 & !0x8u32) | (((ms1 >> 7) & 1) << 3)) | 0x80) & !0x1800u32,
        ;
    }
}

} // verus!
