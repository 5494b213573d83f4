use vstd::prelude::*;
use crate::common::Word;
use crate::state::CpuState;

verus! {

pub const CSR_MTVEC: u16 = 0x305;

pub const CSR_MEPC: u16 = 0x341;

pub const CSR_MCAUSE: u16 = 0x342;

pub const CSR_MIE: u16 = 0x304;

pub const CSR_MIP: u16 = 0x344;

pub const CSR_MTVAL: u16 = 0x343;

pub const CSR_MSCRATCH: u16 = 0x340;

pub const CSR_MSTATUS: u16 = 0x300;

pub const CSR_MISA: u16 = 0x301;

pub const CSR_SSTATUS: u16 = 0x100;

pub const CSR_SEPC: u16 = 0x141;

pub const CSR_SCAUSE: u16 = 0x142;

pub const CSR_SIE: u16 = 0x104;

pub const CSR_SIP: u16 = 0x144;

pub const CSR_STVAL: u16 = 0x143;

pub const CSR_SSCRATCH: u16 = 0x140;

pub const CSR_SATP: u16 = 0x180;

pub const CSR_STVEC: u16 = 0x105;

pub const CSR_MEDELEG: u16 = 0x302;

pub const CSR_MIDELEG: u16 = 0x303;

pub const CSR_TIME: u16 = 0xc01;

pub const CSR_TIMEH: u16 = 0xc81;

/// Bits of MSTATUS visible through SSTATUS.
pub const SSTATUS_MASK: u32 = 0x800D_E162;

/// Bits of MIP writable through SIP (SSIP), before delegation.
pub const SIP_WRITABLE: u32 = 0x2;

/// MSTATUS at reset: MPP = Machine.
pub const MSTATUS_INIT: u32 = 0x1800;

/// MISA at reset: MXL = 1, extensions I, M, A, S.
pub const MISA_INIT: u32 = 0x4004_1101;

/// What a CSR read returns, given the bank, the microsecond clock and the
/// interrupt lines that devices drive into MIP.
pub open spec fn csr_read_spec(csr: Seq<u32>, addr: u16, now_us: u64, irq: u32) -> u32 {
    if addr == CSR_SSTATUS {
        csr[CSR_MSTATUS as int] & SSTATUS_MASK
    } else if addr == CSR_SIE {
        csr[CSR_MIE as int] & csr[CSR_MIDELEG as int]
    } else if addr == CSR_SIP {
        csr[CSR_MIP as int] & csr[CSR_MIDELEG as int]
    } else if addr == CSR_TIME {
        (now_us & 0xffff_ffff) as u32
    } else if addr == CSR_TIMEH {
        (now_us >> 32) as u32
    } else if addr == CSR_MIP {
        csr[CSR_MIP as int] | irq
    } else if addr < 4096 {
        csr[addr as int]
    } else {
        0
    }
}

/// `old` with the bits selected by `mask` taken from `v`.
pub open spec fn merge(old: u32, v: u32, mask: u32) -> u32 {
    (old & !mask) | (v & mask)
}

/// The bank after a CSR write.
pub open spec fn csr_write_spec(csr: Seq<u32>, addr: u16, v: u32) -> Seq<u32> {
    if addr == CSR_SSTATUS {
        csr.update(CSR_MSTATUS as int, merge(csr[CSR_MSTATUS as int], v, SSTATUS_MASK))
    } else if addr == CSR_SIE {
        csr.update(CSR_MIE as int, merge(csr[CSR_MIE as int], v, csr[CSR_MIDELEG as int]))
    } else if addr == CSR_SIP {
        csr.update(
            CSR_MIP as int,
            merge(csr[CSR_MIP as int], v, csr[CSR_MIDELEG as int] & SIP_WRITABLE),
        )
    } else if addr == CSR_TIME || addr == CSR_TIMEH || addr >= 4096 {
        csr
    } else {
        csr.update(addr as int, v)
    }
}

/// The bits of a write to `addr` that a read back shows.
pub open spec fn mask_of(csr: Seq<u32>, addr: u16) -> u32 {
    if addr == CSR_SSTATUS {
        SSTATUS_MASK
    } else if addr == CSR_SIE {
        csr[CSR_MIDELEG as int]
    } else {
        0xffff_ffff
    }
}

/// Reading a CSR right after writing `v` to it yields `mask_of(a) & v`: the
/// alias mask for SSTATUS and SIE, `v` itself for plain registers. TIME and
/// TIMEH ignore writes, SIP reads back every delegated pending bit, and MIP
/// reads back with the device lines, which must then be quiet.
pub proof fn lemma_csr_write_read(csr: Seq<u32>, a: u16, v: u32, now_us: u64, irq: u32)
    requires
        csr.len() == 4096,
        a < 4096,
        a != CSR_TIME && a != CSR_TIMEH && a != CSR_SIP,
        a == CSR_MIP ==> irq == 0,
    ensures
        csr_read_spec(csr_write_spec(csr, a, v), a, now_us, irq) == mask_of(csr, a) & v,
{
    let c2 = csr_write_spec(csr, a, v);
    if a == CSR_SSTATUS {
        let o = csr[CSR_MSTATUS as int];
        assert(((o & !0x800D_E162u32) | (v & 0x800D_E162u32)) & 0x800D_E162u32 == 0x800D_E162u32
            & v) by (bit_vector);
    } else if a == CSR_SIE {
        let o = csr[CSR_MIE as int];
        let d = csr[CSR_MIDELEG as int];
        assert(((o & !d) | (v & d)) & d == d & v) by (bit_vector);
    } else if a == CSR_MIP {
        assert((v | 0u32) == 0xffff_ffffu32 & v) by (bit_vector);
    } else {
        assert(v == 0xffff_ffffu32 & v) by (bit_vector);
    }
}

/// Reads a CSR through the alias and hook layer.
pub fn isa_csr_read(cpu: &CpuState, addr: u16, now_us: u64, irq: u32) -> (r: Word)
    requires
        cpu.wf(),
    ensures
        r == csr_read_spec(cpu.csr@, addr, now_us, irq),
{
    if addr == CSR_SSTATUS {
        cpu.csr[CSR_MSTATUS as usize] & SSTATUS_MASK
    } else if addr == CSR_SIE {
        cpu.csr[CSR_MIE as usize] & cpu.csr[CSR_MIDELEG as usize]
    } else if addr == CSR_SIP {
        cpu.csr[CSR_MIP as usize] & cpu.csr[CSR_MIDELEG as usize]
    } else if addr == CSR_TIME {
        (now_us & 0xffff_ffff) as u32
    } else if addr == CSR_TIMEH {
        (now_us >> 32) as u32
    } else if addr == CSR_MIP {
        cpu.csr[CSR_MIP as usize] | irq
    } else if addr < 4096 {
        cpu.csr[addr as usize]
    } else {
        0
    }
}

/// Writes a CSR through the alias layer.
pub fn isa_csr_write(cpu: &mut CpuState, addr: u16, data: Word)
    requires
        old(cpu).wf(),
    ensures
        final(cpu).wf(),
        final(cpu).csr@ == csr_write_spec(old(cpu).csr@, addr, data),
        final(cpu).gpr == old(cpu).gpr,
        final(cpu).pc == old(cpu).pc,
        final(cpu).mode == old(cpu).mode,
        final(cpu).reservation == old(cpu).reservation,
{
    if addr == CSR_SSTATUS {
        let old_v = cpu.csr[CSR_MSTATUS as usize];
        cpu.set_csr(CSR_MSTATUS, (old_v & !SSTATUS_MASK) | (data & SSTATUS_MASK));
    } else if addr == CSR_SIE {
        let mask = cpu.csr[CSR_MIDELEG as usize];
        let old_v = cpu.csr[CSR_MIE as usize];
        cpu.set_csr(CSR_MIE, (old_v & !mask) | (data & mask));
    } else if addr == CSR_SIP {
        let mask = cpu.csr[CSR_MIDELEG as usize] & SIP_WRITABLE;
        let old_v = cpu.csr[CSR_MIP as usize];
        cpu.set_csr(CSR_MIP, (old_v & !mask) | (data & mask));
    } else if addr == CSR_TIME || addr == CSR_TIMEH || addr >= 4096 {
    } else {
        cpu.set_csr(addr, data);
    }
}

} // verus!
