use vstd::prelude::*;
use crate::common::{PrivMode, Word};
use crate::config::{reset_vector, RuntimeConfig};
use crate::csr::{CSR_MISA, CSR_MSTATUS, MISA_INIT, MSTATUS_INIT};

verus! {

/// A cached Sv32 translation: virtual and physical page numbers.
#[derive(Clone, Copy, Debug)]
pub struct TLBEntry {
    pub vpn: u32,
    pub ppn: u32,
    pub valid: bool,
}

impl Default for TLBEntry {
    fn default() -> (r: Self)
        ensures
            r.vpn == 0 && r.ppn == 0 && !r.valid,
    {
        TLBEntry { vpn: 0, ppn: 0, valid: false }
    }
}

/// Architectural state of the hart.
pub struct CpuState {
    pub pc: u32,
    pub gpr: Vec<Word>,
    pub csr: Vec<Word>,
    pub mode: PrivMode,
    pub reservation: Option<u32>,
    pub is_exception: bool,
    pub exception_entry: u32,
}

/// Value of register `i` as instructions read it.
pub open spec fn reg(gpr: Seq<u32>, i: int) -> u32 {
    if i == 0 {
        0
    } else {
        gpr[i]
    }
}

impl CpuState {
    /// 32 registers with x0 holding zero, and 4096 CSR slots.
    pub open spec fn wf(&self) -> bool {
        &&& self.gpr@.len() == 32
        &&& self.csr@.len() == 4096
        &&& self.gpr@[0] == 0
    }

    pub fn new() -> (r: Self)
        ensures
            r.wf(),
            r.pc == 0,
            r.mode == PrivMode::Machine,
            forall|i: int| 0 <= i < 32 ==> r.gpr@[i] == 0,
            forall|i: int| 0 <= i < 4096 ==> r.csr@[i] == 0,
            r.reservation.is_none(),
            !r.is_exception,
            r.exception_entry == 0,
    {
        CpuState {
            pc: 0,
            gpr: vec![0u32; 32],
            csr: vec![0u32; 4096],
            mode: PrivMode::Machine,
            reservation: None,
            is_exception: false,
            exception_entry: 0,
        }
    }

    /// Reset: PC at the reset vector, registers cleared, Machine mode.
    pub fn init(&mut self, cfg: &RuntimeConfig)
        requires
            old(self).wf(),
            cfg.wf(),
        ensures
            final(self).wf(),
            final(self).pc as int == cfg.mbase as int + cfg.pc_reset_offset as int,
            forall|i: int| 0 <= i < 32 ==> final(self).gpr@[i] == 0,
            final(self).csr@ == old(self).csr@.update(CSR_MSTATUS as int, MSTATUS_INIT).update(
                CSR_MISA as int,
                MISA_INIT,
            ),
            final(self).mode == PrivMode::Machine,
            final(self).reservation.is_none(),
    {
        self.pc = reset_vector(cfg);
        self.gpr = vec![0u32; 32];
        self.init_csr();
        self.mode = PrivMode::Machine;
        self.reservation = None;
    }

    /// MSTATUS with MPP = Machine; MISA with MXL = 1 and I, M, A, S.
    pub fn init_csr(&mut self)
        requires
            old(self).wf(),
        ensures
            final(self).wf(),
            final(self).gpr == old(self).gpr,
            final(self).pc == old(self).pc,
            final(self).mode == old(self).mode,
            final(self).reservation == old(self).reservation,
            final(self).csr@ == old(self).csr@.update(CSR_MSTATUS as int, MSTATUS_INIT).update(
                CSR_MISA as int,
                MISA_INIT,
            ),
    {
        self.csr.set(CSR_MSTATUS as usize, MSTATUS_INIT);
        self.csr.set(CSR_MISA as usize, MISA_INIT);
    }

    pub fn get_gpr(&self, idx: usize) -> (r: Word)
        requires
            self.wf(),
            idx < 32,
        ensures
            r == reg(self.gpr@, idx as int),
    {
        if idx == 0 {
            0
        } else {
            self.gpr[idx]
        }
    }

    /// Writes a register; writes to x0 are dropped.
    pub fn set_gpr(&mut self, idx: usize, val: Word)
        requires
            old(self).wf(),
            idx < 32,
        ensures
            final(self).wf(),
            final(self).gpr@ == (if idx == 0 {
                old(self).gpr@
            } else {
                old(self).gpr@.update(idx as int, val)
            }),
            final(self).csr == old(self).csr,
            final(self).pc == old(self).pc,
            final(self).mode == old(self).mode,
            final(self).reservation == old(self).reservation,
    {
        if idx != 0 {
            self.gpr.set(idx, val);
        }
    }

    /// Raw CSR slot, bypassing aliases.
    pub fn get_csr(&self, addr: u16) -> (r: Word)
        requires
            self.wf(),
            addr < 4096,
        ensures
            r == self.csr@[addr as int],
    {
        self.csr[addr as usize]
    }

    /// Raw CSR slot write, bypassing aliases.
    pub fn set_csr(&mut self, addr: u16, val: Word)
        requires
            old(self).wf(),
            addr < 4096,
        ensures
            final(self).wf(),
            final(self).csr@ == old(self).csr@.update(addr as int, val),
            final(self).gpr == old(self).gpr,
            final(self).pc == old(self).pc,
            final(self).mode == old(self).mode,
            final(self).reservation == old(self).reservation,
    {
        self.csr.set(addr as usize, val);
    }
}

} // verus!
