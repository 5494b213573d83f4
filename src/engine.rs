use vstd::prelude::*;
use vstd::string::StringExecFns;
use crate::common::{colored, RemuState, Word, ANSI_FG_GREEN, ANSI_FG_RED};
use crate::intr::{isa_query_intr, query_intr_spec};
use crate::inst::{exec_post, trapped};
use crate::machine::{access_spec, Emulator, GlobalState};
use crate::csr::CSR_MIP;

verus! {

/// Interrupts are polled once every this many instructions.
pub const INTR_POLL_MASK: u64 = 0x3ff;

/// Little-endian bytes of the built-in probe, the words 00000297 00028823
/// 0102c503 00100073: `auipc t0,0; sb zero,16(t0); lbu a0,16(t0); ebreak`.
pub open spec fn builtin_bytes() -> Seq<u8> {
    seq![
        0x97u8, 0x02, 0x00, 0x00,
        0x23, 0x88, 0x02, 0x00,
        0x03, 0xc5, 0x02, 0x01,
        0x73, 0x00, 0x10, 0x00,
    ]
}

pub fn builtin_image() -> (r: Vec<u8>)
    ensures
        r@ == builtin_bytes(),
{
    let r = vec![
        0x97u8, 0x02, 0x00, 0x00,
        0x23, 0x88, 0x02, 0x00,
        0x03, 0xc5, 0x02, 0x01,
        0x73, 0x00, 0x10, 0x00,
    ];
    assert(r@ =~= builtin_bytes());
    r
}

/// Banner for the end of a run: ABORT, HIT GOOD TRAP (exit code 0) or HIT
/// BAD TRAP.
pub open spec fn trap_text(state: RemuState, halt_ret: i32) -> Seq<char> {
    if state == RemuState::Abort {
        ANSI_FG_RED@ + "ABORT"@ + crate::common::ANSI_RESET@
    } else if halt_ret == 0 {
        ANSI_FG_GREEN@ + "HIT GOOD TRAP"@ + crate::common::ANSI_RESET@
    } else {
        ANSI_FG_RED@ + "HIT BAD TRAP"@ + crate::common::ANSI_RESET@
    }
}

impl Emulator {
    /// Sets the microsecond clock that TIME, the RTC and the CLINT read.
    pub fn set_time(&mut self, now_us: u64)
        requires
            old(self).wf(),
        ensures
            final(self).wf(),
            final(self).now_us == now_us,
            final(self).cpu == old(self).cpu,
            final(self).mem == old(self).mem,
            final(self).state == old(self).state,
    {
        self.now_us = now_us;
    }

    /// Fetches and executes the instruction at `pc`; a fetch fault traps
    /// with the PC as TVAL.
    pub fn isa_exec_once(&mut self, pc: Word)
        requires
            old(self).wf(),
        ensures
            final(self).wf(),
            final(self).cpu.gpr@[0] == 0,
            fetch_post(*old(self), *final(self), pc),
    {
        match self.vaddr_ifetch(pc, 4) {
            Err(c) => self.take_trap(c, pc, pc),
            Ok(inst) => {
                self.traces.log_inst(pc, inst);
                self.decode_exec(inst, pc);
            },
        }
    }

    /// One step: when asked, first takes a pending enabled interrupt (the
    /// instruction then waits); otherwise executes the instruction at PC.
    /// Each step adds one to the step counter.
    pub fn exec_once(&mut self, check_intr: bool)
        requires
            old(self).wf(),
        ensures
            final(self).wf(),
            final(self).cpu.gpr@[0] == 0,
            step(*old(self), *final(self), check_intr),
    {
        let pc = self.cpu.pc;
        if check_intr {
            let clint = self.clint.get_mip_status(self.now_us);
            let intr = isa_query_intr(&self.cpu, clint, self.intr.bits);
            proof {
                let m = self.cpu.csr@[CSR_MIP as int];
                let e = self.intr.bits;
                assert(m | clint | e == m | (clint | e)) by (bit_vector);
            }
            if intr != 0 {
                self.take_trap(intr, pc, 0);
                self.count_step();
                return;
            }
        }
        self.isa_exec_once(pc);
        self.count_step();
    }

    fn count_step(&mut self)
        ensures
            final(self).cpu == old(self).cpu,
            final(self).mem == old(self).mem,
            final(self).state == old(self).state,
            final(self).mmio == old(self).mmio,
            final(self).now_us == old(self).now_us,
            final(self).reset_pc == old(self).reset_pc,
            final(self).traces == old(self).traces,
            final(self).devices_same(old(self)),
    {
        if self.inst_count < u64::MAX {
            self.inst_count = self.inst_count + 1;
        }
    }

    /// Runs up to `n` instructions, stopping early once the run state leaves
    /// Running; returns how many steps were taken. The machine goes through
    /// exactly that many steps, interrupts being polled on every 1024th.
    pub fn execute(&mut self, n: u64) -> (r: u64)
        requires
            old(self).wf(),
        ensures
            final(self).wf(),
            final(self).cpu.gpr@[0] == 0,
            r <= n,
            n > 0 ==> r >= 1,
            r < n ==> final(self).state.state != RemuState::Running,
            runs(*old(self), *final(self), r as nat),
    {
        let mut i: u64 = 0;
        proof {
            lemma_runs_zero(*old(self));
        }
        while i < n
            invariant_except_break
                i > 0 ==> self.state.state == RemuState::Running,
            invariant
                self.wf(),
                i <= n,
                runs(*old(self), *self, i as nat),
            ensures
                i <= n,
                i < n ==> self.state.state != RemuState::Running,
                n > 0 ==> i >= 1,
                runs(*old(self), *self, i as nat),
            decreases n - i,
        {
            let ghost prev = *self;
            self.exec_once((i & INTR_POLL_MASK) == 0);
            proof {
                lemma_runs_extend(*old(self), prev, *self, i as nat);
            }
            i = i + 1;
            if self.state.state != RemuState::Running {
                break;
            }
        }
        i
    }

    /// Starts a run of up to `n` instructions. A machine whose last run ended
    /// in End or Abort refuses (returns `false`, nothing changes); otherwise
    /// the machine, set to Running, goes through a chain of steps as
    /// `execute` states.
    pub fn cpu_exec(&mut self, n: u64) -> (r: bool)
        requires
            old(self).wf(),
        ensures
            final(self).wf(),
            final(self).cpu.gpr@[0] == 0,
            r == !(old(self).state.state == RemuState::End || old(self).state.state == RemuState::Abort),
            !r ==> *final(self) == *old(self),
            r ==> exists|k: nat|
                k <= n && (n > 0 ==> k >= 1) && (k < n ==> final(self).state.state != RemuState::Running)
                    && #[trigger] runs(set_running(*old(self)), *final(self), k),
    {
        let s = self.state.get_state();
        if s == RemuState::End || s == RemuState::Abort {
            return false;
        }
        self.state.set_state(RemuState::Running);
        assert(*self == set_running(*old(self)));
        let k = self.execute(n);
        assert(runs(set_running(*old(self)), *self, k as nat));
        true
    }

    /// After a run that used up its budget, the machine waits (Stop); a run
    /// that ended otherwise keeps its state.
    pub fn end_run(&mut self)
        ensures
            final(self).state.state == (if old(self).state.state == RemuState::Running {
                RemuState::Stop
            } else {
                old(self).state.state
            }),
            final(self).state.halt_pc == old(self).state.halt_pc,
            final(self).state.halt_ret == old(self).state.halt_ret,
            final(self).cpu == old(self).cpu,
            final(self).mem == old(self).mem,
    {
        if self.state.state == RemuState::Running {
            self.state.set_state(RemuState::Stop);
        }
    }

    /// Copies `image` to the reset vector, or the built-in probe when there
    /// is none.
    pub fn load_img(&mut self, image: Option<&Vec<u8>>) -> (r: Result<(), String>)
        requires
            old(self).wf(),
        ensures
            final(self).wf(),
            final(self).cpu == old(self).cpu,
            final(self).state == old(self).state,
            final(self).mem.mbase == old(self).mem.mbase,
            final(self).mem.msize == old(self).mem.msize,
            image is Some ==> r.is_ok() == (image->Some_0@.len() <= 0xffff_ffff && (old(self).mem.covers(
                crate::pmem::Region::Rom,
                old(self).reset_pc,
                image->Some_0@.len() as usize,
            ) || old(self).mem.covers(crate::pmem::Region::Sram, old(self).reset_pc, image->Some_0@.len() as usize)
                || old(self).mem.covers(crate::pmem::Region::Ram, old(self).reset_pc, image->Some_0@.len() as usize))),
            ({
                let m0 = old(self).mem;
                let m1 = final(self).mem;
                let at = old(self).reset_pc;
                image is Some && r is Ok ==> forall|g: crate::pmem::Region|
                    #![auto]
                    m0.covers(g, at, image->Some_0@.len() as usize) ==> m1.bytes_of(g) == m0.bytes_of(g).subrange(
                        0,
                        at - m0.base_of(g),
                    ) + image->Some_0@ + m0.bytes_of(g).subrange(
                        at - m0.base_of(g) + image->Some_0@.len(),
                        m0.size_of(g),
                    )
            }),
            image is Some && r is Err ==> final(self).mem == old(self).mem,
            image is None && old(self).mem.covers(crate::pmem::Region::Ram, old(self).reset_pc, 16)
                ==> r is Ok && final(self).mem.pmem@.subrange(
                old(self).reset_pc - old(self).mem.mbase,
                old(self).reset_pc - old(self).mem.mbase + 16,
            ) == builtin_bytes(),
    {
        match image {
            Some(data) => self.mem.load_image(data, self.reset_pc),
            None => self.copy_builtin_image_to_memory(),
        }
    }

    /// Installs the built-in probe at the reset vector.
    pub fn copy_builtin_image_to_memory(&mut self) -> (r: Result<(), String>)
        requires
            old(self).wf(),
        ensures
            final(self).wf(),
            final(self).cpu == old(self).cpu,
            final(self).state == old(self).state,
            final(self).mem.mbase == old(self).mem.mbase,
            final(self).mem.msize == old(self).mem.msize,
            old(self).mem.covers(crate::pmem::Region::Ram, old(self).reset_pc, 16) ==> r is Ok
                && final(self).mem.pmem@.subrange(
                old(self).reset_pc - old(self).mem.mbase,
                old(self).reset_pc - old(self).mem.mbase + 16,
            ) == builtin_bytes(),
    {
        let bytes = builtin_image();
        let r = self.mem.load_image(&bytes, self.reset_pc);
        proof {
            let m = old(self).mem;
            let off = old(self).reset_pc - m.mbase;
            if m.covers(crate::pmem::Region::Ram, old(self).reset_pc, 16) {
                if m.covers(crate::pmem::Region::Rom, old(self).reset_pc, 16) {
                    assert(false);
                }
                if m.covers(crate::pmem::Region::Sram, old(self).reset_pc, 16) {
                    assert(false);
                }
                let pre = m.pmem@.subrange(0, off as int);
                let post = m.pmem@.subrange(off + 16, m.msize as int);
                assert(self.mem.bytes_of(crate::pmem::Region::Ram) == pre + bytes@ + post);
                assert(self.mem.pmem@.subrange(off as int, off + 16) =~= bytes@);
            }
        }
        r
    }

    /// Records a bad exit status when the run halted with a non-zero code.
    pub fn finish_run(&mut self)
        ensures
            final(self).exit_bad == (old(self).exit_bad || (old(self).state.halt_ret != 0
                && old(self).state.state != RemuState::Abort)),
            final(self).state == old(self).state,
            final(self).cpu == old(self).cpu,
    {
        if self.state.halt_ret != 0 && self.state.state != RemuState::Abort {
            self.set_exit_status_bad();
        }
    }

    pub fn set_exit_status_bad(&mut self)
        ensures
            final(self).exit_bad,
            final(self).state == old(self).state,
            final(self).cpu == old(self).cpu,
    {
        self.exit_bad = true;
    }

    pub fn is_exit_status_bad(&self) -> (r: bool)
        ensures
            r == self.exit_bad,
    {
        self.exit_bad
    }

    /// The end-of-run banner.
    pub fn trap_message(&self) -> (r: String)
        ensures
            r@ == trap_text(self.state.state, self.state.halt_ret),
    {
        proof {
            reveal_strlit("ABORT");
            reveal_strlit("HIT GOOD TRAP");
            reveal_strlit("HIT BAD TRAP");
        }
        if self.state.state == RemuState::Abort {
            colored("ABORT", ANSI_FG_RED)
        } else if self.state.halt_ret == 0 {
            colored("HIT GOOD TRAP", ANSI_FG_GREEN)
        } else {
            colored("HIT BAD TRAP", ANSI_FG_RED)
        }
    }
}

/// Effect of fetching and executing at `pc`: a fetch fault traps with the
/// PC as TVAL; a word fetched from memory is executed as `exec_post` says.
pub open spec fn fetch_post(a: Emulator, b: Emulator, pc: u32) -> bool {
    let f = access_spec(a.cpu, a.mem, pc, 4, 0);
    &&& b.same_devices(&a)
    &&& f is Err ==> trapped(a, b, f->Err_0, pc, pc)
    &&& f is Ok && a.mem.region_spec(f->Ok_0, 4) is Some ==> exec_post(a, b, a.mem.read_spec(f->Ok_0, 4), pc)
}

/// One step of the machine: with `check_intr`, a pending enabled interrupt
/// is taken at the current PC; otherwise the instruction there runs.
pub open spec fn step(a: Emulator, b: Emulator, check_intr: bool) -> bool {
    let irq = query_intr_spec(a.cpu.csr@, a.cpu.mode, a.cpu.csr@[CSR_MIP as int] | a.irq_lines());
    if check_intr && irq != 0 {
        trapped(a, b, irq, a.cpu.pc, 0)
    } else {
        fetch_post(a, b, a.cpu.pc)
    }
}

/// `tr` lists the states of a run of `k` steps from `a` to `b`; step number
/// `j` (from 0) polls interrupts when `j & 0x3ff == 0`, and every state
/// between the first and the last is Running (a run stops as soon as its
/// state leaves Running).
pub open spec fn is_trace(tr: Seq<Emulator>, a: Emulator, b: Emulator, k: nat) -> bool {
    &&& tr.len() == k + 1
    &&& tr[0] == a
    &&& tr[k as int] == b
    &&& forall|j: int| 0 <= j < k ==> step(#[trigger] tr[j], tr[j + 1], ((j as u64) & INTR_POLL_MASK) == 0)
    &&& forall|j: int| 0 < j < k ==> (#[trigger] tr[j]).state.state == RemuState::Running
}

/// `b` follows from `a` by `k` steps.
pub open spec fn runs(a: Emulator, b: Emulator, k: nat) -> bool {
    exists|tr: Seq<Emulator>| #[trigger] is_trace(tr, a, b, k)
}

/// `e` with its run state set to Running.
pub open spec fn set_running(e: Emulator) -> Emulator {
    Emulator { state: GlobalState { state: RemuState::Running, ..e.state }, ..e }
}

/// A run of `k` steps followed by step number `k` is a run of `k + 1`.
pub proof fn lemma_runs_extend(a: Emulator, m: Emulator, b: Emulator, k: nat)
    requires
        k < 0x1_0000_0000_0000_0000,
        runs(a, m, k),
        step(m, b, ((k as u64) & INTR_POLL_MASK) == 0),
        k > 0 ==> m.state.state == RemuState::Running,
    ensures
        runs(a, b, k + 1),
{
    let tr = choose|tr: Seq<Emulator>| is_trace(tr, a, m, k);
    let tr2 = tr.push(b);
    assert forall|j: int| 0 <= j < k + 1 implies step(
        #[trigger] tr2[j],
        tr2[j + 1],
        ((j as u64) & INTR_POLL_MASK) == 0,
    ) by {
        if j < k {
            assert(tr2[j] == tr[j] && tr2[j + 1] == tr[j + 1]);
        } else {
            assert(tr2[j] == m && tr2[j + 1] == b);
        }
    }
    assert forall|j: int| 0 < j < k + 1 implies (#[trigger] tr2[j]).state.state == RemuState::Running by {
        if j < k {
            assert(tr2[j] == tr[j]);
        } else {
            assert(tr2[j] == m);
        }
    }
    assert(is_trace(tr2, a, b, k + 1));
}

/// No steps: the machine is where it started.
pub proof fn lemma_runs_zero(a: Emulator)
    ensures
        runs(a, a, 0),
{
    assert(is_trace(seq![a], a, a, 0));
}

} // verus!
