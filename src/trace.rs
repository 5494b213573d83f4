use vstd::prelude::*;
use crate::common::{PAddr, VAddr, Word};
use crate::device::DeviceKind;
use crate::ringbuffer::{keep_last, RingBuffer};

verus! {

/// One executed instruction.
#[derive(Clone, Copy, Debug)]
pub struct ItraceEntry {
    pub pc: Word,
    pub inst: Word,
}

/// One physical memory access.
#[derive(Clone, Copy, Debug)]
pub struct MTraceEntry {
    pub addr: PAddr,
    pub len: usize,
    pub data: Word,
    pub is_write: bool,
}

/// One device access.
#[derive(Clone, Copy, Debug)]
pub struct DTraceEntry {
    pub addr: PAddr,
    pub len: usize,
    pub data: Word,
    pub is_write: bool,
    pub device: DeviceKind,
}

/// One trap taken.
#[derive(Clone, Copy, Debug)]
pub struct IntrTraceEntry {
    pub cause: Word,
    pub epc: Word,
    pub is_intr: bool,
}

/// One page walk.
#[derive(Clone, Copy, Debug)]
pub struct MmuTraceEntry {
    pub vaddr: VAddr,
    pub paddr: PAddr,
    pub type_: i32,
    pub success: bool,
}

/// One environment call.
#[derive(Clone, Copy, Debug)]
pub struct EcallTraceEntry {
    pub pc: Word,
    pub cause: Word,
    pub mode: u8,
}

/// One call or return, with the index of the symbol it resolved to.
#[derive(Clone, Copy, Debug)]
pub struct FTraceEntry {
    pub pc: VAddr,
    pub target: VAddr,
    pub is_call: bool,
    pub call_depth: usize,
    pub symbol: Option<usize>,
}

/// A function symbol: name, start address and size.
#[derive(Clone, Debug)]
pub struct Symbol {
    pub name: String,
    pub addr: VAddr,
    pub size: u32,
}

/// ELF symbol-table type of a function.
pub const STT_FUNC: u8 = 2;

/// Symbol table of an ELF image as `(value, size, type, name)`, or `None`
/// when the image does not parse.
pub uninterp spec fn elf_symbols_of(b: Seq<u8>) -> Option<Seq<(u32, u32, u8, Option<Seq<char>>)>>;

/// Relies on goblin::elf::Elf::parse and its symbol and string tables: the
/// symbols of the image, each with its value, size, type and name.
#[verifier::external_body]
fn elf_symbols(bytes: &Vec<u8>) -> (r: Option<Vec<(u32, u32, u8, Option<String>)>>)
    ensures
        r.deep_view() == elf_symbols_of(bytes@),
{
    match goblin::elf::Elf::parse(bytes) {
        Ok(elf) => Some(
            elf.syms.iter().map(
                |s| (s.st_value as u32, s.st_size as u32, s.st_type(), elf.strtab.get_at(s.st_name).map(|n| n.to_string())),
            ).collect(),
        ),
        Err(_) => None,
    }
}

pub open spec fn sym_view(s: Symbol) -> (Seq<char>, u32, u32) {
    (s.name@, s.addr, s.size)
}

/// Where a symbol at `addr` goes in `s` (searching from `i`): before the
/// first symbol with a higher address, so ties keep their loading order.
pub open spec fn insert_pos(s: Seq<(Seq<char>, u32, u32)>, addr: u32, i: int) -> int
    decreases s.len() - i,
{
    if i < 0 || i >= s.len() {
        s.len() as int
    } else if s[i].1 > addr {
        i
    } else {
        insert_pos(s, addr, i + 1)
    }
}

/// `s` with `x` put in address order.
pub open spec fn insert_sorted(s: Seq<(Seq<char>, u32, u32)>, x: (Seq<char>, u32, u32)) -> Seq<(Seq<char>, u32, u32)> {
    s.insert(insert_pos(s, x.1, 0), x)
}

/// `base` with the named function symbols of a table added in address
/// order.
pub open spec fn load_syms(base: Seq<(Seq<char>, u32, u32)>, t: Seq<(u32, u32, u8, Option<Seq<char>>)>) -> Seq<(Seq<char>, u32, u32)>
    decreases t.len(),
{
    if t.len() == 0 {
        base
    } else {
        let e = t.last();
        let rest = load_syms(base, t.drop_last());
        if e.2 == STT_FUNC && e.3.is_some() {
            insert_sorted(rest, (e.3.unwrap(), e.0, e.1))
        } else {
            rest
        }
    }
}

pub open spec fn sym_covers(s: (Seq<char>, u32, u32), addr: u32) -> bool {
    s.1 <= addr && (addr as int) < s.1 as int + s.2 as int
}

/// Function tracer: symbol table, call depth and a ring of calls/returns.
pub struct FTrace {
    pub symbols: Vec<Symbol>,
    pub call_depth: usize,
    pub buf: RingBuffer<FTraceEntry>,
}

impl FTrace {
    pub open spec fn syms(&self) -> Seq<(Seq<char>, u32, u32)> {
        self.symbols@.map_values(|s: Symbol| sym_view(s))
    }

    pub fn new(capacity: usize) -> (r: Self)
        ensures
            r.buf.wf(),
            r.buf@.len() == 0,
            r.buf.cap() == capacity,
            r.symbols@.len() == 0,
            r.call_depth == 0,
    {
        FTrace { symbols: Vec::new(), call_depth: 0, buf: RingBuffer::new(capacity) }
    }

    /// Adds the named function symbols of an ELF symbol table, keeping the
    /// symbols in ascending address order.
    pub fn load_symbols(&mut self, table: &Vec<(u32, u32, u8, Option<String>)>)
        ensures
            final(self).syms() == load_syms(old(self).syms(), table.deep_view()),
            final(self).call_depth == old(self).call_depth,
            final(self).buf == old(self).buf,
    {
        let mut i: usize = 0;
        while i < table.len()
            invariant
                i <= table@.len(),
                self.syms() == load_syms(old(self).syms(), table.deep_view().subrange(0, i as int)),
                self.call_depth == old(self).call_depth,
                self.buf == old(self).buf,
            decreases table@.len() - i,
        {
            let ghost before = self.syms();
            let e = &table[i];
            proof {
                assert(table.deep_view().subrange(0, i + 1).drop_last() =~= table.deep_view().subrange(0, i as int));
                assert(table.deep_view().subrange(0, i + 1).last() == table.deep_view()[i as int]);
                assert(table.deep_view()[i as int] == table@[i as int].deep_view());
            }
            if e.2 == STT_FUNC {
                match &e.3 {
                    Some(name) => {
                        let addr = e.0;
                        let mut j: usize = 0;
                        while j < self.symbols.len() && self.symbols[j].addr <= addr
                            invariant
                                j <= self.symbols@.len(),
                                self.syms() == before,
                                insert_pos(before, addr, 0) == insert_pos(before, addr, j as int),
                            decreases self.symbols@.len() - j,
                        {
                            assert(before[j as int] == sym_view(self.symbols@[j as int]));
                            j = j + 1;
                        }
                        proof {
                            if j < self.symbols@.len() {
                                assert(before[j as int] == sym_view(self.symbols@[j as int]));
                            }
                        }
                        let sym = Symbol { name: name.clone(), addr, size: e.1 };
                        self.symbols.insert(j, sym);
                        assert(self.syms() =~= before.insert(j as int, (name@, e.0, e.1)));
                    },
                    None => {},
                }
            }
            i = i + 1;
        }
        assert(table.deep_view().subrange(0, table@.len() as int) =~= table.deep_view());
    }

    /// Reads the function symbols of an ELF image; `false` when it does not parse.
    pub fn load_elf(&mut self, bytes: &Vec<u8>) -> (r: bool)
        ensures
            r == elf_symbols_of(bytes@).is_some(),
            r ==> final(self).syms() == load_syms(old(self).syms(), elf_symbols_of(bytes@).unwrap()),
            !r ==> final(self).syms() == old(self).syms(),
            final(self).call_depth == old(self).call_depth,
            final(self).buf == old(self).buf,
    {
        match elf_symbols(bytes) {
            Some(table) => {
                self.load_symbols(&table);
                true
            },
            None => false,
        }
    }

    /// Index of the first symbol whose range holds `addr`.
    pub fn find_symbol(&self, addr: VAddr) -> (r: Option<usize>)
        ensures
            r == first_cover(self.syms(), addr, 0),
    {
        let mut i: usize = 0;
        while i < self.symbols.len()
            invariant
                i <= self.symbols@.len(),
                first_cover(self.syms(), addr, 0) == first_cover(self.syms(), addr, i as int),
            decreases self.symbols@.len() - i,
        {
            let s = &self.symbols[i];
            assert(self.syms()[i as int] == sym_view(*s));
            if addr >= s.addr && (addr as u64) < s.addr as u64 + s.size as u64 {
                return Some(i);
            }
            i = i + 1;
        }
        None
    }

    /// Records a call to `target` and deepens the call depth.
    pub fn trace_call(&mut self, pc: VAddr, target: VAddr)
        requires
            old(self).buf.wf(),
        ensures
            final(self).buf.wf(),
            final(self).buf.cap() == old(self).buf.cap(),
            final(self).symbols == old(self).symbols,
            final(self).call_depth == (if old(self).call_depth < usize::MAX {
                (old(self).call_depth + 1) as usize
            } else {
                old(self).call_depth
            }),
            final(self).buf@ == keep_last(
                old(self).buf@.push(
                    FTraceEntry {
                        pc,
                        target,
                        is_call: true,
                        call_depth: old(self).call_depth,
                        symbol: first_cover(old(self).syms(), target, 0),
                    },
                ),
                old(self).buf.cap(),
            ),
    {
        let symbol = self.find_symbol(target);
        let e = FTraceEntry { pc, target, is_call: true, call_depth: self.call_depth, symbol };
        self.buf.push(e);
        if self.call_depth < usize::MAX {
            self.call_depth = self.call_depth + 1;
        }
    }

    /// Records a return from the function holding `pc`; the depth goes back
    /// up one level first.
    pub fn trace_ret(&mut self, pc: VAddr)
        requires
            old(self).buf.wf(),
        ensures
            final(self).buf.wf(),
            final(self).buf.cap() == old(self).buf.cap(),
            final(self).symbols == old(self).symbols,
            final(self).call_depth == (if old(self).call_depth > 0 {
                (old(self).call_depth - 1) as usize
            } else {
                0usize
            }),
            final(self).buf@ == keep_last(
                old(self).buf@.push(
                    FTraceEntry {
                        pc,
                        target: 0,
                        is_call: false,
                        call_depth: final(self).call_depth,
                        symbol: first_cover(old(self).syms(), pc, 0),
                    },
                ),
                old(self).buf.cap(),
            ),
    {
        if self.call_depth > 0 {
            self.call_depth = self.call_depth - 1;
        }
        let symbol = self.find_symbol(pc);
        let e = FTraceEntry { pc, target: 0, is_call: false, call_depth: self.call_depth, symbol };
        self.buf.push(e);
    }
}

/// Index of the first symbol at or after `i` whose range holds `addr`.
pub open spec fn first_cover(s: Seq<(Seq<char>, u32, u32)>, addr: u32, i: int) -> Option<usize>
    decreases s.len() - i,
{
    if i < 0 || i >= s.len() {
        None
    } else if sym_covers(s[i], addr) {
        Some(i as usize)
    } else {
        first_cover(s, addr, i + 1)
    }
}

/// Capacity of each trace channel when tracing is on.
pub const TRACE_RINGBUF: usize = 32;

/// Capacity of the function trace when tracing is on.
pub const FTRACE_RINGBUF: usize = 1024;

/// All trace channels; with tracing off every capacity is 0 and pushes keep
/// nothing.
pub struct Traces {
    pub enabled: bool,
    pub itrace: RingBuffer<ItraceEntry>,
    pub mtrace: RingBuffer<MTraceEntry>,
    pub dtrace: RingBuffer<DTraceEntry>,
    pub intr: RingBuffer<IntrTraceEntry>,
    pub mmu: RingBuffer<MmuTraceEntry>,
    pub ecall: RingBuffer<EcallTraceEntry>,
    pub ftrace: FTrace,
}

impl Traces {
    pub open spec fn wf(&self) -> bool {
        &&& self.itrace.wf()
        &&& self.mtrace.wf()
        &&& self.dtrace.wf()
        &&& self.intr.wf()
        &&& self.mmu.wf()
        &&& self.ecall.wf()
        &&& self.ftrace.buf.wf()
    }

    pub fn new(enabled: bool) -> (r: Self)
        ensures
            r.wf(),
            r.enabled == enabled,
            r.itrace@.len() == 0 && r.intr@.len() == 0 && r.ftrace.buf@.len() == 0,
            r.itrace.cap() == (if enabled { TRACE_RINGBUF } else { 0 }),
            r.intr.cap() == (if enabled { TRACE_RINGBUF } else { 0 }),
            r.ecall.cap() == (if enabled { TRACE_RINGBUF } else { 0 }),
            r.ftrace.buf.cap() == (if enabled { FTRACE_RINGBUF } else { 0 }),
    {
        let n: usize = if enabled { TRACE_RINGBUF } else { 0 };
        let f: usize = if enabled { FTRACE_RINGBUF } else { 0 };
        Traces {
            enabled,
            itrace: RingBuffer::new(n),
            mtrace: RingBuffer::new(n),
            dtrace: RingBuffer::new(n),
            intr: RingBuffer::new(n),
            mmu: RingBuffer::new(n),
            ecall: RingBuffer::new(n),
            ftrace: FTrace::new(f),
        }
    }

    pub fn log_inst(&mut self, pc: Word, inst: Word)
        requires
            old(self).wf(),
        ensures
            final(self).wf(),
            final(self).itrace@ == keep_last(old(self).itrace@.push(ItraceEntry { pc, inst }), old(self).itrace.cap()),
    {
        self.itrace.push(ItraceEntry { pc, inst });
    }

    pub fn trace_read(&mut self, addr: PAddr, len: usize, data: Word)
        requires
            old(self).wf(),
        ensures
            final(self).wf(),
            final(self).mtrace@ == keep_last(
                old(self).mtrace@.push(MTraceEntry { addr, len, data, is_write: false }),
                old(self).mtrace.cap(),
            ),
    {
        self.mtrace.push(MTraceEntry { addr, len, data, is_write: false });
    }

    pub fn trace_write(&mut self, addr: PAddr, len: usize, data: Word)
        requires
            old(self).wf(),
        ensures
            final(self).wf(),
            final(self).mtrace@ == keep_last(
                old(self).mtrace@.push(MTraceEntry { addr, len, data, is_write: true }),
                old(self).mtrace.cap(),
            ),
    {
        self.mtrace.push(MTraceEntry { addr, len, data, is_write: true });
    }

    pub fn trace_dtrace(&mut self, addr: PAddr, len: usize, data: Word, is_write: bool, device: DeviceKind)
        requires
            old(self).wf(),
        ensures
            final(self).wf(),
            final(self).dtrace@ == keep_last(
                old(self).dtrace@.push(DTraceEntry { addr, len, data, is_write, device }),
                old(self).dtrace.cap(),
            ),
    {
        self.dtrace.push(DTraceEntry { addr, len, data, is_write, device });
    }

    pub fn trace_intr(&mut self, cause: Word, epc: Word, is_intr: bool)
        requires
            old(self).wf(),
        ensures
            final(self).wf(),
            final(self).intr@ == keep_last(
                old(self).intr@.push(IntrTraceEntry { cause, epc, is_intr }),
                old(self).intr.cap(),
            ),
    {
        self.intr.push(IntrTraceEntry { cause, epc, is_intr });
    }

    pub fn trace_mmu(&mut self, vaddr: VAddr, paddr: PAddr, type_: i32, success: bool)
        requires
            old(self).wf(),
        ensures
            final(self).wf(),
            final(self).mmu@ == keep_last(
                old(self).mmu@.push(MmuTraceEntry { vaddr, paddr, type_, success }),
                old(self).mmu.cap(),
            ),
    {
        self.mmu.push(MmuTraceEntry { vaddr, paddr, type_, success });
    }

    pub fn trace_ecall(&mut self, pc: Word, cause: Word, mode: u8)
        requires
            old(self).wf(),
        ensures
            final(self).wf(),
            final(self).ecall@ == keep_last(
                old(self).ecall@.push(EcallTraceEntry { pc, cause, mode }),
                old(self).ecall.cap(),
            ),
    {
        self.ecall.push(EcallTraceEntry { pc, cause, mode });
    }

    pub fn trace_call(&mut self, pc: VAddr, target: VAddr)
        requires
            old(self).wf(),
        ensures
            final(self).wf(),
            final(self).ftrace.symbols == old(self).ftrace.symbols,
            final(self).ftrace.call_depth == (if old(self).ftrace.call_depth < usize::MAX {
                (old(self).ftrace.call_depth + 1) as usize
            } else {
                old(self).ftrace.call_depth
            }),
            final(self).ftrace.buf@ == keep_last(
                old(self).ftrace.buf@.push(
                    FTraceEntry {
                        pc,
                        target,
                        is_call: true,
                        call_depth: old(self).ftrace.call_depth,
                        symbol: first_cover(old(self).ftrace.syms(), target, 0),
                    },
                ),
                old(self).ftrace.buf.cap(),
            ),
    {
        self.ftrace.trace_call(pc, target);
    }

    pub fn trace_ret(&mut self, pc: VAddr)
        requires
            old(self).wf(),
        ensures
            final(self).wf(),
            final(self).ftrace.symbols == old(self).ftrace.symbols,
            final(self).ftrace.call_depth == (if old(self).ftrace.call_depth > 0 {
                (old(self).ftrace.call_depth - 1) as usize
            } else {
                0usize
            }),
            final(self).ftrace.buf@ == keep_last(
                old(self).ftrace.buf@.push(
                    FTraceEntry {
                        pc,
                        target: 0,
                        is_call: false,
                        call_depth: final(self).ftrace.call_depth,
                        symbol: first_cover(old(self).ftrace.syms(), pc, 0),
                    },
                ),
                old(self).ftrace.buf.cap(),
            ),
    {
        self.ftrace.trace_ret(pc);
    }
}

} // verus!
