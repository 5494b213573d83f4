use vstd::prelude::*;
use vstd::string::StringExecFns;
use crate::common::{
    dec_text, fmt_word, hex_padded, push_dec, push_hex, push_hex_padded, push_signed_dec, signed_dec_text,
    word_text,
};
use crate::device::{device_name, device_name_spec};
use crate::disasm::{disasm, disasm_text, hex_lit};
use crate::trace::{
    Traces, DTraceEntry, EcallTraceEntry, FTrace, FTraceEntry, IntrTraceEntry, ItraceEntry, MTraceEntry,
    MmuTraceEntry,
};

verus! {

pub open spec fn mtrace_text(e: MTraceEntry) -> Seq<char> {
    (if e.is_write { "write"@ } else { "read"@ }) + " at "@ + word_text(e.addr) + " len="@ + dec_text(
        e.len as u64,
    ) + " data="@ + word_text(e.data)
}

pub open spec fn dtrace_text(e: DTraceEntry) -> Seq<char> {
    if e.is_write {
        "WriteMMIO: "@ + device_name_spec(e.device) + ", addr: "@ + hex_lit(e.addr) + ", data: "@
            + hex_lit(e.data)
    } else {
        "ReadMMIO: "@ + device_name_spec(e.device) + ", addr: "@ + hex_lit(e.addr)
    }
}

pub open spec fn intr_text(e: IntrTraceEntry) -> Seq<char> {
    "Intr: Cause="@ + dec_text(e.cause as u64) + " EPC="@ + word_text(e.epc)
}

pub open spec fn mmu_text(e: MmuTraceEntry) -> Seq<char> {
    if e.success {
        "MMU Success: vaddr="@ + word_text(e.vaddr) + " -> paddr="@ + word_text(e.paddr) + " type="@
            + signed_dec_text(e.type_)
    } else {
        "MMU Fail: vaddr="@ + word_text(e.vaddr) + " type="@ + signed_dec_text(e.type_)
    }
}

pub open spec fn mode_name(m: u8) -> Seq<char> {
    if m == 3 {
        "Machine"@
    } else if m == 1 {
        "Supervisor"@
    } else if m == 0 {
        "User"@
    } else {
        "Unknown"@
    }
}

pub open spec fn ecall_text(e: EcallTraceEntry) -> Seq<char> {
    "ECALL: Mode="@ + mode_name(e.mode) + " Cause="@ + dec_text(e.cause as u64) + " @ PC="@ + word_text(
        e.pc,
    )
}

/// `0x`-prefixed PC, the four instruction bytes in memory order, and the
/// disassembly.
pub open spec fn itrace_text(e: ItraceEntry) -> Seq<char> {
    word_text(e.pc) + ": "@ + hex_padded(e.inst & 0xff, 2) + " "@ + hex_padded((e.inst >> 8) & 0xff, 2)
        + " "@ + hex_padded((e.inst >> 16) & 0xff, 2) + " "@ + hex_padded((e.inst >> 24) & 0xff, 2) + " "@
        + disasm_text(e.inst)
}

/// Two spaces per call level.
pub open spec fn indent_text(n: nat) -> Seq<char> {
    Seq::new(2 * n, |i: int| ' ')
}

pub open spec fn symbol_name(syms: Seq<(Seq<char>, u32, u32)>, s: Option<usize>) -> Seq<char> {
    match s {
        Some(i) => if i < syms.len() { syms[i as int].0 } else { "???"@ },
        None => "???"@,
    }
}

pub open spec fn ftrace_text(e: FTraceEntry, syms: Seq<(Seq<char>, u32, u32)>) -> Seq<char> {
    if e.is_call {
        indent_text(e.call_depth as nat) + "call ["@ + symbol_name(syms, e.symbol) + "] @ "@ + word_text(
            e.target,
        )
    } else {
        indent_text(e.call_depth as nat) + "ret ["@ + symbol_name(syms, e.symbol) + "]"@
    }
}

impl MTraceEntry {
    pub fn to_string(&self) -> (r: String)
        ensures
            r@ == mtrace_text(*self),
    {
        let mut s = String::new();
        s.append(if self.is_write { "write" } else { "read" });
        s.append(" at ");
        s.append(fmt_word(self.addr).as_str());
        s.append(" len=");
        push_dec(&mut s, self.len as u64);
        s.append(" data=");
        s.append(fmt_word(self.data).as_str());
        assert(s@ =~= mtrace_text(*self));
        s
    }
}

fn push_hex_lit(s: &mut String, v: u32)
    ensures
        final(s)@ == old(s)@ + hex_lit(v),
{
    s.append("0x");
    push_hex(s, v);
    assert(final(s)@ =~= old(s)@ + hex_lit(v));
}

impl DTraceEntry {
    pub fn to_string(&self) -> (r: String)
        ensures
            r@ == dtrace_text(*self),
    {
        let mut s = String::new();
        if self.is_write {
            s.append("WriteMMIO: ");
            s.append(device_name(self.device));
            s.append(", addr: ");
            push_hex_lit(&mut s, self.addr);
            s.append(", data: ");
            push_hex_lit(&mut s, self.data);
        } else {
            s.append("ReadMMIO: ");
            s.append(device_name(self.device));
            s.append(", addr: ");
            push_hex_lit(&mut s, self.addr);
        }
        assert(s@ =~= dtrace_text(*self));
        s
    }
}

impl IntrTraceEntry {
    pub fn to_string(&self) -> (r: String)
        ensures
            r@ == intr_text(*self),
    {
        let mut s = String::new();
        s.append("Intr: Cause=");
        push_dec(&mut s, self.cause as u64);
        s.append(" EPC=");
        s.append(fmt_word(self.epc).as_str());
        assert(s@ =~= intr_text(*self));
        s
    }
}

impl MmuTraceEntry {
    pub fn to_string(&self) -> (r: String)
        ensures
            r@ == mmu_text(*self),
    {
        let mut s = String::new();
        if self.success {
            s.append("MMU Success: vaddr=");
            s.append(fmt_word(self.vaddr).as_str());
            s.append(" -> paddr=");
            s.append(fmt_word(self.paddr).as_str());
        } else {
            s.append("MMU Fail: vaddr=");
            s.append(fmt_word(self.vaddr).as_str());
        }
        s.append(" type=");
        push_signed_dec(&mut s, self.type_);
        assert(s@ =~= mmu_text(*self));
        s
    }
}

impl EcallTraceEntry {
    pub fn to_string(&self) -> (r: String)
        ensures
            r@ == ecall_text(*self),
    {
        let mut s = String::new();
        s.append("ECALL: Mode=");
        s.append(
            if self.mode == 3 {
                "Machine"
            } else if self.mode == 1 {
                "Supervisor"
            } else if self.mode == 0 {
                "User"
            } else {
                "Unknown"
            },
        );
        s.append(" Cause=");
        push_dec(&mut s, self.cause as u64);
        s.append(" @ PC=");
        s.append(fmt_word(self.pc).as_str());
        assert(s@ =~= ecall_text(*self));
        s
    }
}

impl ItraceEntry {
    pub fn to_string(&self) -> (r: String)
        ensures
            r@ == itrace_text(*self),
    {
        let mut s = fmt_word(self.pc);
        s.append(": ");
        push_hex_padded(&mut s, self.inst & 0xff, 2);
        s.append(" ");
        push_hex_padded(&mut s, (self.inst >> 8) & 0xff, 2);
        s.append(" ");
        push_hex_padded(&mut s, (self.inst >> 16) & 0xff, 2);
        s.append(" ");
        push_hex_padded(&mut s, (self.inst >> 24) & 0xff, 2);
        s.append(" ");
        s.append(disasm(self.inst, self.pc).as_str());
        assert(s@ =~= itrace_text(*self));
        s
    }
}

impl FTraceEntry {
    /// The entry's line, with names taken from the tracer's symbol table.
    pub fn to_string(&self, ft: &FTrace) -> (r: String)
        ensures
            r@ == ftrace_text(*self, ft.syms()),
    {
        let mut s = String::new();
        let mut i: usize = 0;
        assert(s@ =~= indent_text(0));
        while i < self.call_depth
            invariant
                i <= self.call_depth,
                s@ == indent_text(i as nat),
            decreases self.call_depth - i,
        {
            proof {
                reveal_strlit("  ");
            }
            s.append("  ");
            i = i + 1;
            assert(s@ =~= indent_text(i as nat));
        }
        s.append(if self.is_call { "call [" } else { "ret [" });
        match self.symbol {
            Some(k) if k < ft.symbols.len() => {
                assert(ft.syms()[k as int] == crate::trace::sym_view(ft.symbols@[k as int]));
                s.append(ft.symbols[k].name.as_str());
            },
            _ => {
                s.append("???");
            },
        }
        if self.is_call {
            s.append("] @ ");
            s.append(fmt_word(self.target).as_str());
        } else {
            s.append("]");
        }
        assert(s@ =~= ftrace_text(*self, ft.syms()));
        s
    }
}


/// Views of a list of lines.
pub open spec fn lines_view(v: Seq<String>) -> Seq<Seq<char>> {
    v.map_values(|s: String| s@)
}

impl Traces {
    pub open spec fn itrace_lines(&self) -> Seq<Seq<char>> {
        if self.itrace@.len() == 0 {
                seq!["Ringbuffer no element."@]
            } else {
                seq!["--- RingBuffer Content ---"@] + self.itrace@.map_values(|e: ItraceEntry| itrace_text(e)) + seq!["--------------------------"@]
            }
    }

    pub open spec fn mtrace_lines(&self) -> Seq<Seq<char>> {
        seq!["--- MTRACE Content ---"@] + self.mtrace@.map_values(|e: MTraceEntry| mtrace_text(e)) + seq!["----------------------"@]
    }

    pub open spec fn dtrace_lines(&self) -> Seq<Seq<char>> {
        if self.dtrace@.len() == 0 {
                seq!["--- DTRACE Content ---"@, "(empty)"@, "----------------------"@]
            } else {
                seq!["--- DTRACE Content ---"@] + self.dtrace@.map_values(|e: DTraceEntry| dtrace_text(e)) + seq!["----------------------"@]
            }
    }

    pub open spec fn intr_lines(&self) -> Seq<Seq<char>> {
        if self.intr@.len() == 0 {
                seq!["--- RingBuffer Content ---"@, "(empty)"@, "--------------------------"@]
            } else {
                seq!["--- RingBuffer Content ---"@] + self.intr@.map_values(|e: IntrTraceEntry| intr_text(e)) + seq!["--------------------------"@]
            }
    }

    pub open spec fn mmu_lines(&self) -> Seq<Seq<char>> {
        if self.mmu@.len() == 0 {
                seq!["--- RingBuffer Content ---"@, "(empty)"@, "--------------------------"@]
            } else {
                seq!["--- RingBuffer Content ---"@] + self.mmu@.map_values(|e: MmuTraceEntry| mmu_text(e)) + seq!["--------------------------"@]
            }
    }

    pub open spec fn ecall_lines(&self) -> Seq<Seq<char>> {
        if self.ecall@.len() == 0 {
                seq!["--- RingBuffer Content ---"@, "(empty)"@, "--------------------------"@]
            } else {
                seq!["--- RingBuffer Content ---"@] + self.ecall@.map_values(|e: EcallTraceEntry| ecall_text(e)) + seq!["--------------------------"@]
            }
    }

    pub open spec fn ftrace_lines(&self) -> Seq<Seq<char>> {
        seq!["--- FTRACE Content ---"@] + self.ftrace.buf@.map_values(
                |e: FTraceEntry| ftrace_text(e, self.ftrace.syms()),
            ) + seq!["----------------------"@]
    }

    /// Lines listing the itrace channel, oldest entry first.
    pub fn show_itrace(&self) -> (r: Vec<String>)
        requires
            self.wf(),
        ensures
            lines_view(r@) == self.itrace_lines(),
    {
        if self.itrace.is_empty() {
            let mut out: Vec<String> = Vec::new();
            out.push(String::from_str("Ringbuffer no element."));
            assert(lines_view(out@) =~= seq!["Ringbuffer no element."@]);
            return out;
        }
        let items = self.itrace.iter();
        let mut out: Vec<String> = Vec::new();
        out.push(String::from_str("--- RingBuffer Content ---"));
        let mut i: usize = 0;
        assert(lines_view(out@) =~= seq!["--- RingBuffer Content ---"@] + items@.subrange(0, 0).map_values(|e: ItraceEntry| itrace_text(e)));
        while i < items.len()
            invariant
                i <= items@.len(),
                lines_view(out@) == seq!["--- RingBuffer Content ---"@] + items@.subrange(0, i as int).map_values(|e: ItraceEntry| itrace_text(e)),
            decreases items@.len() - i,
        {
            let line = items[i].to_string();
            let ghost before = lines_view(out@);
            out.push(line);
            assert(lines_view(out@) =~= before.push(line@));
            assert(items@.subrange(0, i + 1).map_values(|e: ItraceEntry| itrace_text(e)) =~= items@.subrange(0, i as int).map_values(
                |e: ItraceEntry| itrace_text(e),
            ).push(itrace_text(items@[i as int])));
            i = i + 1;
        }
        let ghost before = lines_view(out@);
        out.push(String::from_str("--------------------------"));
        assert(items@.subrange(0, items@.len() as int) =~= items@);
        assert(lines_view(out@) =~= before.push("--------------------------"@));
        out
    }

    /// Lines listing the mtrace channel, oldest entry first.
    pub fn show_mtrace(&self) -> (r: Vec<String>)
        requires
            self.wf(),
        ensures
            lines_view(r@) == self.mtrace_lines(),
    {
        let items = self.mtrace.iter();
        let mut out: Vec<String> = Vec::new();
        out.push(String::from_str("--- MTRACE Content ---"));
        let mut i: usize = 0;
        assert(lines_view(out@) =~= seq!["--- MTRACE Content ---"@] + items@.subrange(0, 0).map_values(|e: MTraceEntry| mtrace_text(e)));
        while i < items.len()
            invariant
                i <= items@.len(),
                lines_view(out@) == seq!["--- MTRACE Content ---"@] + items@.subrange(0, i as int).map_values(|e: MTraceEntry| mtrace_text(e)),
            decreases items@.len() - i,
        {
            let line = items[i].to_string();
            let ghost before = lines_view(out@);
            out.push(line);
            assert(lines_view(out@) =~= before.push(line@));
            assert(items@.subrange(0, i + 1).map_values(|e: MTraceEntry| mtrace_text(e)) =~= items@.subrange(0, i as int).map_values(
                |e: MTraceEntry| mtrace_text(e),
            ).push(mtrace_text(items@[i as int])));
            i = i + 1;
        }
        let ghost before = lines_view(out@);
        out.push(String::from_str("----------------------"));
        assert(items@.subrange(0, items@.len() as int) =~= items@);
        assert(lines_view(out@) =~= before.push("----------------------"@));
        out
    }

    /// Lines listing the dtrace channel, oldest entry first.
    pub fn show_dtrace(&self) -> (r: Vec<String>)
        requires
            self.wf(),
        ensures
            lines_view(r@) == self.dtrace_lines(),
    {
        if self.dtrace.is_empty() {
            let mut out: Vec<String> = Vec::new();
            out.push(String::from_str("--- DTRACE Content ---"));
            out.push(String::from_str("(empty)"));
            out.push(String::from_str("----------------------"));
            assert(lines_view(out@) =~= seq!["--- DTRACE Content ---"@, "(empty)"@, "----------------------"@]);
            return out;
        }
        let items = self.dtrace.iter();
        let mut out: Vec<String> = Vec::new();
        out.push(String::from_str("--- DTRACE Content ---"));
        let mut i: usize = 0;
        assert(lines_view(out@) =~= seq!["--- DTRACE Content ---"@] + items@.subrange(0, 0).map_values(|e: DTraceEntry| dtrace_text(e)));
        while i < items.len()
            invariant
                i <= items@.len(),
                lines_view(out@) == seq!["--- DTRACE Content ---"@] + items@.subrange(0, i as int).map_values(|e: DTraceEntry| dtrace_text(e)),
            decreases items@.len() - i,
        {
            let line = items[i].to_string();
            let ghost before = lines_view(out@);
            out.push(line);
            assert(lines_view(out@) =~= before.push(line@));
            assert(items@.subrange(0, i + 1).map_values(|e: DTraceEntry| dtrace_text(e)) =~= items@.subrange(0, i as int).map_values(
                |e: DTraceEntry| dtrace_text(e),
            ).push(dtrace_text(items@[i as int])));
            i = i + 1;
        }
        let ghost before = lines_view(out@);
        out.push(String::from_str("----------------------"));
        assert(items@.subrange(0, items@.len() as int) =~= items@);
        assert(lines_view(out@) =~= before.push("----------------------"@));
        out
    }

    /// Lines listing the intr channel, oldest entry first.
    pub fn show_intr_trace(&self) -> (r: Vec<String>)
        requires
            self.wf(),
        ensures
            lines_view(r@) == self.intr_lines(),
    {
        if self.intr.is_empty() {
            let mut out: Vec<String> = Vec::new();
            out.push(String::from_str("--- RingBuffer Content ---"));
            out.push(String::from_str("(empty)"));
            out.push(String::from_str("--------------------------"));
            assert(lines_view(out@) =~= seq!["--- RingBuffer Content ---"@, "(empty)"@, "--------------------------"@]);
            return out;
        }
        let items = self.intr.iter();
        let mut out: Vec<String> = Vec::new();
        out.push(String::from_str("--- RingBuffer Content ---"));
        let mut i: usize = 0;
        assert(lines_view(out@) =~= seq!["--- RingBuffer Content ---"@] + items@.subrange(0, 0).map_values(|e: IntrTraceEntry| intr_text(e)));
        while i < items.len()
            invariant
                i <= items@.len(),
                lines_view(out@) == seq!["--- RingBuffer Content ---"@] + items@.subrange(0, i as int).map_values(|e: IntrTraceEntry| intr_text(e)),
            decreases items@.len() - i,
        {
            let line = items[i].to_string();
            let ghost before = lines_view(out@);
            out.push(line);
            assert(lines_view(out@) =~= before.push(line@));
            assert(items@.subrange(0, i + 1).map_values(|e: IntrTraceEntry| intr_text(e)) =~= items@.subrange(0, i as int).map_values(
                |e: IntrTraceEntry| intr_text(e),
            ).push(intr_text(items@[i as int])));
            i = i + 1;
        }
        let ghost before = lines_view(out@);
        out.push(String::from_str("--------------------------"));
        assert(items@.subrange(0, items@.len() as int) =~= items@);
        assert(lines_view(out@) =~= before.push("--------------------------"@));
        out
    }

    /// Lines listing the mmu channel, oldest entry first.
    pub fn show_mmu_trace(&self) -> (r: Vec<String>)
        requires
            self.wf(),
        ensures
            lines_view(r@) == self.mmu_lines(),
    {
        if self.mmu.is_empty() {
            let mut out: Vec<String> = Vec::new();
            out.push(String::from_str("--- RingBuffer Content ---"));
            out.push(String::from_str("(empty)"));
            out.push(String::from_str("--------------------------"));
            assert(lines_view(out@) =~= seq!["--- RingBuffer Content ---"@, "(empty)"@, "--------------------------"@]);
            return out;
        }
        let items = self.mmu.iter();
        let mut out: Vec<String> = Vec::new();
        out.push(String::from_str("--- RingBuffer Content ---"));
        let mut i: usize = 0;
        assert(lines_view(out@) =~= seq!["--- RingBuffer Content ---"@] + items@.subrange(0, 0).map_values(|e: MmuTraceEntry| mmu_text(e)));
        while i < items.len()
            invariant
                i <= items@.len(),
                lines_view(out@) == seq!["--- RingBuffer Content ---"@] + items@.subrange(0, i as int).map_values(|e: MmuTraceEntry| mmu_text(e)),
            decreases items@.len() - i,
        {
            let line = items[i].to_string();
            let ghost before = lines_view(out@);
            out.push(line);
            assert(lines_view(out@) =~= before.push(line@));
            assert(items@.subrange(0, i + 1).map_values(|e: MmuTraceEntry| mmu_text(e)) =~= items@.subrange(0, i as int).map_values(
                |e: MmuTraceEntry| mmu_text(e),
            ).push(mmu_text(items@[i as int])));
            i = i + 1;
        }
        let ghost before = lines_view(out@);
        out.push(String::from_str("--------------------------"));
        assert(items@.subrange(0, items@.len() as int) =~= items@);
        assert(lines_view(out@) =~= before.push("--------------------------"@));
        out
    }

    /// Lines listing the ecall channel, oldest entry first.
    pub fn show_ecall_trace(&self) -> (r: Vec<String>)
        requires
            self.wf(),
        ensures
            lines_view(r@) == self.ecall_lines(),
    {
        if self.ecall.is_empty() {
            let mut out: Vec<String> = Vec::new();
            out.push(String::from_str("--- RingBuffer Content ---"));
            out.push(String::from_str("(empty)"));
            out.push(String::from_str("--------------------------"));
            assert(lines_view(out@) =~= seq!["--- RingBuffer Content ---"@, "(empty)"@, "--------------------------"@]);
            return out;
        }
        let items = self.ecall.iter();
        let mut out: Vec<String> = Vec::new();
        out.push(String::from_str("--- RingBuffer Content ---"));
        let mut i: usize = 0;
        assert(lines_view(out@) =~= seq!["--- RingBuffer Content ---"@] + items@.subrange(0, 0).map_values(|e: EcallTraceEntry| ecall_text(e)));
        while i < items.len()
            invariant
                i <= items@.len(),
                lines_view(out@) == seq!["--- RingBuffer Content ---"@] + items@.subrange(0, i as int).map_values(|e: EcallTraceEntry| ecall_text(e)),
            decreases items@.len() - i,
        {
            let line = items[i].to_string();
            let ghost before = lines_view(out@);
            out.push(line);
            assert(lines_view(out@) =~= before.push(line@));
            assert(items@.subrange(0, i + 1).map_values(|e: EcallTraceEntry| ecall_text(e)) =~= items@.subrange(0, i as int).map_values(
                |e: EcallTraceEntry| ecall_text(e),
            ).push(ecall_text(items@[i as int])));
            i = i + 1;
        }
        let ghost before = lines_view(out@);
        out.push(String::from_str("--------------------------"));
        assert(items@.subrange(0, items@.len() as int) =~= items@);
        assert(lines_view(out@) =~= before.push("--------------------------"@));
        out
    }

    /// Lines listing the function trace, with names from the symbol table.
    pub fn show_ftrace(&self) -> (r: Vec<String>)
        requires
            self.wf(),
        ensures
            lines_view(r@) == self.ftrace_lines(),
    {
        let items = self.ftrace.buf.iter();
        let mut out: Vec<String> = Vec::new();
        out.push(String::from_str("--- FTRACE Content ---"));
        let mut i: usize = 0;
        let ghost syms = self.ftrace.syms();
        assert(lines_view(out@) =~= seq!["--- FTRACE Content ---"@] + items@.subrange(0, 0).map_values(
            |e: FTraceEntry| ftrace_text(e, syms),
        ));
        while i < items.len()
            invariant
                i <= items@.len(),
                syms == self.ftrace.syms(),
                lines_view(out@) == seq!["--- FTRACE Content ---"@] + items@.subrange(0, i as int).map_values(
                    |e: FTraceEntry| ftrace_text(e, syms),
                ),
            decreases items@.len() - i,
        {
            let line = items[i].to_string(&self.ftrace);
            let ghost before = lines_view(out@);
            out.push(line);
            assert(lines_view(out@) =~= before.push(line@));
            assert(items@.subrange(0, i + 1).map_values(|e: FTraceEntry| ftrace_text(e, syms))
                =~= items@.subrange(0, i as int).map_values(|e: FTraceEntry| ftrace_text(e, syms)).push(
                ftrace_text(items@[i as int], syms),
            ));
            i = i + 1;
        }
        let ghost before = lines_view(out@);
        out.push(String::from_str("----------------------"));
        assert(items@.subrange(0, items@.len() as int) =~= items@);
        assert(lines_view(out@) =~= before.push("----------------------"@));
        out
    }

    /// Every channel's listing in turn; nothing when tracing is off.
    pub fn print_trace_summary(&self) -> (r: Vec<String>)
        requires
            self.wf(),
        ensures
            lines_view(r@) == (if self.enabled {
                self.itrace_lines() + self.mtrace_lines() + self.dtrace_lines() + self.intr_lines()
                    + self.mmu_lines() + self.ecall_lines() + self.ftrace_lines()
            } else {
                Seq::empty()
            }),
    {
        let mut out: Vec<String> = Vec::new();
        if !self.enabled {
            assert(lines_view(out@) =~= Seq::<Seq<char>>::empty());
            return out;
        }
        let mut a = self.show_itrace();
        let mut b = self.show_mtrace();
        let mut c = self.show_dtrace();
        let mut d = self.show_intr_trace();
        let mut e = self.show_mmu_trace();
        let mut f = self.show_ecall_trace();
        let mut g = self.show_ftrace();
        let ghost (va, vb, vc, vd, ve, vf, vg) = (lines_view(a@), lines_view(b@), lines_view(c@), lines_view(d@), lines_view(e@), lines_view(f@), lines_view(g@));
        out.append(&mut a);
        out.append(&mut b);
        out.append(&mut c);
        out.append(&mut d);
        out.append(&mut e);
        out.append(&mut f);
        out.append(&mut g);
        assert(lines_view(out@) =~= va + vb + vc + vd + ve + vf + vg);
        out
    }
}

} // verus!
