use vstd::prelude::*;
use vstd::string::StringExecFns;
use crate::common::PAddr;
use crate::device::DeviceKind;

verus! {

/// One registered range `[start, end)` and the device behind it.
pub struct MmioMap {
    pub name: String,
    pub start: PAddr,
    pub end: PAddr,
    pub kind: DeviceKind,
}

pub open spec fn map_covers(m: MmioMap, addr: u32) -> bool {
    m.start <= addr && addr < m.end
}

pub open spec fn ranges_disjoint(a: MmioMap, b: MmioMap) -> bool {
    a.end <= b.start || b.end <= a.start
}

/// Registered MMIO ranges; no two overlap.
pub struct MmioRegistry {
    pub maps: Vec<MmioMap>,
}

impl MmioRegistry {
    pub open spec fn wf(&self) -> bool {
        &&& forall|i: int| 0 <= i < self.maps@.len() ==> #[trigger] self.maps@[i].start
            < self.maps@[i].end
        &&& forall|i: int, j: int|
            0 <= i < self.maps@.len() && 0 <= j < self.maps@.len() && i != j ==> ranges_disjoint(
                #[trigger] self.maps@[i],
                #[trigger] self.maps@[j],
            )
    }

    /// `[start, start + len)` overlaps no registered range.
    pub open spec fn is_free(&self, start: u32, len: u32) -> bool {
        forall|i: int|
            0 <= i < self.maps@.len() ==> (#[trigger] self.maps@[i]).end <= start
                || start as int + len as int <= self.maps@[i].start
    }

    pub fn init_mmio() -> (r: Self)
        ensures
            r.wf(),
            r.maps@.len() == 0,
    {
        MmioRegistry { maps: Vec::new() }
    }

    /// Adds a range; it must not overlap one already registered.
    pub fn register_mmio(&mut self, name: &str, start: PAddr, len: u32, kind: DeviceKind)
        requires
            old(self).wf(),
            len > 0,
            start as int + len as int <= 0xffff_ffff,
            old(self).is_free(start, len),
        ensures
            final(self).wf(),
            final(self).maps@.len() == old(self).maps@.len() + 1,
            forall|i: int| 0 <= i < old(self).maps@.len() ==> final(self).maps@[i] == old(self).maps@[i],
            final(self).maps@.last().name@ == name@,
            final(self).maps@.last().start == start,
            final(self).maps@.last().end == start + len,
            final(self).maps@.last().kind == kind,
    {
        self.maps.push(MmioMap { name: String::from_str(name), start, end: start + len, kind });
        assert forall|i: int, j: int|
            0 <= i < self.maps@.len() && 0 <= j < self.maps@.len() && i != j implies ranges_disjoint(
            #[trigger] self.maps@[i],
            #[trigger] self.maps@[j],
        ) by {
            if i < old(self).maps@.len() && j < old(self).maps@.len() {
                assert(ranges_disjoint(old(self).maps@[i], old(self).maps@[j]));
            }
        }
    }

    /// Registers the range when it fits the address space and overlaps no
    /// registered range; reports whether it did.
    pub fn register_checked(&mut self, name: &str, start: PAddr, len: u32, kind: DeviceKind) -> (r: bool)
        requires
            old(self).wf(),
        ensures
            final(self).wf(),
            r == (len > 0 && start as int + len as int <= 0xffff_ffff && old(self).is_free(start, len)),
            !r ==> final(self).maps@ == old(self).maps@,
            r ==> final(self).maps@.len() == old(self).maps@.len() + 1 && final(self).maps@.last().start
                == start && final(self).maps@.last().end == start + len && final(self).maps@.last().kind == kind,
    {
        if len == 0 || start > 0xffff_ffff - len {
            return false;
        }
        let mut i: usize = 0;
        while i < self.maps.len()
            invariant
                i <= self.maps@.len(),
                self.wf(),
                self.maps@ == old(self).maps@,
                len > 0,
                start as int + len as int <= 0xffff_ffff,
                forall|j: int|
                    0 <= j < i ==> (#[trigger] self.maps@[j]).end <= start || start as int + len as int
                        <= self.maps@[j].start,
            decreases self.maps@.len() - i,
        {
            if !(self.maps[i].end <= start || start + len <= self.maps[i].start) {
                return false;
            }
            i = i + 1;
        }
        self.register_mmio(name, start, len, kind);
        true
    }

    /// At most one registered range holds an address.
    pub proof fn lemma_unique_cover(&self, i: int, addr: u32)
        requires
            self.wf(),
            0 <= i < self.maps@.len(),
            map_covers(self.maps@[i], addr),
        ensures
            forall|j: int|
                0 <= j < self.maps@.len() && map_covers(#[trigger] self.maps@[j], addr) ==> j == i,
    {
        assert forall|j: int|
            0 <= j < self.maps@.len() && map_covers(#[trigger] self.maps@[j], addr) implies j == i by {
            if j != i {
                assert(ranges_disjoint(self.maps@[i], self.maps@[j]));
            }
        }
    }

    /// Index of the range holding `addr`, if any.
    pub fn find(&self, addr: PAddr) -> (r: Option<usize>)
        requires
            self.wf(),
        ensures
            r.is_some() ==> r.unwrap() < self.maps@.len() && map_covers(self.maps@[r.unwrap() as int], addr),
            r.is_none() ==> forall|i: int| 0 <= i < self.maps@.len() ==> !map_covers(#[trigger] self.maps@[i], addr),
    {
        let mut i: usize = 0;
        while i < self.maps.len()
            invariant
                i <= self.maps@.len(),
                forall|j: int| 0 <= j < i ==> !map_covers(#[trigger] self.maps@[j], addr),
            decreases self.maps@.len() - i,
        {
            if addr >= self.maps[i].start && addr < self.maps[i].end {
                return Some(i);
            }
            i = i + 1;
        }
        None
    }
}

} // verus!
