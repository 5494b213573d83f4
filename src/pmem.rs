use vstd::prelude::*;
use vstd::string::StringExecFns;
use crate::common::{push_hex_padded, PAddr, Word};

verus! {

pub const MROM_BASE: u32 = 0x2000_0000;

pub const MROM_SIZE: usize = 0x1000;

pub const SRAM_BASE: u32 = 0x0f00_0000;

pub const SRAM_SIZE: usize = 0x2000;

/// The three backing stores of the physical address space.
#[derive(Debug, Clone, Copy, PartialEq, Eq, Structural)]
pub enum Region {
    Ram,
    Rom,
    Sram,
}

/// Mask of the low `len` bytes.
pub open spec fn len_mask(len: usize) -> u32 {
    if len == 1 {
        0xff
    } else if len == 2 {
        0xffff
    } else {
        0xffff_ffff
    }
}

/// Little-endian value of `len` bytes at `off` (0 for other widths).
pub open spec fn le_read(b: Seq<u8>, off: int, len: usize) -> u32 {
    if len == 1 {
        b[off] as u32
    } else if len == 2 {
        (b[off] as u32) | ((b[off + 1] as u32) << 8)
    } else if len == 4 {
        (b[off] as u32) | ((b[off + 1] as u32) << 8) | ((b[off + 2] as u32) << 16) | ((b[off
            + 3] as u32) << 24)
    } else {
        0
    }
}

/// `b` with the low `len` bytes of `v` stored little-endian at `off`.
pub open spec fn le_write(b: Seq<u8>, off: int, len: usize, v: u32) -> Seq<u8> {
    if len == 1 {
        b.update(off, (v & 0xff) as u8)
    } else if len == 2 {
        b.update(off, (v & 0xff) as u8).update(off + 1, ((v >> 8) & 0xff) as u8)
    } else if len == 4 {
        b.update(off, (v & 0xff) as u8).update(off + 1, ((v >> 8) & 0xff) as u8).update(
            off + 2,
            ((v >> 16) & 0xff) as u8,
        ).update(off + 3, ((v >> 24) & 0xff) as u8)
    } else {
        b
    }
}

pub open spec fn valid_len(len: usize) -> bool {
    len == 1 || len == 2 || len == 4
}

/// Storing a value and loading it back at the same place and width yields
/// the value cut to that width.
pub proof fn lemma_le_write_read(b: Seq<u8>, off: int, len: usize, v: u32)
    requires
        valid_len(len),
        0 <= off,
        off + len <= b.len(),
    ensures
        le_read(le_write(b, off, len, v), off, len) == v & len_mask(len),
{
    let x0 = (v & 0xff) as u8;
    let x1 = ((v >> 8) & 0xff) as u8;
    let x2 = ((v >> 16) & 0xff) as u8;
    let x3 = ((v >> 24) & 0xff) as u8;
    let w = le_write(b, off, len, v);
    if len == 1 {
        assert(w[off] == x0);
        assert(x0 as u32 == v & 0xff) by (bit_vector)
            requires
                x0 == (v & 0xff) as u8,
        ;
    } else if len == 2 {
        assert(w[off] == x0 && w[off + 1] == x1);
        assert((x0 as u32) | ((x1 as u32) << 8) == v & 0xffff) by (bit_vector)
            requires
                x0 == (v & 0xff) as u8,
                x1 == ((v >> 8) & 0xff) as u8,
        ;
    } else {
        assert(w[off] == x0 && w[off + 1] == x1 && w[off + 2] == x2 && w[off + 3] == x3);
        assert((x0 as u32) | ((x1 as u32) << 8) | ((x2 as u32) << 16) | ((x3 as u32) << 24) == v
            & 0xffff_ffff) by (bit_vector)
            requires
                x0 == (v & 0xff) as u8,
                x1 == ((v >> 8) & 0xff) as u8,
                x2 == ((v >> 16) & 0xff) as u8,
                x3 == ((v >> 24) & 0xff) as u8,
        ;
    }
}

fn read_le(b: &Vec<u8>, off: usize, len: usize) -> (r: u32)
    requires
        off + len <= b@.len(),
    ensures
        r == le_read(b@, off as int, len),
{
    let _n = b.len();
    if len == 1 {
        b[off] as u32
    } else if len == 2 {
        (b[off] as u32) | ((b[off + 1] as u32) << 8)
    } else if len == 4 {
        (b[off] as u32) | ((b[off + 1] as u32) << 8) | ((b[off + 2] as u32) << 16) | ((b[off
            + 3] as u32) << 24)
    } else {
        0
    }
}

fn write_le(b: &mut Vec<u8>, off: usize, len: usize, v: u32)
    requires
        off + len <= old(b)@.len(),
    ensures
        final(b)@ == le_write(old(b)@, off as int, len, v),
{
    let _n = b.len();
    if len == 1 {
        b.set(off, (v & 0xff) as u8);
    } else if len == 2 {
        b.set(off, (v & 0xff) as u8);
        b.set(off + 1, ((v >> 8) & 0xff) as u8);
    } else if len == 4 {
        b.set(off, (v & 0xff) as u8);
        b.set(off + 1, ((v >> 8) & 0xff) as u8);
        b.set(off + 2, ((v >> 16) & 0xff) as u8);
        b.set(off + 3, ((v >> 24) & 0xff) as u8);
    }
}

/// Byte `i` of the deterministic pseudo-random fill with `seed`.
pub open spec fn fill_byte(seed: u32, i: int) -> u8 {
    (((((seed as int * 1103515245) % 0x1_0000_0000 + i) % 0x1_0000_0000) as u32) >> 8) as u8
}

/// RAM of `msize` bytes at `mbase` overlaps neither the boot ROM nor the
/// scratchpad.
pub open spec fn ram_placeable(mbase: u32, msize: int) -> bool {
    &&& (mbase + msize <= MROM_BASE || mbase >= MROM_BASE + MROM_SIZE)
    &&& (mbase + msize <= SRAM_BASE || mbase >= SRAM_BASE + SRAM_SIZE)
}

/// Main RAM, boot ROM and scratchpad.
pub struct PhysicalMemory {
    pub pmem: Vec<u8>,
    pub mrom: Vec<u8>,
    pub sram: Vec<u8>,
    pub mbase: u32,
    pub msize: usize,
}

impl PhysicalMemory {
    /// Sizes match and the three regions neither overlap nor wrap.
    pub open spec fn wf(&self) -> bool {
        &&& self.pmem@.len() == self.msize
        &&& self.mrom@.len() == MROM_SIZE
        &&& self.sram@.len() == SRAM_SIZE
        &&& self.msize > 0
        &&& ram_placeable(self.mbase, self.msize as int)
        &&& self.mbase as int + self.msize as int <= 0x1_0000_0000
    }

    pub open spec fn base_of(&self, r: Region) -> u32 {
        match r {
            Region::Ram => self.mbase,
            Region::Rom => MROM_BASE,
            Region::Sram => SRAM_BASE,
        }
    }

    pub open spec fn bytes_of(&self, r: Region) -> Seq<u8> {
        match r {
            Region::Ram => self.pmem@,
            Region::Rom => self.mrom@,
            Region::Sram => self.sram@,
        }
    }

    pub open spec fn size_of(&self, r: Region) -> int {
        match r {
            Region::Ram => self.msize as int,
            Region::Rom => MROM_SIZE as int,
            Region::Sram => SRAM_SIZE as int,
        }
    }

    /// `[addr, addr + len)` lies wholly inside region `r`.
    pub open spec fn covers(&self, r: Region, addr: u32, len: usize) -> bool {
        self.base_of(r) <= addr && addr as int + len as int <= self.base_of(r) as int
            + self.size_of(r)
    }

    /// The region holding the whole access, if any.
    pub open spec fn region_spec(&self, addr: u32, len: usize) -> Option<Region> {
        if self.covers(Region::Rom, addr, len) {
            Some(Region::Rom)
        } else if self.covers(Region::Sram, addr, len) {
            Some(Region::Sram)
        } else if self.covers(Region::Ram, addr, len) {
            Some(Region::Ram)
        } else {
            None
        }
    }

    /// What a read of `len` bytes at `addr` returns (0 outside every region).
    pub open spec fn read_spec(&self, addr: u32, len: usize) -> u32 {
        match self.region_spec(addr, len) {
            Some(r) => le_read(self.bytes_of(r), addr - self.base_of(r), len),
            None => 0,
        }
    }

    /// Zero-filled memory with RAM of `msize` bytes at `mbase`.
    pub fn new(mbase: u32, msize: usize) -> (r: Self)
        requires
            msize > 0,
            ram_placeable(mbase, msize as int),
            mbase as int + msize as int <= 0x1_0000_0000,
        ensures
            r.wf(),
            r.mbase == mbase,
            r.msize == msize,
            forall|i: int| 0 <= i < msize ==> r.pmem@[i] == 0,
            forall|i: int| 0 <= i < MROM_SIZE ==> r.mrom@[i] == 0,
            forall|i: int| 0 <= i < SRAM_SIZE ==> r.sram@[i] == 0,
    {
        PhysicalMemory {
            pmem: vec![0u8; msize],
            mrom: vec![0u8; MROM_SIZE],
            sram: vec![0u8; SRAM_SIZE],
            mbase,
            msize,
        }
    }

    /// Overwrites RAM with the pseudo-random pattern of `seed`.
    pub fn fill_random(&mut self, seed: u32)
        requires
            old(self).wf(),
        ensures
            final(self).wf(),
            final(self).mbase == old(self).mbase,
            final(self).msize == old(self).msize,
            final(self).mrom == old(self).mrom,
            final(self).sram == old(self).sram,
            forall|i: int| 0 <= i < final(self).msize ==> final(self).pmem@[i] == fill_byte(seed, i),
    {
        let mul = seed.wrapping_mul(1103515245);
        assert(mul as int == (seed as int * 1103515245) % 0x1_0000_0000);
        let n = self.pmem.len();
        let mut i: usize = 0;
        while i < n
            invariant
                self.wf(),
                self.mbase == old(self).mbase,
                self.msize == old(self).msize,
                self.mrom == old(self).mrom,
                self.sram == old(self).sram,
                n == self.msize,
                i <= n,
                mul as int == (seed as int * 1103515245) % 0x1_0000_0000,
                forall|j: int| 0 <= j < i ==> self.pmem@[j] == fill_byte(seed, j),
            decreases n - i,
        {
            let x = mul.wrapping_add(i as u32);
            assert(x as int == (mul as int + i as int) % 0x1_0000_0000);
            self.pmem.set(i, (x >> 8) as u8);
            i = i + 1;
        }
    }

    pub fn in_pmem(&self, addr: PAddr, len: usize) -> (r: bool)
        requires
            self.wf(),
            len <= 8,
        ensures
            r == self.covers(Region::Ram, addr, len),
    {
        addr >= self.mbase && (addr - self.mbase) as u64 + len as u64 <= self.msize as u64
    }

    pub fn in_mrom(&self, addr: PAddr, len: usize) -> (r: bool)
        requires
            len <= 8,
        ensures
            r == self.covers(Region::Rom, addr, len),
    {
        addr >= MROM_BASE && (addr - MROM_BASE) as usize + len <= MROM_SIZE
    }

    pub fn in_sram(&self, addr: PAddr, len: usize) -> (r: bool)
        requires
            len <= 8,
        ensures
            r == self.covers(Region::Sram, addr, len),
    {
        addr >= SRAM_BASE && (addr - SRAM_BASE) as usize + len <= SRAM_SIZE
    }

    /// Region and offset of an access that one region holds whole.
    pub fn guest_to_host(&self, paddr: PAddr, len: usize) -> (r: Option<(Region, usize)>)
        requires
            self.wf(),
            len <= 8,
        ensures
            r.is_some() == self.region_spec(paddr, len).is_some(),
            r.is_some() ==> r.unwrap().0 == self.region_spec(paddr, len).unwrap() && r.unwrap().1
                == paddr - self.base_of(r.unwrap().0),
    {
        if self.in_mrom(paddr, len) {
            Some((Region::Rom, (paddr - MROM_BASE) as usize))
        } else if self.in_sram(paddr, len) {
            Some((Region::Sram, (paddr - SRAM_BASE) as usize))
        } else if self.in_pmem(paddr, len) {
            Some((Region::Ram, (paddr - self.mbase) as usize))
        } else {
            None
        }
    }

    /// Reads `len` bytes little-endian; 0 where no region holds the access.
    pub fn read(&self, addr: PAddr, len: usize) -> (r: Word)
        requires
            self.wf(),
            len <= 8,
        ensures
            r == self.read_spec(addr, len),
    {
        match self.guest_to_host(addr, len) {
            Some((Region::Ram, off)) => read_le(&self.pmem, off, len),
            Some((Region::Rom, off)) => read_le(&self.mrom, off, len),
            Some((Region::Sram, off)) => read_le(&self.sram, off, len),
            None => 0,
        }
    }

    /// Writes the low `len` bytes of `data` little-endian; dropped where no
    /// region holds the access.
    pub fn write(&mut self, addr: PAddr, len: usize, data: Word)
        requires
            old(self).wf(),
            len <= 8,
        ensures
            written(*old(self), *final(self), addr, len, data),
    {
        match self.guest_to_host(addr, len) {
            Some((Region::Ram, off)) => write_le(&mut self.pmem, off, len, data),
            Some((Region::Rom, off)) => write_le(&mut self.mrom, off, len, data),
            Some((Region::Sram, off)) => write_le(&mut self.sram, off, len, data),
            None => {},
        }
    }

    /// Copies `data` to `addr`; fails unless one region holds all of it.
    pub fn load_image(&mut self, data: &Vec<u8>, addr: PAddr) -> (r: Result<(), String>)
        requires
            old(self).wf(),
        ensures
            final(self).wf(),
            final(self).mbase == old(self).mbase,
            final(self).msize == old(self).msize,
            r.is_ok() == (data@.len() <= 0xffff_ffff && (old(self).covers(
                Region::Rom,
                addr,
                data@.len() as usize,
            ) || old(self).covers(Region::Sram, addr, data@.len() as usize) || old(self).covers(
                Region::Ram,
                addr,
                data@.len() as usize,
            ))),
            r.is_err() ==> final(self).pmem == old(self).pmem,
            r.is_err() ==> final(self).mrom == old(self).mrom,
            r.is_err() ==> final(self).sram == old(self).sram,
            forall|g: Region|
                #![auto]
                r.is_ok() && old(self).covers(g, addr, data@.len() as usize)
                    ==> final(self).bytes_of(g) == old(self).bytes_of(g).subrange(0, addr - old(self).base_of(g))
                    + data@ + old(self).bytes_of(g).subrange(
                    addr - old(self).base_of(g) + data@.len(),
                    old(self).size_of(g),
                ),
    {
        let n = data.len();
        let target = if n > 0xffff_ffff {
            None
        } else if addr >= MROM_BASE && (addr - MROM_BASE) as usize <= MROM_SIZE && n <= MROM_SIZE
            - (addr - MROM_BASE) as usize {
            Some((Region::Rom, (addr - MROM_BASE) as usize))
        } else if addr >= SRAM_BASE && (addr - SRAM_BASE) as usize <= SRAM_SIZE && n <= SRAM_SIZE
            - (addr - SRAM_BASE) as usize {
            Some((Region::Sram, (addr - SRAM_BASE) as usize))
        } else if addr >= self.mbase && (addr - self.mbase) as usize <= self.msize && n
            <= self.msize - (addr - self.mbase) as usize {
            Some((Region::Ram, (addr - self.mbase) as usize))
        } else {
            None
        };
        match target {
            Some((Region::Ram, off)) => {
                copy_into(&mut self.pmem, off, data);
                Ok(())
            },
            Some((Region::Rom, off)) => {
                copy_into(&mut self.mrom, off, data);
                Ok(())
            },
            Some((Region::Sram, off)) => {
                copy_into(&mut self.sram, off, data);
                Ok(())
            },
            None => {
                let mut s = String::new();
                proof {
                    reveal_strlit("Cannot load image at invalid address 0x");
                }
                s.append("Cannot load image at invalid address 0x");
                push_hex_padded(&mut s, addr, 8);
                Err(s)
            },
        }
    }
}

/// `after` is what `PhysicalMemory::write(addr, len, v)` makes of `before`.
pub open spec fn written(before: PhysicalMemory, after: PhysicalMemory, addr: u32, len: usize, v: u32) -> bool {
    &&& after.wf()
    &&& after.mbase == before.mbase
    &&& after.msize == before.msize
    &&& forall|r: Region|
        after.bytes_of(r) == (if before.region_spec(addr, len) == Some(r) {
            le_write(before.bytes_of(r), addr - before.base_of(r), len, v)
        } else {
            before.bytes_of(r)
        })
}

/// Reading RAM, ROM or scratchpad right after writing `v` there, at the
/// same address and width (1, 2 or 4), yields `v` cut to that width.
pub proof fn lemma_write_then_read(before: PhysicalMemory, after: PhysicalMemory, addr: u32, len: usize, v: u32)
    requires
        before.wf(),
        valid_len(len),
        before.region_spec(addr, len) is Some,
        written(before, after, addr, len, v),
    ensures
        after.read_spec(addr, len) == v & len_mask(len),
{
    let r = before.region_spec(addr, len)->Some_0;
    assert(after.bytes_of(r) == le_write(before.bytes_of(r), addr - before.base_of(r), len, v));
    assert(after.region_spec(addr, len) == before.region_spec(addr, len));
    assert(before.bytes_of(r).len() == before.size_of(r));
    lemma_le_write_read(before.bytes_of(r), addr - before.base_of(r), len, v);
}

fn copy_into(dst: &mut Vec<u8>, off: usize, data: &Vec<u8>)
    requires
        off + data@.len() <= old(dst)@.len(),
    ensures
        final(dst)@ == old(dst)@.subrange(0, off as int) + data@ + old(dst)@.subrange(
            off + data@.len(),
            old(dst)@.len() as int,
        ),
{
    let n = data.len();
    let m = dst.len();
    let mut i: usize = 0;
    while i < n
        invariant
            i <= n,
            m == dst@.len(),
            n == data@.len(),
            off + n <= dst@.len(),
            dst@.len() == old(dst)@.len(),
            forall|j: int| 0 <= j < off ==> dst@[j] == old(dst)@[j],
            forall|j: int| off <= j < off + i ==> dst@[j] == data@[j - off],
            forall|j: int| off + i <= j < dst@.len() ==> dst@[j] == old(dst)@[j],
        decreases n - i,
    {
        dst.set(off + i, data[i]);
        i = i + 1;
    }
    assert(dst@ =~= old(dst)@.subrange(0, off as int) + data@ + old(dst)@.subrange(
        off + data@.len(),
        old(dst)@.len() as int,
    ));
}

} // verus!
