use vstd::prelude::*;
use crate::common::{PAddr, PrivMode, VAddr, Word};
use crate::csr::{CSR_MSTATUS, CSR_SATP};
use crate::pmem::PhysicalMemory;
use crate::state::CpuState;

verus! {

pub const MMU_DIRECT: i32 = 0;

pub const MMU_TRANSLATE: i32 = 1;

pub const MMU_FAIL: i32 = 2;

pub const MEM_TYPE_IFETCH: i32 = 0;

pub const MEM_TYPE_READ: i32 = 1;

pub const MEM_TYPE_WRITE: i32 = 2;

/// Page-fault cause of an access type: 12 fetch, 13 load, 15 store.
pub open spec fn fault_cause(t: i32) -> u32 {
    if t == MEM_TYPE_IFETCH {
        12
    } else if t == MEM_TYPE_WRITE {
        15
    } else {
        13
    }
}

pub fn page_fault_cause(t: i32) -> (r: u32)
    ensures
        r == fault_cause(t),
{
    if t == MEM_TYPE_IFETCH {
        12
    } else if t == MEM_TYPE_WRITE {
        15
    } else {
        13
    }
}

/// Paging applies: SATP.MODE is set and the hart is below Machine mode.
pub open spec fn paging_on(csr: Seq<u32>, mode: PrivMode) -> bool {
    csr[CSR_SATP as int] & 0x8000_0000 != 0 && mode != PrivMode::Machine
}

/// V is set and the reserved R = 0, W = 1 combination is absent.
pub open spec fn pte_valid(pte: u32) -> bool {
    pte & 1 == 1 && !((pte >> 1) & 1 == 0 && (pte >> 2) & 1 == 1)
}

/// Any of R, W, X is set.
pub open spec fn pte_leaf(pte: u32) -> bool {
    (pte >> 1) & 7 != 0
}

/// The leaf grants this access in this mode.
pub open spec fn perm_ok(pte: u32, t: i32, mode: PrivMode, mstatus: u32) -> bool {
    let r = (pte >> 1) & 1 == 1;
    let w = (pte >> 2) & 1 == 1;
    let x = (pte >> 3) & 1 == 1;
    let u = (pte >> 4) & 1 == 1;
    let mxr = (mstatus >> 19) & 1 == 1;
    let sum = (mstatus >> 18) & 1 == 1;
    let kind_ok = if t == MEM_TYPE_IFETCH {
        x
    } else if t == MEM_TYPE_WRITE {
        w && r
    } else {
        r || (mxr && x)
    };
    let mode_ok = if mode == PrivMode::User {
        u
    } else {
        !u || (sum && t != MEM_TYPE_IFETCH)
    };
    kind_ok && mode_ok
}

/// Address of the first-level entry for `v`.
pub open spec fn l1_addr(satp: u32, v: u32) -> u32 {
    ((satp & 0x3f_ffff) << 12) | (((v >> 22) & 0x3ff) << 2)
}

/// Address of the second-level entry for `v` under the pointer `pte`.
pub open spec fn l2_addr(pte: u32, v: u32) -> u32 {
    (((pte >> 10) & 0x3f_ffff) << 12) | (((v >> 12) & 0x3ff) << 2)
}

/// Two-level walk for the page holding `v`.
pub open spec fn walk_spec(csr: Seq<u32>, mode: PrivMode, mem: PhysicalMemory, v: u32, t: i32) -> Result<u32, u32> {
    let ms = csr[CSR_MSTATUS as int];
    let pte1 = mem.read_spec(l1_addr(csr[CSR_SATP as int], v), 4);
    if !pte_valid(pte1) {
        Err(fault_cause(t))
    } else if pte_leaf(pte1) {
        if (pte1 >> 10) & 0x3ff != 0 || !perm_ok(pte1, t, mode, ms) {
            Err(fault_cause(t))
        } else {
            Ok(((pte1 >> 10) << 12) | (v & 0x3f_ffff))
        }
    } else {
        let pte2 = mem.read_spec(l2_addr(pte1, v), 4);
        if !pte_valid(pte2) || !pte_leaf(pte2) || !perm_ok(pte2, t, mode, ms) {
            Err(fault_cause(t))
        } else {
            Ok(((pte2 >> 10) << 12) | (v & 0xfff))
        }
    }
}

/// The access runs past the end of the 4 KiB page it starts in.
pub open spec fn crosses_page(v: u32, len: usize) -> bool {
    (v & 0xfff) as int + len as int > 0x1000
}

/// Translation of a whole access: both ends must translate.
pub open spec fn translate_spec(csr: Seq<u32>, mode: PrivMode, mem: PhysicalMemory, v: u32, len: usize, t: i32) -> Result<u32, u32> {
    match walk_spec(csr, mode, mem, v, t) {
        Err(c) => Err(c),
        Ok(p) => if crosses_page(v, len) {
            match walk_spec(csr, mode, mem, ((v as int + len as int - 1) % 0x1_0000_0000) as u32, t) {
                Err(c) => Err(c),
                Ok(_) => Ok(p),
            }
        } else {
            Ok(p)
        },
    }
}

/// Whether the access is translated or used as a physical address.
pub fn isa_mmu_check(cpu: &CpuState, vaddr: VAddr, len: usize, t: i32) -> (r: i32)
    requires
        cpu.wf(),
    ensures
        r == (if paging_on(cpu.csr@, cpu.mode) { MMU_TRANSLATE } else { MMU_DIRECT }),
{
    if (cpu.csr[CSR_SATP as usize] & 0x8000_0000) != 0 && cpu.mode != PrivMode::Machine {
        MMU_TRANSLATE
    } else {
        MMU_DIRECT
    }
}

fn walk(cpu: &CpuState, mem: &PhysicalMemory, v: VAddr, t: i32) -> (r: Result<PAddr, Word>)
    requires
        cpu.wf(),
        mem.wf(),
    ensures
        r == walk_spec(cpu.csr@, cpu.mode, *mem, v, t),
{
    let satp = cpu.csr[CSR_SATP as usize];
    let ms = cpu.csr[CSR_MSTATUS as usize];
    let pte1 = mem.read(((satp & 0x3f_ffff) << 12) | (((v >> 22) & 0x3ff) << 2), 4);
    if !(pte1 & 1 == 1 && !((pte1 >> 1) & 1 == 0 && (pte1 >> 2) & 1 == 1)) {
        Err(page_fault_cause(t))
    } else if (pte1 >> 1) & 7 != 0 {
        if (pte1 >> 10) & 0x3ff != 0 || !leaf_allows(pte1, t, cpu.mode, ms) {
            Err(page_fault_cause(t))
        } else {
            Ok(((pte1 >> 10) << 12) | (v & 0x3f_ffff))
        }
    } else {
        let pte2 = mem.read((((pte1 >> 10) & 0x3f_ffff) << 12) | (((v >> 12) & 0x3ff) << 2), 4);
        if !(pte2 & 1 == 1 && !((pte2 >> 1) & 1 == 0 && (pte2 >> 2) & 1 == 1)) || (pte2 >> 1) & 7 == 0
            || !leaf_allows(pte2, t, cpu.mode, ms) {
            Err(page_fault_cause(t))
        } else {
            Ok(((pte2 >> 10) << 12) | (v & 0xfff))
        }
    }
}

fn leaf_allows(pte: u32, t: i32, mode: PrivMode, mstatus: u32) -> (r: bool)
    ensures
        r == perm_ok(pte, t, mode, mstatus),
{
    let r = (pte >> 1) & 1 == 1;
    let w = (pte >> 2) & 1 == 1;
    let x = (pte >> 3) & 1 == 1;
    let u = (pte >> 4) & 1 == 1;
    let mxr = (mstatus >> 19) & 1 == 1;
    let sum = (mstatus >> 18) & 1 == 1;
    let kind_ok = if t == MEM_TYPE_IFETCH {
        x
    } else if t == MEM_TYPE_WRITE {
        w && r
    } else {
        r || (mxr && x)
    };
    let mode_ok = if mode == PrivMode::User {
        u
    } else {
        !u || (sum && t != MEM_TYPE_IFETCH)
    };
    kind_ok && mode_ok
}

/// Sv32 translation of an access of `len` bytes at `vaddr`: the physical
/// address, or the page-fault cause.
pub fn isa_mmu_translate(cpu: &CpuState, mem: &PhysicalMemory, vaddr: VAddr, len: usize, t: i32) -> (r: Result<PAddr, Word>)
    requires
        cpu.wf(),
        mem.wf(),
    ensures
        r == translate_spec(cpu.csr@, cpu.mode, *mem, vaddr, len, t),
        r.is_ok() ==> r.unwrap() & 0xfff == vaddr & 0xfff,
        r.is_ok() && pte_leaf(mem.read_spec(l1_addr(cpu.csr@[CSR_SATP as int], vaddr), 4))
            ==> r.unwrap() & 0x3f_ffff == vaddr & 0x3f_ffff,
{
    proof {
        lemma_translate_offset(cpu.csr@, cpu.mode, *mem, vaddr, len, t);
        assert(vaddr & 0xfff <= 0xfff) by (bit_vector);
    }
    match walk(cpu, mem, vaddr, t) {
        Err(c) => Err(c),
        Ok(p) => {
            if len > 0x1000 - (vaddr & 0xfff) as usize {
                let last = ((vaddr as u64 + ((len - 1) as u64 % 0x1_0000_0000)) % 0x1_0000_0000) as u32;
                proof {
                    vstd::arithmetic::div_mod::lemma_add_mod_noop(vaddr as int, (len - 1) as int, 0x1_0000_0000);
                    vstd::arithmetic::div_mod::lemma_mod_twice(vaddr as int, 0x1_0000_0000);
                    vstd::arithmetic::div_mod::lemma_small_mod(vaddr as nat, 0x1_0000_0000);
                }
                match walk(cpu, mem, last, t) {
                    Err(c) => Err(c),
                    Ok(_) => Ok(p),
                }
            } else {
                Ok(p)
            }
        },
    }
}

/// A translated address keeps the page offset of the virtual one: 22 bits
/// under a first-level (4 MiB) leaf, 12 bits otherwise.
pub proof fn lemma_translate_offset(csr: Seq<u32>, mode: PrivMode, mem: PhysicalMemory, v: u32, len: usize, t: i32)
    ensures
        ({
            let r = translate_spec(csr, mode, mem, v, len, t);
            &&& r.is_ok() ==> r.unwrap() & 0xfff == v & 0xfff
            &&& r.is_ok() && pte_leaf(mem.read_spec(l1_addr(csr[CSR_SATP as int], v), 4))
                ==> r.unwrap() & 0x3f_ffff == v & 0x3f_ffff
        }),
{
    let pte1 = mem.read_spec(l1_addr(csr[CSR_SATP as int], v), 4);
    let pte2 = mem.read_spec(l2_addr(pte1, v), 4);
    assert((pte1 >> 10) & 0x3ff == 0 ==> (((pte1 >> 10) << 12) | (v & 0x3f_ffff)) & 0x3f_ffff == v
        & 0x3f_ffff) by (bit_vector);
    assert((((pte1 >> 10) << 12) | (v & 0x3f_ffff)) & 0xfff == v & 0xfff) by (bit_vector);
    assert((((pte2 >> 10) << 12) | (v & 0xfff)) & 0xfff == v & 0xfff) by (bit_vector);
}

} // verus!
