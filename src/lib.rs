//! A single-hart RV32IMA emulator core: decoder, executor, CSR bank, trap
//! logic, Sv32 page walker, physical memory, MMIO devices and trace buffers.

pub mod common;
pub mod decode;
pub mod config;
pub mod state;
pub mod csr;
pub mod intr;
pub mod pmem;
pub mod mmu;
pub mod ringbuffer;
pub mod alu;
pub mod device;
pub mod mmio;
pub mod trace;
pub mod machine;
pub mod inst;
pub mod engine;
pub mod disasm;
pub mod sdb;
pub mod render;
pub mod keymap;
