use remu::common::PrivMode;
use remu::config::{RuntimeConfig, MBASE};
use remu::csr::{isa_csr_read, isa_csr_write, CSR_MSCRATCH, CSR_MSTATUS, CSR_SIE, CSR_SSTATUS};
use remu::decode::DecodedInst;
use remu::intr::{isa_mret, isa_raise_intr, isa_sret};
use remu::machine::Emulator;
use remu::mmu::{isa_mmu_translate, MEM_TYPE_READ};
use remu::pmem::PhysicalMemory;
use remu::ringbuffer::RingBuffer;
use remu::state::CpuState;

#[test]
fn immediates_span_their_widths() {
    let mut d = DecodedInst::new(0x8000_0013);
    d.decode_i();
    assert_eq!(d.imm, 0xFFFF_F800);
    let mut d = DecodedInst::new(0xfe00_0fa3);
    d.decode_s();
    assert_eq!(d.imm, 0xFFFF_FFFF);
    let mut d = DecodedInst::new(0x8000_0063);
    d.decode_b();
    assert_eq!(d.imm, 0xFFFF_F000);
    let mut d = DecodedInst::new(0xfff0_0037);
    d.decode_u();
    assert_eq!(d.imm, 0xFFF0_0000);
    let mut d = DecodedInst::new(0x8000_006f);
    d.decode_j();
    assert_eq!(d.imm, 0xFFF0_0000);
    assert_eq!(d.rd, 0);
    assert_eq!(d.opcode, 0x6f);
}

#[test]
fn superpage_keeps_22_bit_offset() {
    let mut mem = PhysicalMemory::new(MBASE, 0x40_0000);
    let mut cpu = CpuState::new();
    cpu.mode = PrivMode::Supervisor;
    cpu.csr[0x180] = 0x8000_0000 | (MBASE >> 12) | 0x100;
    let root = MBASE + 0x10_0000;
    // L1 entry for vaddr 0xC0000000 (vpn1 = 0x300): leaf R|W|X|V at PPN 0x80400 (4 MiB aligned)
    mem.write(root + 0x300 * 4, 4, (0x80400 << 10) | 0xF);
    let r = isa_mmu_translate(&cpu, &mem, 0xC012_3456, 4, MEM_TYPE_READ);
    assert_eq!(r, Ok(0x8052_3456));
    // 4 KiB page: L1 entry for vpn1 = 0x301 points to an L2 table
    let l2 = MBASE + 0x20_0000;
    mem.write(root + 0x301 * 4, 4, ((l2 >> 12) << 10) | 0x1);
    mem.write(l2 + 5 * 4, 4, (0x80007 << 10) | 0x3);
    let r = isa_mmu_translate(&cpu, &mem, 0xC040_5ABC, 4, MEM_TYPE_READ);
    assert_eq!(r, Ok(0x8000_7ABC));
    // misaligned superpage faults
    mem.write(root + 0x302 * 4, 4, (0x80401 << 10) | 0xF);
    assert_eq!(isa_mmu_translate(&cpu, &mem, 0xC080_0000, 4, MEM_TYPE_READ), Err(13));
}

#[test]
fn csr_reads_back_masked_writes() {
    let mut cpu = CpuState::new();
    isa_csr_write(&mut cpu, CSR_SSTATUS, 0xFFFF_FFFF);
    assert_eq!(isa_csr_read(&cpu, CSR_SSTATUS, 0, 0), 0x800D_E162);
    assert_eq!(cpu.csr[CSR_MSTATUS as usize], 0x800D_E162);
    cpu.csr[0x303] = 0x222;
    isa_csr_write(&mut cpu, CSR_SIE, 0xFFFF_FFFF);
    assert_eq!(isa_csr_read(&cpu, CSR_SIE, 0, 0), 0x222);
    isa_csr_write(&mut cpu, CSR_MSCRATCH, 0xDEAD_BEEF);
    assert_eq!(isa_csr_read(&cpu, CSR_MSCRATCH, 0, 0), 0xDEAD_BEEF);
    assert_eq!(isa_csr_read(&cpu, 0xc01, 0x1_0000_0005, 0), 5);
    assert_eq!(isa_csr_read(&cpu, 0xc81, 0x1_0000_0005, 0), 1);
}

#[test]
fn trap_then_return_restores_state() {
    let mut cpu = CpuState::new();
    cpu.csr[CSR_MSTATUS as usize] = 0x8;
    cpu.mode = PrivMode::Supervisor;
    cpu.csr[0x305] = 0x100;
    let p = isa_raise_intr(&mut cpu, 2, 0x8000_0010, 0);
    assert_eq!(p, 0x100);
    assert_eq!(cpu.mode, PrivMode::Machine);
    assert_eq!(cpu.csr[CSR_MSTATUS as usize] & 0x8, 0);
    isa_mret(&mut cpu);
    assert_eq!(cpu.mode, PrivMode::Supervisor);
    assert_eq!(cpu.pc, 0x8000_0010);
    assert_eq!(cpu.csr[CSR_MSTATUS as usize] & 0x8, 0x8);

    let mut cpu = CpuState::new();
    cpu.mode = PrivMode::User;
    cpu.csr[CSR_MSTATUS as usize] = 0x2;
    cpu.csr[0x302] = 1 << 8;
    cpu.csr[0x105] = 0x200;
    let p = isa_raise_intr(&mut cpu, 8, 0x1234, 0);
    assert_eq!(p, 0x200);
    assert_eq!(cpu.mode, PrivMode::Supervisor);
    isa_sret(&mut cpu);
    assert_eq!(cpu.mode, PrivMode::User);
    assert_eq!(cpu.pc, 0x1234);
    assert_eq!(cpu.csr[CSR_MSTATUS as usize] & 0x2, 0x2);
}

#[test]
fn ring_buffer_keeps_last_items_in_order() {
    let mut rb = RingBuffer::new(3);
    assert!(rb.is_empty());
    for i in 1..=5u32 {
        rb.push(i);
    }
    assert_eq!(rb.iter(), vec![3, 4, 5]);
    assert_eq!(rb.len(), 3);
    let mut off: RingBuffer<u32> = RingBuffer::new(0);
    off.push(1);
    assert!(off.is_empty());
}

#[test]
fn memory_write_then_read_masks_width() {
    let mut mem = PhysicalMemory::new(MBASE, 0x1000);
    mem.write(MBASE + 8, 2, 0xABCD_1234);
    assert_eq!(mem.read(MBASE + 8, 2), 0x1234);
    mem.write(0x2000_0010, 1, 0x1FF);
    assert_eq!(mem.read(0x2000_0010, 1), 0xFF);
    mem.write(0x0F00_0100, 4, 0xCAFE_F00D);
    assert_eq!(mem.read(0x0F00_0100, 4), 0xCAFE_F00D);
    assert_eq!(mem.read(0x0F00_0100, 1), 0x0D);
    // an access that runs off the end of RAM is not backed
    assert_eq!(mem.read(MBASE + 0xFFE, 4), 0);
}

#[test]
fn x0_stays_zero_through_a_run() {
    let cfg = RuntimeConfig::default();
    let mut emu = Emulator::new(&cfg, false);
    let img: Vec<u8> = [0x00100013u32, 0x00000037, 0x00000017, 0x0040006f, 0x00100073]
        .iter()
        .flat_map(|w| w.to_le_bytes())
        .collect();
    emu.load_img(Some(&img)).unwrap();
    emu.cpu_exec(10);
    assert_eq!(emu.cpu.gpr[0], 0);
    assert_eq!(emu.state.halt_pc, MBASE + 16);
}
