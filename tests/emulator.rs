use remu::common::{PrivMode, RemuState};
use remu::config::{RuntimeConfig, MBASE};
use remu::machine::Emulator;

fn words_to_bytes(words: &[u32]) -> Vec<u8> {
    let mut v = Vec::new();
    for w in words {
        v.extend_from_slice(&w.to_le_bytes());
    }
    v
}

fn machine_with(words: &[u32]) -> Emulator {
    let cfg = RuntimeConfig::default();
    let mut emu = Emulator::new(&cfg, true);
    let img = words_to_bytes(words);
    emu.load_img(Some(&img)).unwrap();
    emu
}

#[test]
fn builtin_image_hits_good_trap() {
    let cfg = RuntimeConfig::default();
    let mut emu = Emulator::new(&cfg, true);
    emu.load_img(None).unwrap();
    assert_eq!(emu.mem.pmem[0..16], [0x97, 0x02, 0x00, 0x00, 0x23, 0x88, 0x02, 0x00, 0x03, 0xc5, 0x02, 0x01, 0x73, 0x00, 0x10, 0x00]);
    assert!(emu.cpu_exec(u64::MAX));
    assert_eq!(emu.state.state, RemuState::End);
    assert_eq!(emu.state.halt_pc, MBASE + 0xC);
    assert_eq!(emu.cpu.gpr[10], 0);
    assert!(emu.trap_message().contains("HIT GOOD TRAP"));
    emu.finish_run();
    assert!(!emu.is_exit_status_bad());
}

#[test]
fn finished_run_is_not_restarted() {
    let mut emu = machine_with(&[0x00100073]);
    assert!(emu.cpu_exec(10));
    assert_eq!(emu.state.state, RemuState::End);
    assert!(!emu.cpu_exec(10));
}

#[test]
fn addi_sign_extends() {
    let mut emu = machine_with(&[0xfff00113]);
    emu.cpu_exec(1);
    assert_eq!(emu.cpu.gpr[2], 0xFFFF_FFFF);
    assert_eq!(emu.cpu.pc, MBASE + 4);
}

#[test]
fn store_then_load_word_round_trip() {
    let mut emu = machine_with(&[0x800012b7, 0x00001337, 0x23430313, 0x0062a023, 0x0002a383, 0x00100073]);
    emu.cpu_exec(100);
    assert_eq!(emu.cpu.gpr[6], 0x1234);
    assert_eq!(emu.cpu.gpr[7], 0x1234);
    assert_eq!(emu.state.state, RemuState::End);
}

#[test]
fn branch_taken_skips_instruction() {
    let mut emu = machine_with(&[0x00000463, 0x00100513, 0x00200513, 0x00100073]);
    emu.cpu_exec(100);
    assert_eq!(emu.cpu.gpr[10], 2);
    assert_eq!(emu.state.state, RemuState::End);
    emu.finish_run();
    assert!(emu.trap_message().contains("HIT BAD TRAP"));
    assert!(emu.is_exit_status_bad());
}

#[test]
fn ecall_from_s_mode_is_delegated() {
    let mut emu = machine_with(&[0x00000073]);
    emu.cpu.mode = PrivMode::Supervisor;
    emu.cpu.csr[0x302] = 1 << 9;
    emu.cpu.csr[0x105] = 0x8000_0100;
    emu.cpu_exec(1);
    assert_eq!(emu.cpu.mode, PrivMode::Supervisor);
    assert_eq!(emu.cpu.csr[0x142], 9);
    assert_eq!(emu.cpu.csr[0x141], MBASE);
    assert_eq!(emu.cpu.pc, 0x8000_0100);
    assert_eq!((emu.cpu.csr[0x300] >> 8) & 1, 1);
}

#[test]
fn load_from_invalid_page_faults() {
    let mut emu = machine_with(&[]);
    emu.cpu.mode = PrivMode::Supervisor;
    emu.cpu.csr[0x180] = 0x8000_0000 | 0x80100;
    emu.cpu.csr[0x305] = 0x8000_0200;
    emu.cpu.gpr[5] = 0xC000_0000;
    let pc = 0x8000_0040;
    emu.decode_exec(0x0002a383, pc);
    assert_eq!(emu.cpu.csr[0x342], 13);
    assert_eq!(emu.cpu.csr[0x343], 0xC000_0000);
    assert_eq!(emu.cpu.csr[0x341], pc);
    assert_eq!(emu.cpu.pc, 0x8000_0200);
    assert_eq!(emu.cpu.mode, PrivMode::Machine);
}

#[test]
fn writes_to_x0_are_dropped() {
    let mut emu = machine_with(&[0x00500013, 0x00100033]);
    emu.cpu_exec(2);
    assert_eq!(emu.cpu.gpr[0], 0);
    assert_eq!(emu.cpu.pc, MBASE + 8);
}

#[test]
fn unknown_opcode_aborts() {
    let mut emu = machine_with(&[0x0000_0000]);
    emu.cpu_exec(5);
    assert_eq!(emu.state.state, RemuState::Abort);
    assert_eq!(emu.cpu.pc, MBASE);
    assert!(emu.trap_message().contains("ABORT"));
}

#[test]
fn division_edge_cases() {
    // li a0,-2^31 ; li a1,-1 ; div a2,a0,a1 ; rem a3,a0,a1 ; div a4,a0,zero ; remu a5,a0,zero
    let mut emu = machine_with(&[0x80000537, 0xfff00593, 0x02b54633, 0x02b566b3, 0x02054733, 0x020577b3, 0x00100073]);
    emu.cpu_exec(100);
    assert_eq!(emu.cpu.gpr[12], 0x8000_0000);
    assert_eq!(emu.cpu.gpr[13], 0);
    assert_eq!(emu.cpu.gpr[14], 0xFFFF_FFFF);
    assert_eq!(emu.cpu.gpr[15], 0x8000_0000);
}

#[test]
fn multiply_high_words() {
    // li a0,-2 ; li a1,3 ; mulh a2 ; mulhu a3 ; mulhsu a4 ; mul a5
    let mut emu = machine_with(&[0xffe00513, 0x00300593, 0x02b51633, 0x02b536b3, 0x02b52733, 0x02b507b3, 0x00100073]);
    emu.cpu_exec(100);
    assert_eq!(emu.cpu.gpr[12], 0xFFFF_FFFF);
    assert_eq!(emu.cpu.gpr[13], 2);
    assert_eq!(emu.cpu.gpr[14], 0xFFFF_FFFF);
    assert_eq!(emu.cpu.gpr[15], 0xFFFF_FFFA);
}

#[test]
fn csrrw_returns_old_value_and_csrrs_zero_does_not_write() {
    // li a0,5 ; csrrw a1,mscratch,a0 ; csrrs a2,mscratch,zero ; ebreak
    let mut emu = machine_with(&[0x00500513, 0x340515f3, 0x34002673, 0x00100073]);
    emu.cpu.csr[0x340] = 7;
    emu.cpu_exec(100);
    assert_eq!(emu.cpu.gpr[11], 7);
    assert_eq!(emu.cpu.gpr[12], 5);
    assert_eq!(emu.cpu.csr[0x340], 5);
}

#[test]
fn amo_add_returns_old_word() {
    // lui a0,0x80001 ; li a1,3 ; sw a1,0(a0) ; li a2,4 ; amoadd.w a3,a2,(a0) ; lw a4,0(a0)
    let mut emu = machine_with(&[0x80001537, 0x00300593, 0x00b52023, 0x00400613, 0x00c526af, 0x00052703, 0x00100073]);
    emu.cpu_exec(100);
    assert_eq!(emu.cpu.gpr[13], 3);
    assert_eq!(emu.cpu.gpr[14], 7);
}

#[test]
fn timer_interrupt_is_taken_when_enabled() {
    let mut emu = machine_with(&[0x00000013]);
    emu.cpu.csr[0x300] |= 1 << 3;
    emu.cpu.csr[0x304] = 1 << 7;
    emu.cpu.csr[0x305] = 0x8000_0300;
    emu.clint.mtimecmp = 10;
    emu.set_time(20);
    emu.cpu_exec(1);
    assert_eq!(emu.cpu.csr[0x342], 0x8000_0007);
    assert_eq!(emu.cpu.csr[0x341], MBASE);
    assert_eq!(emu.cpu.pc, 0x8000_0300);
    assert_eq!((emu.cpu.csr[0x300] >> 3) & 1, 0);
    assert_eq!((emu.cpu.csr[0x300] >> 7) & 1, 1);
}

#[test]
fn serial_output_is_queued() {
    // lui a0,0xa0000 ; li a1,72 ; sb a1,0x3f8(a0) ; ebreak
    let mut emu = machine_with(&[0xa0000537, 0x04800593, 0x3eb50c23, 0x00100073]);
    emu.cpu_exec(100);
    assert_eq!(emu.serial.take_output(), vec![72u8]);
}

#[test]
fn image_outside_memory_is_refused() {
    let cfg = RuntimeConfig::default();
    let mut emu = Emulator::new(&cfg, false);
    let r = emu.mem.load_image(&vec![1, 2, 3, 4], 0x1000_0000);
    assert_eq!(r, Err("Cannot load image at invalid address 0x10000000".to_string()));
}
