use remu::common::{colored, fmt_paddr, fmt_word, PrivMode, ANSI_FG_RED};
use remu::config::{reset_vector, RuntimeConfig};
use remu::device::{rtc_callback, Clint, DeviceKind, IntrState, Keyboard, SerialDevice, VgaState};
use remu::engine::builtin_image;
use remu::keymap::{keymap, AM_KEY_A, AM_KEY_ESCAPE, AM_KEY_NONE, AM_KEY_PAGEDOWN};
use remu::machine::{Emulator, GlobalState};
use remu::mmio::MmioRegistry;
use remu::sdb::{handle_command, parse_u64, Command};
use remu::trace::{DTraceEntry, EcallTraceEntry, FTrace, IntrTraceEntry, ItraceEntry, MTraceEntry, MmuTraceEntry, Traces};

#[test]
fn words_format_as_eight_hex_digits() {
    assert_eq!(fmt_word(0x1a), "0x0000001a");
    assert_eq!(fmt_paddr(0x8000_0000), "0x80000000");
    assert_eq!(colored("x", ANSI_FG_RED), "\x1b[31mx\x1b[0m");
    assert_eq!(reset_vector(&RuntimeConfig::default()), 0x8000_0000);
}

#[test]
fn debugger_commands_parse() {
    let p = |s: &str| handle_command(&s.as_bytes().to_vec());
    assert_eq!(p(""), Command::Empty);
    assert_eq!(p("  c \n"), Command::Continue);
    assert_eq!(p("continue"), Command::Continue);
    assert_eq!(p("q"), Command::Quit);
    assert_eq!(p("si"), Command::Step(1));
    assert_eq!(p("si 25"), Command::Step(25));
    assert_eq!(p("si +7"), Command::Step(7));
    assert_eq!(p("si x"), Command::Step(1));
    assert_eq!(p("si 18446744073709551616"), Command::Step(1));
    assert_eq!(p("info r"), Command::InfoRegs);
    assert_eq!(p("info"), Command::InfoNone);
    assert_eq!(p("info w"), Command::InfoUnknown);
    assert_eq!(p("help"), Command::Help);
    assert_eq!(p("foo bar"), Command::Unknown(b"foo".to_vec()));
    assert_eq!(parse_u64(&b"18446744073709551615".to_vec()), Some(u64::MAX));
}

#[test]
fn trace_entries_render() {
    assert_eq!(MTraceEntry { addr: 0x8000_0010, len: 4, data: 0x1234, is_write: true }.to_string(), "write at 0x80000010 len=4 data=0x00001234");
    assert_eq!(DTraceEntry { addr: 0x0200_0000, len: 4, data: 0, is_write: true, device: DeviceKind::Clint }.to_string(), "WriteMMIO: clint, addr: 0x2000000, data: 0x0");
    assert_eq!(DTraceEntry { addr: 0xa000_03fd, len: 1, data: 0x20, is_write: false, device: DeviceKind::Serial }.to_string(), "ReadMMIO: serial, addr: 0xa00003fd");
    assert_eq!(IntrTraceEntry { cause: 3, epc: 0x8001_cc94, is_intr: false }.to_string(), "Intr: Cause=3 EPC=0x8001cc94");
    assert_eq!(MmuTraceEntry { vaddr: 0xc034_953c, paddr: 0x8074_953c, type_: 0, success: true }.to_string(), "MMU Success: vaddr=0xc034953c -> paddr=0x8074953c type=0");
    assert_eq!(MmuTraceEntry { vaddr: 0xc000_0000, paddr: 0, type_: 1, success: false }.to_string(), "MMU Fail: vaddr=0xc0000000 type=1");
    assert_eq!(EcallTraceEntry { pc: 0x8000_0000, cause: 9, mode: 1 }.to_string(), "ECALL: Mode=Supervisor Cause=9 @ PC=0x80000000");
    assert_eq!(ItraceEntry { pc: 0x8000_0000, inst: 0x00100073 }.to_string(), "0x80000000: 73 00 10 00 ebreak");
}

#[test]
fn trace_channels_list_in_order() {
    let mut t = Traces::new(true);
    assert_eq!(t.show_itrace(), vec!["Ringbuffer no element.".to_string()]);
    t.log_inst(0x8000_0000, 0x00000297);
    t.trace_intr(3, 0x8000_0004, false);
    assert_eq!(t.show_itrace(), vec!["--- RingBuffer Content ---".to_string(), "0x80000000: 97 02 00 00 auipc\tt0, 0x0".to_string(), "--------------------------".to_string()]);
    assert_eq!(t.show_intr_trace()[1], "Intr: Cause=3 EPC=0x80000004");
    assert_eq!(t.show_mmu_trace(), vec!["--- RingBuffer Content ---".to_string(), "(empty)".to_string(), "--------------------------".to_string()]);
    assert!(t.print_trace_summary().len() > 10);
    assert!(Traces::new(false).print_trace_summary().is_empty());
}

#[test]
fn function_trace_names_symbols() {
    let mut f = FTrace::new(8);
    f.load_symbols(&vec![
        (0x8000_0000, 0x10, 2, Some("main".to_string())),
        (0x8000_0100, 0x10, 1, Some("data".to_string())),
        (0x8000_0200, 0x20, 2, None),
        (0x8000_0300, 0x20, 2, Some("helper".to_string())),
    ]);
    assert_eq!(f.symbols.len(), 2);
    assert_eq!(f.find_symbol(0x8000_0304), Some(1));
    assert_eq!(f.find_symbol(0x8000_0100), None);
    f.trace_call(0x8000_0004, 0x8000_0300);
    f.trace_ret(0x8000_0308);
    let items = f.buf.iter();
    assert_eq!(items[0].to_string(&f), "call [helper] @ 0x80000300");
    assert_eq!(items[1].to_string(&f), "ret [helper]");
    assert_eq!(f.call_depth, 0);
    assert!(!f.load_elf(&vec![1, 2, 3, 4]));
    assert_eq!(f.symbols.len(), 2);
}

#[test]
fn keys_map_to_keyboard_codes() {
    assert_eq!(keymap(41), AM_KEY_ESCAPE);
    assert_eq!(keymap(4), AM_KEY_A);
    assert_eq!(keymap(78), AM_KEY_PAGEDOWN);
    assert_eq!(keymap(1000), AM_KEY_NONE);
    let mut k = Keyboard::new();
    k.send_key(AM_KEY_A, true);
    k.send_key(AM_KEY_A, false);
    assert_eq!(k.i8042_callback(false), AM_KEY_A | 0x8000);
    assert_eq!(k.i8042_callback(false), AM_KEY_A);
    assert_eq!(k.i8042_callback(false), 0);
}

#[test]
fn devices_answer_their_registers() {
    let mut c = Clint::new();
    c.clint_callback(0x4000, true, 100, 0);
    c.clint_callback(0x4004, true, 1, 0);
    assert_eq!(c.mtimecmp, 0x1_0000_0064);
    assert_eq!(c.clint_callback(0x4004, false, 0, 0), 1);
    assert_eq!(c.clint_callback(0xbff8, false, 0, 0x2_0000_0007), 7);
    c.clint_callback(0, true, 1, 0);
    assert_eq!(c.get_mip_status(0), 0x8);
    assert_eq!(c.get_mip_status(0x1_0000_0064), 0x88);
    assert_eq!(rtc_callback(4, false, 0x3_0000_0001), 3);
    let mut i = IntrState::new();
    i.set_seip(true);
    assert_eq!(i.get_intr_state(), 0x200);
    assert_eq!(remu::device::plic_callback(0x20_1004, false, i.get_intr_state()), 10);
    i.set_seip(false);
    assert_eq!(i.get_intr_state(), 0);
    let s = SerialDevice::new();
    assert_eq!(s.read(5), 0x20);
    let mut v = VgaState::new();
    assert_eq!(v.vga_ctl_callback(0, false, 0), (400 << 16) | 300);
    v.vga_ctl_callback(4, true, 1);
    assert!(v.take_frame_request());
    assert!(!v.take_frame_request());
    assert_eq!(v.vmem_callback(0, 4, false, 0), 0xFFAA_00AA);
    v.vmem_callback(8, 2, true, 0xBEEF);
    assert_eq!(v.vmem_callback(8, 2, false, 0), 0xBEEF);
}

#[test]
fn mmio_ranges_do_not_overlap() {
    let mut m = MmioRegistry::init_mmio();
    assert!(m.register_checked("a", 0x1000, 0x100, DeviceKind::Disk));
    assert!(!m.register_checked("b", 0x10ff, 0x10, DeviceKind::Disk));
    assert!(m.register_checked("c", 0x1100, 0x10, DeviceKind::Rtc));
    assert_eq!(m.find(0x1105), Some(1));
    assert_eq!(m.find(0x2000), None);
    assert_eq!(m.maps[1].name, "c");
}

#[test]
fn machine_state_and_images() {
    let mut g = GlobalState::new();
    g.set_halt(4, -1);
    assert_eq!(g.halt_ret, -1);
    assert_eq!(builtin_image().len(), 16);
    let cfg = RuntimeConfig::default();
    let mut emu = Emulator::new(&cfg, false);
    assert_eq!(emu.cpu.mode, PrivMode::Machine);
    assert_eq!(emu.cpu.csr[0x300], 0x1800);
    assert_eq!(emu.cpu.csr[0x301], 0x4004_1101);
    emu.set_time(0x1_0000_0002);
    assert_eq!(emu.csr_read(0xc01), 2);
    assert_eq!(emu.paddr_read(0xa000_0048, 4), 2);
    emu.paddr_write(0xa000_03f8, 1, 65);
    assert_eq!(emu.serial.take_output(), vec![65u8]);
}
