use remu::common::{group_thousands, RemuState};
use remu::config::RuntimeConfig;
use remu::machine::Emulator;
use remu::pmem::PhysicalMemory;
use remu::trace::FTrace;

#[test]
fn symbols_are_kept_in_address_order() {
    let mut f = FTrace::new(4);
    f.load_symbols(&vec![
        (0x8000_0300, 0x10, 2, Some("late".to_string())),
        (0x8000_0100, 0x10, 2, Some("early".to_string())),
        (0x8000_0100, 0x40, 2, Some("early_alias".to_string())),
        (0x8000_0200, 0x10, 2, Some("middle".to_string())),
    ]);
    let names: Vec<&str> = f.symbols.iter().map(|s| s.name.as_str()).collect();
    assert_eq!(names, vec!["early", "early_alias", "middle", "late"]);
    assert_eq!(f.find_symbol(0x8000_0104), Some(0));
    assert_eq!(f.find_symbol(0x8000_0120), Some(1));
}

#[test]
fn thousands_are_grouped() {
    assert_eq!(group_thousands(0), "0");
    assert_eq!(group_thousands(999), "999");
    assert_eq!(group_thousands(1000), "1,000");
    assert_eq!(group_thousands(1_234_567), "1,234,567");
    assert_eq!(group_thousands(10_005), "10,005");
}

#[test]
fn exhausted_run_stops_and_halted_run_keeps_end() {
    let cfg = RuntimeConfig::default();
    let mut emu = Emulator::new(&cfg, false);
    let img: Vec<u8> = [0x00000013u32, 0x00000013, 0x00100073].iter().flat_map(|w| w.to_le_bytes()).collect();
    emu.load_img(Some(&img)).unwrap();
    assert_eq!(emu.reset_pc, cfg.mbase);
    assert!(emu.cpu_exec(1));
    assert_eq!(emu.state.state, RemuState::Running);
    emu.end_run();
    assert_eq!(emu.state.state, RemuState::Stop);
    assert!(emu.cpu_exec(10));
    emu.end_run();
    assert_eq!(emu.state.state, RemuState::End);
    assert_eq!(emu.inst_count, 3);
}

#[test]
fn ram_may_sit_below_the_boot_rom() {
    let mut mem = PhysicalMemory::new(0x1000_0000, 0x1000);
    mem.write(0x1000_0010, 4, 0x1234_5678);
    assert_eq!(mem.read(0x1000_0010, 4), 0x1234_5678);
}
