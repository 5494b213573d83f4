use remu::disasm::disasm;

#[test]
fn test_disasm_basic() {
    assert_eq!(disasm(0x00000297, 0), "auipc\tt0, 0x0");
    assert_eq!(disasm(0x00028823, 0), "sb\tzero, 0x10(t0)");
    assert_eq!(disasm(0x0102c503, 0), "lbu\ta0, 0x10(t0)");
    assert_eq!(disasm(0x00100073, 0), "ebreak");
}

#[test]
fn disasm_register_and_immediate_forms() {
    assert_eq!(disasm(0xfff00113, 0), "addi\tsp, zero, 0xffffffff");
    assert_eq!(disasm(0x00008067, 0), "ret");
    assert_eq!(disasm(0x40b50533, 0), "sub\ta0, a0, a1");
    assert_eq!(disasm(0x02b50533, 0), "mul\ta0, a0, a1");
    assert_eq!(disasm(0x00000463, 0), "beq\tzero, zero, 0x8");
    assert_eq!(disasm(0x00000073, 0), "ecall");
    assert_eq!(disasm(0x30200073, 0), "mret");
    assert_eq!(disasm(0x100522af, 0), "lr.w\tt0, (a0)");
    assert_eq!(disasm(0x00000000, 0), "unknown 0x0");
}
