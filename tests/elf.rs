use remu::trace::FTrace;

fn push32(v: &mut Vec<u8>, x: u32) {
    v.extend_from_slice(&x.to_le_bytes());
}

fn push16(v: &mut Vec<u8>, x: u16) {
    v.extend_from_slice(&x.to_le_bytes());
}

/// A minimal 32-bit RISC-V ELF image whose symbol table holds one function,
/// `main`, at 0x80000000 with size 16, and one data object.
fn tiny_elf() -> Vec<u8> {
    let mut v = Vec::new();
    v.extend_from_slice(&[0x7f, b'E', b'L', b'F', 1, 1, 1, 0, 0, 0, 0, 0, 0, 0, 0, 0]);
    push16(&mut v, 2);
    push16(&mut v, 0xf3);
    push32(&mut v, 1);
    push32(&mut v, 0x8000_0000);
    push32(&mut v, 0);
    push32(&mut v, 140);
    push32(&mut v, 0);
    push16(&mut v, 52);
    push16(&mut v, 32);
    push16(&mut v, 0);
    push16(&mut v, 40);
    push16(&mut v, 4);
    push16(&mut v, 3);
    assert_eq!(v.len(), 52);
    // .strtab at 52: "\0main\0buf\0"
    v.extend_from_slice(b"\0main\0buf\0");
    while v.len() < 64 {
        v.push(0);
    }
    // .symtab at 64: null, main (FUNC), buf (OBJECT)
    v.extend_from_slice(&[0u8; 16]);
    push32(&mut v, 1);
    push32(&mut v, 0x8000_0000);
    push32(&mut v, 16);
    v.push(0x12);
    v.push(0);
    push16(&mut v, 0xfff1);
    push32(&mut v, 6);
    push32(&mut v, 0x8000_1000);
    push32(&mut v, 4);
    v.push(0x11);
    v.push(0);
    push16(&mut v, 0xfff1);
    assert_eq!(v.len(), 112);
    // .shstrtab at 112
    v.extend_from_slice(b"\0.symtab\0.strtab\0.shstrtab\0");
    while v.len() < 140 {
        v.push(0);
    }
    let sections: [[u32; 10]; 4] = [
        [0; 10],
        [1, 2, 0, 0, 64, 48, 2, 1, 4, 16],
        [9, 3, 0, 0, 52, 10, 0, 0, 1, 0],
        [17, 3, 0, 0, 112, 27, 0, 0, 1, 0],
    ];
    for s in sections.iter() {
        for x in s.iter() {
            push32(&mut v, *x);
        }
    }
    v
}

#[test]
fn elf_function_symbols_are_loaded() {
    let mut f = FTrace::new(4);
    assert!(f.load_elf(&tiny_elf()));
    assert_eq!(f.symbols.len(), 1);
    assert_eq!(f.symbols[0].name, "main");
    assert_eq!(f.symbols[0].addr, 0x8000_0000);
    assert_eq!(f.symbols[0].size, 16);
    assert_eq!(f.find_symbol(0x8000_000c), Some(0));
}

#[test]
fn non_elf_bytes_are_refused() {
    let mut f = FTrace::new(4);
    assert!(!f.load_elf(&b"not an elf image".to_vec()));
    assert!(f.symbols.is_empty());
}
