use vstd::prelude::*;
use vstd::string::StringExecFns;
use crate::alu::sra;
use crate::common::{hex_text, push_hex, Word};
use crate::decode::{funct3_of, funct7_of, imm_b, imm_i, imm_j, imm_s, imm_u, opcode_of, rd_of, rs1_of, rs2_of};

verus! {

/// ABI name of register `r` (below 32).
pub open spec fn reg_name_spec(r: u32) -> Seq<char> {
    if r == 0 {
        "zero"@
    } else if r == 1 {
        "ra"@
    } else if r == 2 {
        "sp"@
    } else if r == 3 {
        "gp"@
    } else if r == 4 {
        "tp"@
    } else if r == 5 {
        "t0"@
    } else if r == 6 {
        "t1"@
    } else if r == 7 {
        "t2"@
    } else if r == 8 {
        "s0"@
    } else if r == 9 {
        "s1"@
    } else if r == 10 {
        "a0"@
    } else if r == 11 {
        "a1"@
    } else if r == 12 {
        "a2"@
    } else if r == 13 {
        "a3"@
    } else if r == 14 {
        "a4"@
    } else if r == 15 {
        "a5"@
    } else if r == 16 {
        "a6"@
    } else if r == 17 {
        "a7"@
    } else if r == 18 {
        "s2"@
    } else if r == 19 {
        "s3"@
    } else if r == 20 {
        "s4"@
    } else if r == 21 {
        "s5"@
    } else if r == 22 {
        "s6"@
    } else if r == 23 {
        "s7"@
    } else if r == 24 {
        "s8"@
    } else if r == 25 {
        "s9"@
    } else if r == 26 {
        "s10"@
    } else if r == 27 {
        "s11"@
    } else if r == 28 {
        "t3"@
    } else if r == 29 {
        "t4"@
    } else if r == 30 {
        "t5"@
    } else {
        "t6"@
    }
}

/// ABI name of register `r & 31`.
pub fn reg_name(r: u32) -> (s: &'static str)
    ensures
        s@ == reg_name_spec(r & 0x1f),
{
    match r & 0x1f {
        0 => "zero",
        1 => "ra",
        2 => "sp",
        3 => "gp",
        4 => "tp",
        5 => "t0",
        6 => "t1",
        7 => "t2",
        8 => "s0",
        9 => "s1",
        10 => "a0",
        11 => "a1",
        12 => "a2",
        13 => "a3",
        14 => "a4",
        15 => "a5",
        16 => "a6",
        17 => "a7",
        18 => "s2",
        19 => "s3",
        20 => "s4",
        21 => "s5",
        22 => "s6",
        23 => "s7",
        24 => "s8",
        25 => "s9",
        26 => "s10",
        27 => "s11",
        28 => "t3",
        29 => "t4",
        30 => "t5",
        _ => "t6",
    }
}

/// `0x` and the hexadecimal digits of `v`, as `{:#x}` prints a 32-bit value.
pub open spec fn hex_lit(v: u32) -> Seq<char> {
    "0x"@ + hex_text(v)
}

fn hex_lit_string(v: u32) -> (r: String)
    ensures
        r@ == hex_lit(v),
{
    let mut s = String::new();
    s.append("0x");
    push_hex(&mut s, v);
    s
}

/// `m<TAB>a, b`
pub open spec fn two_ops(m: Seq<char>, a: Seq<char>, b: Seq<char>) -> Seq<char> {
    m + "\t"@ + a + ", "@ + b
}

/// `m<TAB>a, b, c`
pub open spec fn three_ops(m: Seq<char>, a: Seq<char>, b: Seq<char>, c: Seq<char>) -> Seq<char> {
    m + "\t"@ + a + ", "@ + b + ", "@ + c
}

/// `m<TAB>a, off(base)`
pub open spec fn mem_op(m: Seq<char>, a: Seq<char>, off: Seq<char>, base: Seq<char>) -> Seq<char> {
    m + "\t"@ + a + ", "@ + off + "("@ + base + ")"@
}

/// `m<TAB>a, (base)`
pub open spec fn lr_op(m: Seq<char>, a: Seq<char>, base: Seq<char>) -> Seq<char> {
    m + "\t"@ + a + ", ("@ + base + ")"@
}

/// `m<TAB>a, b, (base)`
pub open spec fn amo_op(m: Seq<char>, a: Seq<char>, b: Seq<char>, base: Seq<char>) -> Seq<char> {
    m + "\t"@ + a + ", "@ + b + ", ("@ + base + ")"@
}

fn fmt_two(m: &str, a: &str, b: &str) -> (r: String)
    ensures
        r@ == two_ops(m@, a@, b@),
{
    let mut s = String::new();
    s.append(m);
    s.append("\t");
    s.append(a);
    s.append(", ");
    s.append(b);
    assert(s@ =~= two_ops(m@, a@, b@));
    s
}

fn fmt_three(m: &str, a: &str, b: &str, c: &str) -> (r: String)
    ensures
        r@ == three_ops(m@, a@, b@, c@),
{
    let mut s = String::new();
    s.append(m);
    s.append("\t");
    s.append(a);
    s.append(", ");
    s.append(b);
    s.append(", ");
    s.append(c);
    assert(s@ =~= three_ops(m@, a@, b@, c@));
    s
}

fn fmt_mem(m: &str, a: &str, off: &str, base: &str) -> (r: String)
    ensures
        r@ == mem_op(m@, a@, off@, base@),
{
    let mut s = String::new();
    s.append(m);
    s.append("\t");
    s.append(a);
    s.append(", ");
    s.append(off);
    s.append("(");
    s.append(base);
    s.append(")");
    assert(s@ =~= mem_op(m@, a@, off@, base@));
    s
}

fn fmt_lr(m: &str, a: &str, base: &str) -> (r: String)
    ensures
        r@ == lr_op(m@, a@, base@),
{
    let mut s = String::new();
    s.append(m);
    s.append("\t");
    s.append(a);
    s.append(", (");
    s.append(base);
    s.append(")");
    assert(s@ =~= lr_op(m@, a@, base@));
    s
}

fn fmt_amo(m: &str, a: &str, b: &str, base: &str) -> (r: String)
    ensures
        r@ == amo_op(m@, a@, b@, base@),
{
    let mut s = String::new();
    s.append(m);
    s.append("\t");
    s.append(a);
    s.append(", ");
    s.append(b);
    s.append(", (");
    s.append(base);
    s.append(")");
    assert(s@ =~= amo_op(m@, a@, b@, base@));
    s
}

pub open spec fn branch_mnem(f3: u32) -> Seq<char> {
    if f3 == 0 {
        "beq"@
    } else if f3 == 1 {
        "bne"@
    } else if f3 == 4 {
        "blt"@
    } else if f3 == 5 {
        "bge"@
    } else if f3 == 6 {
        "bltu"@
    } else if f3 == 7 {
        "bgeu"@
    } else {
        "unknown"@
    }
}

fn branch_mnemonic(f3: u32) -> (r: &'static str)
    ensures
        r@ == branch_mnem(f3),
{
    if f3 == 0 {
        "beq"
    } else if f3 == 1 {
        "bne"
    } else if f3 == 4 {
        "blt"
    } else if f3 == 5 {
        "bge"
    } else if f3 == 6 {
        "bltu"
    } else if f3 == 7 {
        "bgeu"
    } else {
        "unknown"
    }
}

pub open spec fn load_mnem(f3: u32) -> Seq<char> {
    if f3 == 0 {
        "lb"@
    } else if f3 == 1 {
        "lh"@
    } else if f3 == 2 {
        "lw"@
    } else if f3 == 4 {
        "lbu"@
    } else if f3 == 5 {
        "lhu"@
    } else {
        "unknown"@
    }
}

fn load_mnemonic(f3: u32) -> (r: &'static str)
    ensures
        r@ == load_mnem(f3),
{
    if f3 == 0 {
        "lb"
    } else if f3 == 1 {
        "lh"
    } else if f3 == 2 {
        "lw"
    } else if f3 == 4 {
        "lbu"
    } else if f3 == 5 {
        "lhu"
    } else {
        "unknown"
    }
}

pub open spec fn store_mnem(f3: u32) -> Seq<char> {
    if f3 == 0 {
        "sb"@
    } else if f3 == 1 {
        "sh"@
    } else if f3 == 2 {
        "sw"@
    } else {
        "unknown"@
    }
}

fn store_mnemonic(f3: u32) -> (r: &'static str)
    ensures
        r@ == store_mnem(f3),
{
    if f3 == 0 {
        "sb"
    } else if f3 == 1 {
        "sh"
    } else if f3 == 2 {
        "sw"
    } else {
        "unknown"
    }
}

pub open spec fn reg_mnem(f7: u32, f3: u32) -> Seq<char> {
    if f7 == 0 && f3 == 0 {
        "add"@
    } else if f7 == 0x20 && f3 == 0 {
        "sub"@
    } else if f7 == 0 && f3 == 1 {
        "sll"@
    } else if f7 == 0 && f3 == 2 {
        "slt"@
    } else if f7 == 0 && f3 == 3 {
        "sltu"@
    } else if f7 == 0 && f3 == 4 {
        "xor"@
    } else if f7 == 0 && f3 == 5 {
        "srl"@
    } else if f7 == 0x20 && f3 == 5 {
        "sra"@
    } else if f7 == 0 && f3 == 6 {
        "or"@
    } else if f7 == 0 && f3 == 7 {
        "and"@
    } else if f7 == 1 && f3 == 0 {
        "mul"@
    } else if f7 == 1 && f3 == 1 {
        "mulh"@
    } else if f7 == 1 && f3 == 2 {
        "mulhsu"@
    } else if f7 == 1 && f3 == 3 {
        "mulhu"@
    } else if f7 == 1 && f3 == 4 {
        "div"@
    } else if f7 == 1 && f3 == 5 {
        "divu"@
    } else if f7 == 1 && f3 == 6 {
        "rem"@
    } else if f7 == 1 && f3 == 7 {
        "remu"@
    } else {
        "unknown"@
    }
}

fn reg_mnemonic(f7: u32, f3: u32) -> (r: &'static str)
    ensures
        r@ == reg_mnem(f7, f3),
{
    if f7 == 0 && f3 == 0 {
        "add"
    } else if f7 == 0x20 && f3 == 0 {
        "sub"
    } else if f7 == 0 && f3 == 1 {
        "sll"
    } else if f7 == 0 && f3 == 2 {
        "slt"
    } else if f7 == 0 && f3 == 3 {
        "sltu"
    } else if f7 == 0 && f3 == 4 {
        "xor"
    } else if f7 == 0 && f3 == 5 {
        "srl"
    } else if f7 == 0x20 && f3 == 5 {
        "sra"
    } else if f7 == 0 && f3 == 6 {
        "or"
    } else if f7 == 0 && f3 == 7 {
        "and"
    } else if f7 == 1 && f3 == 0 {
        "mul"
    } else if f7 == 1 && f3 == 1 {
        "mulh"
    } else if f7 == 1 && f3 == 2 {
        "mulhsu"
    } else if f7 == 1 && f3 == 3 {
        "mulhu"
    } else if f7 == 1 && f3 == 4 {
        "div"
    } else if f7 == 1 && f3 == 5 {
        "divu"
    } else if f7 == 1 && f3 == 6 {
        "rem"
    } else if f7 == 1 && f3 == 7 {
        "remu"
    } else {
        "unknown"
    }
}

pub open spec fn csr_mnem(f3: u32) -> Seq<char> {
    if f3 == 1 {
        "csrrw"@
    } else if f3 == 2 {
        "csrrs"@
    } else if f3 == 3 {
        "csrrc"@
    } else if f3 == 5 {
        "csrrwi"@
    } else if f3 == 6 {
        "csrrsi"@
    } else if f3 == 7 {
        "csrrci"@
    } else {
        "unknown"@
    }
}

fn csr_mnemonic(f3: u32) -> (r: &'static str)
    ensures
        r@ == csr_mnem(f3),
{
    if f3 == 1 {
        "csrrw"
    } else if f3 == 2 {
        "csrrs"
    } else if f3 == 3 {
        "csrrc"
    } else if f3 == 5 {
        "csrrwi"
    } else if f3 == 6 {
        "csrrsi"
    } else if f3 == 7 {
        "csrrci"
    } else {
        "unknown"
    }
}

pub open spec fn amo_mnem(f5: u32) -> Seq<char> {
    if f5 == 0b00010 {
        "lr.w"@
    } else if f5 == 0b00011 {
        "sc.w"@
    } else if f5 == 0b00001 {
        "amoswap.w"@
    } else if f5 == 0b00000 {
        "amoadd.w"@
    } else if f5 == 0b00100 {
        "amoxor.w"@
    } else if f5 == 0b01100 {
        "amoand.w"@
    } else if f5 == 0b01000 {
        "amoor.w"@
    } else if f5 == 0b10000 {
        "amomin.w"@
    } else if f5 == 0b10100 {
        "amomax.w"@
    } else if f5 == 0b11000 {
        "amominu.w"@
    } else if f5 == 0b11100 {
        "amomaxu.w"@
    } else {
        "unknown"@
    }
}

fn amo_mnemonic(f5: u32) -> (r: &'static str)
    ensures
        r@ == amo_mnem(f5),
{
    if f5 == 0b00010 {
        "lr.w"
    } else if f5 == 0b00011 {
        "sc.w"
    } else if f5 == 0b00001 {
        "amoswap.w"
    } else if f5 == 0b00000 {
        "amoadd.w"
    } else if f5 == 0b00100 {
        "amoxor.w"
    } else if f5 == 0b01100 {
        "amoand.w"
    } else if f5 == 0b01000 {
        "amoor.w"
    } else if f5 == 0b10000 {
        "amomin.w"
    } else if f5 == 0b10100 {
        "amomax.w"
    } else if f5 == 0b11000 {
        "amominu.w"
    } else if f5 == 0b11100 {
        "amomaxu.w"
    } else {
        "unknown"
    }
}

/// Register name of a 5-bit field.
pub open spec fn rn(r: u32) -> Seq<char> {
    reg_name_spec(r & 0x1f)
}

/// Mnemonic of a register-immediate ALU instruction.
pub open spec fn imm_mnem(f3: u32, f7: u32) -> Seq<char> {
    if f3 == 0 {
        "addi"@
    } else if f3 == 2 {
        "slti"@
    } else if f3 == 3 {
        "sltiu"@
    } else if f3 == 4 {
        "xori"@
    } else if f3 == 6 {
        "ori"@
    } else if f3 == 7 {
        "andi"@
    } else if f3 == 1 {
        "slli"@
    } else if f7 == 0 {
        "srli"@
    } else {
        "srai"@
    }
}

fn imm_mnemonic(f3: u32, f7: u32) -> (r: &'static str)
    ensures
        r@ == imm_mnem(f3, f7),
{
    if f3 == 0 {
        "addi"
    } else if f3 == 2 {
        "slti"
    } else if f3 == 3 {
        "sltiu"
    } else if f3 == 4 {
        "xori"
    } else if f3 == 6 {
        "ori"
    } else if f3 == 7 {
        "andi"
    } else if f3 == 1 {
        "slli"
    } else if f7 == 0 {
        "srli"
    } else {
        "srai"
    }
}

/// Text of one instruction.
pub open spec fn disasm_text(inst: u32) -> Seq<char> {
    let op = opcode_of(inst);
    let rd = rd_of(inst);
    let f3 = funct3_of(inst);
    let rs1 = rs1_of(inst);
    let rs2 = rs2_of(inst);
    let f7 = funct7_of(inst);
    if op == 0x37 {
        two_ops("lui"@, rn(rd), hex_lit(sra(imm_u(inst), 12)))
    } else if op == 0x17 {
        two_ops("auipc"@, rn(rd), hex_lit(sra(imm_u(inst), 12)))
    } else if op == 0x6f {
        two_ops("jal"@, rn(rd), hex_lit(imm_j(inst)))
    } else if op == 0x67 {
        if f3 != 0 {
            "unknown"@
        } else if rd == 0 && rs1 == 1 && imm_i(inst) == 0 {
            "ret"@
        } else if rd == 0 {
            mem_op("jr"@, rn(rd), hex_lit(imm_i(inst)), rn(rs1))
        } else {
            mem_op("jalr"@, rn(rd), hex_lit(imm_i(inst)), rn(rs1))
        }
    } else if op == 0x63 {
        three_ops(branch_mnem(f3), rn(rs1), rn(rs2), hex_lit(imm_b(inst)))
    } else if op == 0x03 {
        mem_op(load_mnem(f3), rn(rd), hex_lit(imm_i(inst)), rn(rs1))
    } else if op == 0x23 {
        mem_op(store_mnem(f3), rn(rs2), hex_lit(imm_s(inst)), rn(rs1))
    } else if op == 0x13 {
        if f3 == 1 || f3 == 5 {
            three_ops(imm_mnem(f3, f7), rn(rd), rn(rs1), hex_lit(rs2))
        } else {
            three_ops(imm_mnem(f3, f7), rn(rd), rn(rs1), hex_lit(imm_i(inst)))
        }
    } else if op == 0x33 {
        three_ops(reg_mnem(f7, f3), rn(rd), rn(rs1), rn(rs2))
    } else if op == 0x0f {
        "fence"@
    } else if op == 0x73 {
        if inst == 0x73 {
            "ecall"@
        } else if inst == 0x0010_0073 {
            "ebreak"@
        } else if inst == 0x3020_0073 {
            "mret"@
        } else if inst == 0x1020_0073 {
            "sret"@
        } else if f7 == 0x09 && f3 == 0 {
            two_ops("sfence.vma"@, rn(rs1), rn(rs2))
        } else if f3 >= 5 {
            three_ops(csr_mnem(f3), rn(rd), hex_lit(inst >> 20), hex_lit(rs1))
        } else if f3 >= 1 {
            three_ops(csr_mnem(f3), rn(rd), hex_lit(inst >> 20), rn(rs1))
        } else {
            "unknown"@
        }
    } else if op == 0x2f {
        if (f7 >> 2) & 0x1f == 2 {
            lr_op(amo_mnem((f7 >> 2) & 0x1f), rn(rd), rn(rs1))
        } else {
            amo_op(amo_mnem((f7 >> 2) & 0x1f), rn(rd), rn(rs2), rn(rs1))
        }
    } else {
        "unknown "@ + hex_lit(inst)
    }
}

fn lit(s: &'static str) -> (r: String)
    ensures
        r@ == s@,
{
    String::from_str(s)
}

/// Disassembles one RV32IMA instruction.
pub fn disasm(inst: Word, _pc: Word) -> (r: String)
    ensures
        r@ == disasm_text(inst),
{
    let op = inst & 0x7f;
    let rd = (inst >> 7) & 0x1f;
    let f3 = (inst >> 12) & 0x7;
    let rs1 = (inst >> 15) & 0x1f;
    let rs2 = (inst >> 20) & 0x1f;
    let f7 = (inst >> 25) & 0x7f;
    proof {
        assert(rd & 0x1f == rd && rs1 & 0x1f == rs1 && rs2 & 0x1f == rs2) by (bit_vector)
            requires
                rd == (inst >> 7) & 0x1f,
                rs1 == (inst >> 15) & 0x1f,
                rs2 == (inst >> 20) & 0x1f,
        ;
    }
    let imm_i = crate::decode::sext(inst >> 20, 12);
    let imm_u = inst & 0xffff_f000;
    if op == 0x37 || op == 0x17 {
        let m = if op == 0x37 { "lui" } else { "auipc" };
        proof { assert(12u32 < 32); }
        let v = crate::alu::shift_right_arith(imm_u, 12);
        fmt_two(m, reg_name(rd), hex_lit_string(v).as_str())
    } else if op == 0x6f {
        let mut d = crate::decode::DecodedInst::new(inst);
        d.decode_j();
        fmt_two("jal", reg_name(rd), hex_lit_string(d.imm).as_str())
    } else if op == 0x67 {
        if f3 != 0 {
            lit("unknown")
        } else if rd == 0 && rs1 == 1 && imm_i == 0 {
            lit("ret")
        } else if rd == 0 {
            fmt_mem("jr", reg_name(rd), hex_lit_string(imm_i).as_str(), reg_name(rs1))
        } else {
            fmt_mem("jalr", reg_name(rd), hex_lit_string(imm_i).as_str(), reg_name(rs1))
        }
    } else if op == 0x63 {
        let mut d = crate::decode::DecodedInst::new(inst);
        d.decode_b();
        fmt_three(branch_mnemonic(f3), reg_name(rs1), reg_name(rs2), hex_lit_string(d.imm).as_str())
    } else if op == 0x03 {
        fmt_mem(load_mnemonic(f3), reg_name(rd), hex_lit_string(imm_i).as_str(), reg_name(rs1))
    } else if op == 0x23 {
        let mut d = crate::decode::DecodedInst::new(inst);
        d.decode_s();
        fmt_mem(store_mnemonic(f3), reg_name(rs2), hex_lit_string(d.imm).as_str(), reg_name(rs1))
    } else if op == 0x13 {
        let v = if f3 == 1 || f3 == 5 { rs2 } else { imm_i };
        fmt_three(imm_mnemonic(f3, f7), reg_name(rd), reg_name(rs1), hex_lit_string(v).as_str())
    } else if op == 0x33 {
        fmt_three(reg_mnemonic(f7, f3), reg_name(rd), reg_name(rs1), reg_name(rs2))
    } else if op == 0x0f {
        lit("fence")
    } else if op == 0x73 {
        if inst == 0x73 {
            lit("ecall")
        } else if inst == 0x0010_0073 {
            lit("ebreak")
        } else if inst == 0x3020_0073 {
            lit("mret")
        } else if inst == 0x1020_0073 {
            lit("sret")
        } else if f7 == 0x09 && f3 == 0 {
            fmt_two("sfence.vma", reg_name(rs1), reg_name(rs2))
        } else if f3 >= 5 {
            fmt_three(csr_mnemonic(f3), reg_name(rd), hex_lit_string(inst >> 20).as_str(), hex_lit_string(rs1).as_str())
        } else if f3 >= 1 {
            fmt_three(csr_mnemonic(f3), reg_name(rd), hex_lit_string(inst >> 20).as_str(), reg_name(rs1))
        } else {
            lit("unknown")
        }
    } else if op == 0x2f {
        let f5 = (f7 >> 2) & 0x1f;
        if f5 == 2 {
            fmt_lr(amo_mnemonic(f5), reg_name(rd), reg_name(rs1))
        } else {
            fmt_amo(amo_mnemonic(f5), reg_name(rd), reg_name(rs2), reg_name(rs1))
        }
    } else {
        let mut s = String::new();
        s.append("unknown ");
        let h = hex_lit_string(inst);
        s.append(h.as_str());
        s
    }
}

} // verus!
