use vstd::prelude::*;
use crate::alu::{
    div_signed, div_spec, lt_signed, mulh, mulh_spec, mulhsu, mulhsu_spec, mulhu, mulhu_spec,
    rem_signed, rem_spec, shift_right_arith, slt, sra,
};
use crate::common::{PrivMode, RemuState, Word};
use crate::csr::{
    csr_read_spec, csr_write_spec, isa_csr_read, isa_csr_write, CSR_MEPC, CSR_MSTATUS, CSR_MTVEC, CSR_SEPC,
    CSR_STVEC,
};
use crate::decode::{
    funct3_of, funct7_of, imm_b, imm_i, imm_j, imm_s, imm_u, opcode_of, rd_of, rs1_of, rs2_of,
    DecodedInst,
};
use crate::intr::{
    delegated, isa_mret, isa_raise_intr, isa_sret, mode_of_bits, mstatus_mret, mstatus_sret, trap_csrs,
    INTR_BIT,
};
use crate::machine::{access_spec, Emulator};
use crate::mmu::{MEM_TYPE_READ, MEM_TYPE_WRITE};
use crate::pmem::le_write;
use crate::state::reg;

verus! {

pub const OP_LUI: u8 = 0b0110111;

pub const OP_AUIPC: u8 = 0b0010111;

pub const OP_JAL: u8 = 0b1101111;

pub const OP_JALR: u8 = 0b1100111;

pub const OP_BRANCH: u8 = 0b1100011;

pub const OP_LOAD: u8 = 0b0000011;

pub const OP_STORE: u8 = 0b0100011;

pub const OP_IMM: u8 = 0b0010011;

pub const OP_REG: u8 = 0b0110011;

pub const OP_AMO: u8 = 0b0101111;

pub const OP_FENCE: u8 = 0b0001111;

pub const OP_SYSTEM: u8 = 0b1110011;

/// Register file after writing `v` to `rd` (x0 keeps zero).
pub open spec fn write_reg(gpr: Seq<u32>, rd: u32, v: u32) -> Seq<u32> {
    if rd == 0 {
        gpr
    } else {
        gpr.update(rd as int, v)
    }
}

pub open spec fn bool_word(b: bool) -> u32 {
    if b {
        1
    } else {
        0
    }
}

/// Outcome of a conditional branch, `None` for an unassigned funct3.
pub open spec fn branch_spec(f3: u32, a: u32, b: u32) -> Option<bool> {
    if f3 == 0 {
        Some(a == b)
    } else if f3 == 1 {
        Some(a != b)
    } else if f3 == 4 {
        Some(slt(a, b))
    } else if f3 == 5 {
        Some(!slt(a, b))
    } else if f3 == 6 {
        Some(a < b)
    } else if f3 == 7 {
        Some(a >= b)
    } else {
        None
    }
}

/// Register-immediate ALU result; bit 10 of the immediate selects SRAI.
pub open spec fn op_imm_spec(f3: u32, a: u32, imm: u32) -> u32 {
    if f3 == 0 {
        a.wrapping_add(imm)
    } else if f3 == 2 {
        bool_word(slt(a, imm))
    } else if f3 == 3 {
        bool_word(a < imm)
    } else if f3 == 4 {
        a ^ imm
    } else if f3 == 6 {
        a | imm
    } else if f3 == 7 {
        a & imm
    } else if f3 == 1 {
        a << (imm & 0x1f)
    } else if (imm >> 10) & 1 == 1 {
        sra(a, imm & 0x1f)
    } else {
        a >> (imm & 0x1f)
    }
}

/// Register-register ALU and M-extension result, `None` when the
/// funct7/funct3 pair is unassigned.
pub open spec fn op_spec(f7: u32, f3: u32, a: u32, b: u32) -> Option<u32> {
    if f7 == 0 {
        if f3 == 0 {
            Some(a.wrapping_add(b))
        } else if f3 == 1 {
            Some(a << (b & 0x1f))
        } else if f3 == 2 {
            Some(bool_word(slt(a, b)))
        } else if f3 == 3 {
            Some(bool_word(a < b))
        } else if f3 == 4 {
            Some(a ^ b)
        } else if f3 == 5 {
            Some(a >> (b & 0x1f))
        } else if f3 == 6 {
            Some(a | b)
        } else {
            Some(a & b)
        }
    } else if f7 == 0x20 {
        if f3 == 0 {
            Some(a.wrapping_sub(b))
        } else if f3 == 5 {
            Some(sra(a, b & 0x1f))
        } else {
            None
        }
    } else if f7 == 1 {
        if f3 == 0 {
            Some(a.wrapping_mul(b))
        } else if f3 == 1 {
            Some(mulh_spec(a, b))
        } else if f3 == 2 {
            Some(mulhsu_spec(a, b))
        } else if f3 == 3 {
            Some(mulhu_spec(a, b))
        } else if f3 == 4 {
            Some(div_spec(a, b))
        } else if f3 == 5 {
            Some(if b == 0 { 0xffff_ffffu32 } else { a / b })
        } else if f3 == 6 {
            Some(rem_spec(a, b))
        } else {
            Some(if b == 0 { a } else { a % b })
        }
    } else {
        None
    }
}

/// The instruction touches nothing but registers and the PC.
pub open spec fn pure_op(inst: u32) -> bool {
    let op = opcode_of(inst);
    let f3 = funct3_of(inst);
    let f7 = funct7_of(inst);
    op == OP_LUI as u32 || op == OP_AUIPC as u32 || op == OP_JAL as u32 || (op == OP_JALR as u32
        && f3 == 0) || (op == OP_BRANCH as u32 && f3 != 2 && f3 != 3) || op == OP_IMM as u32 || (op
        == OP_REG as u32 && (f7 == 0 || f7 == 1 || (f7 == 0x20 && (f3 == 0 || f3 == 5)))) || op
        == OP_FENCE as u32
}

/// Next register file and PC for the instructions that touch nothing but
/// registers and the PC; `None` for every other instruction.
pub open spec fn pure_step(inst: u32, pc: u32, gpr: Seq<u32>) -> Option<(Seq<u32>, u32)> {
    let op = opcode_of(inst);
    let rd = rd_of(inst);
    let a = reg(gpr, rs1_of(inst) as int);
    let b = reg(gpr, rs2_of(inst) as int);
    let f3 = funct3_of(inst);
    let next = pc.wrapping_add(4);
    if !pure_op(inst) {
        None
    } else if op == OP_LUI as u32 {
        Some((write_reg(gpr, rd, imm_u(inst)), next))
    } else if op == OP_AUIPC as u32 {
        Some((write_reg(gpr, rd, pc.wrapping_add(imm_u(inst))), next))
    } else if op == OP_JAL as u32 {
        Some((write_reg(gpr, rd, next), pc.wrapping_add(imm_j(inst))))
    } else if op == OP_JALR as u32 {
        Some((write_reg(gpr, rd, next), a.wrapping_add(imm_i(inst)) & !1u32))
    } else if op == OP_BRANCH as u32 {
        Some((gpr, if branch_spec(f3, a, b) == Some(true) { pc.wrapping_add(imm_b(inst)) } else { next }))
    } else if op == OP_IMM as u32 {
        Some((write_reg(gpr, rd, op_imm_spec(f3, a, imm_i(inst))), next))
    } else if op == OP_REG as u32 {
        Some((write_reg(gpr, rd, op_spec(funct7_of(inst), f3, a, b).unwrap()), next))
    } else {
        Some((gpr, next))
    }
}

/// Opcodes the executor handles at all.
pub open spec fn known_opcode(op: u32) -> bool {
    op == OP_LUI as u32 || op == OP_AUIPC as u32 || op == OP_JAL as u32 || op == OP_JALR as u32
        || op == OP_BRANCH as u32 || op == OP_LOAD as u32 || op == OP_STORE as u32 || op == OP_IMM as u32
        || op == OP_REG as u32 || op == OP_AMO as u32 || op == OP_FENCE as u32 || op == OP_SYSTEM as u32
}

/// Width in bytes of a load, `None` for an unassigned funct3.
pub open spec fn load_width(f3: u32) -> Option<usize> {
    if f3 == 0 || f3 == 4 {
        Some(1usize)
    } else if f3 == 1 || f3 == 5 {
        Some(2usize)
    } else if f3 == 2 {
        Some(4usize)
    } else {
        None
    }
}

/// A loaded value widened to 32 bits: sign-extended for LB and LH.
pub open spec fn load_extend(f3: u32, v: u32) -> u32 {
    if f3 == 0 {
        if v & 0x80 != 0 { (v & 0xff) | 0xffff_ff00 } else { v & 0xff }
    } else if f3 == 1 {
        if v & 0x8000 != 0 { (v & 0xffff) | 0xffff_0000 } else { v & 0xffff }
    } else {
        v
    }
}

/// Exception cause of ECALL from each mode.
pub open spec fn ecall_cause(m: PrivMode) -> u32 {
    match m {
        PrivMode::User => 8,
        PrivMode::Supervisor => 9,
        PrivMode::Machine => 11,
    }
}

/// Handler address for a trap with this cause taken in `mode`.
pub open spec fn trap_handler(csr: Seq<u32>, mode: PrivMode, no: u32) -> u32 {
    if delegated(csr, mode, no) {
        csr[CSR_STVEC as int]
    } else {
        csr[CSR_MTVEC as int]
    }
}

pub fn branch_taken(f3: u32, a: u32, b: u32) -> (r: Option<bool>)
    ensures
        r == branch_spec(f3, a, b),
{
    if f3 == 0 {
        Some(a == b)
    } else if f3 == 1 {
        Some(a != b)
    } else if f3 == 4 {
        Some(lt_signed(a, b))
    } else if f3 == 5 {
        Some(!lt_signed(a, b))
    } else if f3 == 6 {
        Some(a < b)
    } else if f3 == 7 {
        Some(a >= b)
    } else {
        None
    }
}

pub fn alu_imm(f3: u32, a: u32, imm: u32) -> (r: u32)
    ensures
        r == op_imm_spec(f3, a, imm),
{
    proof {
        assert(imm & 0x1f < 32) by (bit_vector);
    }
    if f3 == 0 {
        a.wrapping_add(imm)
    } else if f3 == 2 {
        if lt_signed(a, imm) { 1 } else { 0 }
    } else if f3 == 3 {
        if a < imm { 1 } else { 0 }
    } else if f3 == 4 {
        a ^ imm
    } else if f3 == 6 {
        a | imm
    } else if f3 == 7 {
        a & imm
    } else if f3 == 1 {
        a << (imm & 0x1f)
    } else if (imm >> 10) & 1 == 1 {
        proof { assert(imm & 0x1f < 32) by (bit_vector); }
        shift_right_arith(a, imm & 0x1f)
    } else {
        a >> (imm & 0x1f)
    }
}

pub fn alu_reg(f7: u32, f3: u32, a: u32, b: u32) -> (r: Option<u32>)
    ensures
        r == op_spec(f7, f3, a, b),
{
    proof {
        assert(b & 0x1f < 32) by (bit_vector);
    }
    if f7 == 0 {
        if f3 == 0 {
            Some(a.wrapping_add(b))
        } else if f3 == 1 {
            Some(a << (b & 0x1f))
        } else if f3 == 2 {
            Some(if lt_signed(a, b) { 1 } else { 0 })
        } else if f3 == 3 {
            Some(if a < b { 1 } else { 0 })
        } else if f3 == 4 {
            Some(a ^ b)
        } else if f3 == 5 {
            Some(a >> (b & 0x1f))
        } else if f3 == 6 {
            Some(a | b)
        } else {
            Some(a & b)
        }
    } else if f7 == 0x20 {
        if f3 == 0 {
            Some(a.wrapping_sub(b))
        } else if f3 == 5 {
            proof { assert(b & 0x1f < 32) by (bit_vector); }
            Some(shift_right_arith(a, b & 0x1f))
        } else {
            None
        }
    } else if f7 == 1 {
        if f3 == 0 {
            Some(a.wrapping_mul(b))
        } else if f3 == 1 {
            Some(mulh(a, b))
        } else if f3 == 2 {
            Some(mulhsu(a, b))
        } else if f3 == 3 {
            Some(mulhu(a, b))
        } else if f3 == 4 {
            Some(div_signed(a, b))
        } else if f3 == 5 {
            Some(if b == 0 { 0xffff_ffffu32 } else { a / b })
        } else if f3 == 6 {
            Some(rem_signed(a, b))
        } else {
            Some(if b == 0 { a } else { a % b })
        }
    } else {
        None
    }
}

pub fn extend_load(f3: u32, v: u32) -> (r: u32)
    ensures
        r == load_extend(f3, v),
{
    if f3 == 0 {
        if v & 0x80 != 0 { (v & 0xff) | 0xffff_ff00 } else { v & 0xff }
    } else if f3 == 1 {
        if v & 0x8000 != 0 { (v & 0xffff) | 0xffff_0000 } else { v & 0xffff }
    } else {
        v
    }
}

/// Value an AMO stores, given the old memory word `t` and `rs2`; `None` for
/// an unassigned funct5.
pub open spec fn amo_spec(f5: u32, t: u32, b: u32) -> Option<u32> {
    if f5 == 0b00001 {
        Some(b)
    } else if f5 == 0b00000 {
        Some(t.wrapping_add(b))
    } else if f5 == 0b00100 {
        Some(t ^ b)
    } else if f5 == 0b01100 {
        Some(t & b)
    } else if f5 == 0b01000 {
        Some(t | b)
    } else if f5 == 0b10000 {
        Some(if slt(t, b) { t } else { b })
    } else if f5 == 0b10100 {
        Some(if slt(b, t) { t } else { b })
    } else if f5 == 0b11000 {
        Some(if t < b { t } else { b })
    } else if f5 == 0b11100 {
        Some(if t > b { t } else { b })
    } else {
        None
    }
}

pub fn amo_value(f5: u32, t: u32, b: u32) -> (r: Option<u32>)
    ensures
        r == amo_spec(f5, t, b),
{
    if f5 == 0b00001 {
        Some(b)
    } else if f5 == 0b00000 {
        Some(t.wrapping_add(b))
    } else if f5 == 0b00100 {
        Some(t ^ b)
    } else if f5 == 0b01100 {
        Some(t & b)
    } else if f5 == 0b01000 {
        Some(t | b)
    } else if f5 == 0b10000 {
        Some(if lt_signed(t, b) { t } else { b })
    } else if f5 == 0b10100 {
        Some(if lt_signed(b, t) { t } else { b })
    } else if f5 == 0b11000 {
        Some(if t < b { t } else { b })
    } else if f5 == 0b11100 {
        Some(if t > b { t } else { b })
    } else {
        None
    }
}

/// Address of a load: rs1 plus the I immediate.
pub open spec fn load_addr(inst: u32, gpr: Seq<u32>) -> u32 {
    reg(gpr, rs1_of(inst) as int).wrapping_add(imm_i(inst))
}

/// Address of a store: rs1 plus the S immediate.
pub open spec fn store_addr(inst: u32, gpr: Seq<u32>) -> u32 {
    reg(gpr, rs1_of(inst) as int).wrapping_add(imm_s(inst))
}

/// Store width for an assigned funct3.
pub open spec fn store_width(f3: u32) -> Option<usize> {
    if f3 == 0 {
        Some(1usize)
    } else if f3 == 1 {
        Some(2usize)
    } else if f3 == 2 {
        Some(4usize)
    } else {
        None
    }
}

/// The CSR a Zicsr instruction names.
pub open spec fn csr_of(inst: u32) -> u16 {
    (inst >> 20) as u16
}

/// The operand of a Zicsr instruction: rs1's value, or the 5-bit immediate.
pub open spec fn csr_src(inst: u32, gpr: Seq<u32>) -> u32 {
    if funct3_of(inst) >= 5 {
        rs1_of(inst)
    } else {
        reg(gpr, rs1_of(inst) as int)
    }
}

/// Whether a Zicsr instruction writes the CSR: always for CSRRW/CSRRWI,
/// only with a non-zero rs1 field for the set and clear forms.
pub open spec fn csr_writes(inst: u32) -> bool {
    funct3_of(inst) & 3 == 1 || rs1_of(inst) != 0
}

/// Value a Zicsr instruction writes, from the old CSR value.
pub open spec fn csr_new_value(f3: u32, old: u32, src: u32) -> u32 {
    if f3 & 3 == 1 {
        src
    } else if f3 & 3 == 2 {
        old | src
    } else {
        old & !src
    }
}

/// Register and CSR effects of a Zicsr instruction.
pub open spec fn is_csr_op(inst: u32) -> bool {
    opcode_of(inst) == OP_SYSTEM as u32 && funct3_of(inst) != 0 && funct3_of(inst) != 4
}

/// An AMO-opcode encoding the executor implements: funct3 = 2 with LR.W,
/// SC.W or one of the nine read-modify-write operations.
pub open spec fn amo_known(inst: u32) -> bool {
    let f5 = funct7_of(inst) >> 2;
    funct3_of(inst) == 2 && (f5 == 2 || f5 == 3 || amo_spec(f5, 0, 0) is Some)
}

/// LR.W translates as a load; SC.W and the AMOs as stores.
pub open spec fn amo_access_type(inst: u32) -> i32 {
    if funct7_of(inst) >> 2 == 2 {
        MEM_TYPE_READ
    } else {
        MEM_TYPE_WRITE
    }
}

pub fn is_pure_op(inst: u32) -> (r: bool)
    ensures
        r == pure_op(inst),
{
    let op = inst & 0x7f;
    let f3 = (inst >> 12) & 0x7;
    let f7 = (inst >> 25) & 0x7f;
    op == OP_LUI as u32 || op == OP_AUIPC as u32 || op == OP_JAL as u32 || (op == OP_JALR as u32
        && f3 == 0) || (op == OP_BRANCH as u32 && f3 != 2 && f3 != 3) || op == OP_IMM as u32 || (op
        == OP_REG as u32 && (f7 == 0 || f7 == 1 || (f7 == 0x20 && (f3 == 0 || f3 == 5)))) || op
        == OP_FENCE as u32
}

impl Emulator {
    /// The machine state outside the hart and memory is as before.
    pub open spec fn same_devices(&self, o: &Emulator) -> bool {
        &&& self.mmio == o.mmio
        &&& self.now_us == o.now_us
        &&& self.reset_pc == o.reset_pc
    }

    /// Takes a trap at `epc` with the given cause and TVAL; the PC moves to
    /// the handler.
    pub fn take_trap(&mut self, cause: Word, epc: Word, tval: Word)
        requires
            old(self).wf(),
        ensures
            final(self).wf(),
            trapped(*old(self), *final(self), cause, epc, tval),
    {
        self.traces.trace_intr(cause & 0x7fff_ffff, epc, cause & INTR_BIT != 0);
        let h = isa_raise_intr(&mut self.cpu, cause, epc, tval);
        self.cpu.pc = h;
    }

    /// MIP bits that devices drive now: CLINT timer/software and external lines.
    pub fn irq_lines_now(&self) -> (r: u32)
        ensures
            r == self.irq_lines(),
    {
        self.clint.get_mip_status(self.now_us) | self.intr.bits
    }

    /// CSR read as the hart sees it (with the clock and the device lines).
    pub fn csr_read(&self, addr: u16) -> (r: Word)
        requires
            self.wf(),
        ensures
            r == csr_read_spec(self.cpu.csr@, addr, self.now_us, self.irq_lines()),
    {
        isa_csr_read(&self.cpu, addr, self.now_us, self.irq_lines_now())
    }

    /// CSR write as the hart performs it.
    pub fn csr_write(&mut self, addr: u16, data: Word)
        requires
            old(self).wf(),
        ensures
            final(self).wf(),
            final(self).cpu.csr@ == csr_write_spec(old(self).cpu.csr@, addr, data),
            final(self).cpu.gpr == old(self).cpu.gpr,
            final(self).cpu.pc == old(self).cpu.pc,
            final(self).cpu.mode == old(self).cpu.mode,
            final(self).cpu.reservation == old(self).cpu.reservation,
            final(self).mem == old(self).mem,
            final(self).state == old(self).state,
            final(self).same_devices(old(self)),
            final(self).devices_same(old(self)),
    {
        isa_csr_write(&mut self.cpu, addr, data);
    }

    /// Stops the run on an instruction the executor does not implement.
    fn abort(&mut self)
        requires
            old(self).wf(),
        ensures
            final(self).wf(),
            abort_post(*old(self), *final(self)),
    {
        self.state.set_state(RemuState::Abort);
    }

    pub fn exec_pure(&mut self, inst: Word, pc: Word)
        requires
            old(self).wf(),
            pure_op(inst),
        ensures
            final(self).wf(),
            pure_post(*old(self), *final(self), inst, pc),
    {
        let mut dec = DecodedInst::new(inst);
        let next = pc.wrapping_add(4);
        let op = dec.opcode;
        if op == OP_LUI {
            dec.decode_u();
            self.cpu.set_gpr(dec.rd, dec.imm);
            self.cpu.pc = next;
        } else if op == OP_AUIPC {
            dec.decode_u();
            self.cpu.set_gpr(dec.rd, pc.wrapping_add(dec.imm));
            self.cpu.pc = next;
        } else if op == OP_JAL {
            dec.decode_j();
            let target = pc.wrapping_add(dec.imm);
            self.cpu.set_gpr(dec.rd, next);
            self.cpu.pc = target;
            if dec.rd != 0 {
                self.traces.trace_call(pc, target);
            }
        } else if op == OP_JALR {
            dec.decode_i();
            let src1 = self.cpu.get_gpr(dec.rs1);
            let target = src1.wrapping_add(dec.imm) & !1u32;
            self.cpu.set_gpr(dec.rd, next);
            self.cpu.pc = target;
            if dec.rd == 0 && dec.rs1 == 1 && dec.imm == 0 {
                self.traces.trace_ret(pc);
            } else {
                self.traces.trace_call(pc, target);
            }
        } else if op == OP_BRANCH {
            dec.decode_b();
            let src1 = self.cpu.get_gpr(dec.rs1);
            let src2 = self.cpu.get_gpr(dec.rs2);
            let taken = branch_taken(dec.funct3 as u32, src1, src2);
            self.cpu.pc = if taken == Some(true) {
                pc.wrapping_add(dec.imm)
            } else {
                next
            };
        } else if op == OP_IMM {
            dec.decode_i();
            let src1 = self.cpu.get_gpr(dec.rs1);
            let v = alu_imm(dec.funct3 as u32, src1, dec.imm);
            self.cpu.set_gpr(dec.rd, v);
            self.cpu.pc = next;
        } else if op == OP_REG {
            dec.decode_r();
            let src1 = self.cpu.get_gpr(dec.rs1);
            let src2 = self.cpu.get_gpr(dec.rs2);
            match alu_reg(dec.funct7 as u32, dec.funct3 as u32, src1, src2) {
                Some(v) => self.cpu.set_gpr(dec.rd, v),
                None => {},
            }
            self.cpu.pc = next;
        } else {
            self.cpu.pc = next;
        }
    }

    pub fn exec_load(&mut self, inst: Word, pc: Word)
        requires
            old(self).wf(),
            opcode_of(inst) == OP_LOAD as u32,
        ensures
            final(self).wf(),
            load_post(*old(self), *final(self), inst, pc),
    {
        let mut dec = DecodedInst::new(inst);
        dec.decode_i();
        let f3 = dec.funct3 as u32;
        let w: usize = if f3 == 0 || f3 == 4 {
            1
        } else if f3 == 1 || f3 == 5 {
            2
        } else if f3 == 2 {
            4
        } else {
            self.abort();
            return;
        };
        let addr = self.cpu.get_gpr(dec.rs1).wrapping_add(dec.imm);
        match self.vaddr_read(addr, w, MEM_TYPE_READ) {
            Err(c) => self.take_trap(c, pc, addr),
            Ok(v) => {
                self.cpu.set_gpr(dec.rd, extend_load(f3, v));
                self.cpu.pc = pc.wrapping_add(4);
            },
        }
    }

    pub fn exec_store(&mut self, inst: Word, pc: Word)
        requires
            old(self).wf(),
            opcode_of(inst) == OP_STORE as u32,
        ensures
            final(self).wf(),
            store_post(*old(self), *final(self), inst, pc),
    {
        let mut dec = DecodedInst::new(inst);
        dec.decode_s();
        let f3 = dec.funct3 as u32;
        let w: usize = if f3 == 0 {
            1
        } else if f3 == 1 {
            2
        } else if f3 == 2 {
            4
        } else {
            self.abort();
            return;
        };
        let addr = self.cpu.get_gpr(dec.rs1).wrapping_add(dec.imm);
        let src2 = self.cpu.get_gpr(dec.rs2);
        match self.vaddr_write(addr, w, src2) {
            Err(c) => self.take_trap(c, pc, addr),
            Ok(()) => {
                if self.cpu.reservation == Some(addr & !3u32) {
                    self.cpu.reservation = None;
                }
                self.cpu.pc = pc.wrapping_add(4);
            },
        }
    }

    /// LR.W, SC.W and the word AMOs; each completes within the instruction.
    /// SC.W always succeeds on a single hart; a store clears the reservation.
    pub fn exec_amo(&mut self, inst: Word, pc: Word)
        requires
            old(self).wf(),
            opcode_of(inst) == OP_AMO as u32,
        ensures
            final(self).wf(),
            amo_post(*old(self), *final(self), inst, pc),
    {
        let mut dec = DecodedInst::new(inst);
        dec.decode_r();
        let f5 = (dec.funct7 as u32) >> 2;
        if dec.funct3 != 2 {
            self.abort();
            return;
        }
        let addr = self.cpu.get_gpr(dec.rs1);
        let src2 = self.cpu.get_gpr(dec.rs2);
        if f5 == 0b00010 {
            match self.vaddr_read(addr, 4, MEM_TYPE_READ) {
                Err(c) => self.take_trap(c, pc, addr),
                Ok(v) => {
                    self.cpu.set_gpr(dec.rd, v);
                    self.cpu.reservation = Some(addr & !3u32);
                    self.cpu.pc = pc.wrapping_add(4);
                },
            }
        } else if f5 == 0b00011 {
            match self.vaddr_write(addr, 4, src2) {
                Err(c) => self.take_trap(c, pc, addr),
                Ok(()) => {
                    self.cpu.set_gpr(dec.rd, 0);
                    self.cpu.reservation = None;
                    self.cpu.pc = pc.wrapping_add(4);
                },
            }
        } else {
            if amo_value(f5, 0, 0).is_none() {
                self.abort();
                return;
            }
            match self.vaddr_read(addr, 4, MEM_TYPE_WRITE) {
                Err(c) => self.take_trap(c, pc, addr),
                Ok(t) => {
                    let v = match amo_value(f5, t, src2) {
                        Some(v) => v,
                        None => src2,
                    };
                    match self.vaddr_write(addr, 4, v) {
                        Err(c) => self.take_trap(c, pc, addr),
                        Ok(()) => {
                            self.cpu.set_gpr(dec.rd, t);
                            self.cpu.pc = pc.wrapping_add(4);
                        },
                    }
                },
            }
        }
    }

    /// ECALL, EBREAK, xRET, SFENCE.VMA, WFI and the Zicsr instructions.
    /// EBREAK is the halt signal: the run ends with state End, the PC stays
    /// on the EBREAK and a0 is the exit code.
    pub fn exec_system(&mut self, inst: Word, pc: Word)
        requires
            old(self).wf(),
            opcode_of(inst) == OP_SYSTEM as u32,
        ensures
            final(self).wf(),
            system_post(*old(self), *final(self), inst, pc),
    {
        let dec = DecodedInst::new(inst);
        let f3 = dec.funct3 as u32;
        let f7 = dec.funct7 as u32;
        let rs2 = dec.rs2;
        proof {
            assert(inst == 0x73 ==> (inst >> 12) & 7 == 0 && (inst >> 25) & 0x7f == 0 && (inst >> 20) & 0x1f == 0)
                by (bit_vector);
            assert(inst == 0x0010_0073 ==> (inst >> 12) & 7 == 0 && (inst >> 25) & 0x7f == 0 && (inst >> 20)
                & 0x1f == 1) by (bit_vector);
            assert(inst == 0x3020_0073 ==> (inst >> 12) & 7 == 0 && (inst >> 25) & 0x7f == 0x18 && (inst
                >> 20) & 0x1f == 2) by (bit_vector);
            assert(inst == 0x1020_0073 ==> (inst >> 12) & 7 == 0 && (inst >> 25) & 0x7f == 0x08 && (inst
                >> 20) & 0x1f == 2) by (bit_vector);
        }
        if f3 == 0 {
            if f7 == 0 && rs2 == 0 {
                let cause: u32 = match self.cpu.mode {
                    PrivMode::User => 8,
                    PrivMode::Supervisor => 9,
                    PrivMode::Machine => 11,
                };
                let m = self.cpu.mode.bits();
                self.traces.trace_ecall(pc, cause, m as u8);
                self.take_trap(cause, pc, 0);
            } else if f7 == 0 && rs2 == 1 {
                let a0 = self.cpu.get_gpr(10);
                self.state.set_halt(pc, a0 as i32);
                self.state.set_state(RemuState::End);
            } else if f7 == 0x18 && rs2 == 2 {
                isa_mret(&mut self.cpu);
            } else if f7 == 0x08 && rs2 == 2 {
                isa_sret(&mut self.cpu);
            } else if (f7 == 0x08 && rs2 == 5) || f7 == 0x09 {
                self.cpu.pc = pc.wrapping_add(4);
            } else {
                self.abort();
            }
        } else if f3 == 4 {
            self.abort();
        } else {
            let csr = (inst >> 20) as u16;
            let old_v = self.csr_read(csr);
            let src = if f3 >= 5 {
                dec.rs1 as u32
            } else {
                self.cpu.get_gpr(dec.rs1)
            };
            let new_v = if f3 & 3 == 1 {
                src
            } else if f3 & 3 == 2 {
                old_v | src
            } else {
                old_v & !src
            };
            if f3 & 3 == 1 || dec.rs1 != 0 {
                self.csr_write(csr, new_v);
            }
            self.cpu.set_gpr(dec.rd, old_v);
            self.cpu.pc = pc.wrapping_add(4);
        }
    }

    /// Executes the instruction `inst` fetched from `pc`. Encodings the
    /// executor does not implement stop the run with Abort and change
    /// nothing else; each class is specified in full by its `exec_*` method.
    pub fn decode_exec(&mut self, inst: Word, pc: Word)
        requires
            old(self).wf(),
        ensures
            final(self).wf(),
            final(self).cpu.gpr@[0] == 0,
            exec_post(*old(self), *final(self), inst, pc),
    {
        proof {
            assert(inst == 0x73 ==> inst & 0x7f == 0x73) by (bit_vector);
            assert(inst == 0x0010_0073 ==> inst & 0x7f == 0x73) by (bit_vector);
        }
        if is_pure_op(inst) {
            self.exec_pure(inst, pc);
            return;
        }
        let op = inst & 0x7f;
        if op == OP_LOAD as u32 {
            self.exec_load(inst, pc);
        } else if op == OP_STORE as u32 {
            self.exec_store(inst, pc);
        } else if op == OP_AMO as u32 {
            self.exec_amo(inst, pc);
        } else if op == OP_SYSTEM as u32 {
            self.exec_system(inst, pc);
        } else {
            self.abort();
        }
    }
}

/// `b` is `a` after a trap with this cause, EPC and TVAL: trap registers
/// and mode as the trap subsystem sets them, PC at the handler, everything
/// else as before.
pub open spec fn trapped(a: Emulator, b: Emulator, cause: u32, epc: u32, tval: u32) -> bool {
    &&& b.cpu.csr@ == trap_csrs(a.cpu.csr@, a.cpu.mode, cause, epc, tval)
    &&& b.cpu.mode == (if delegated(a.cpu.csr@, a.cpu.mode, cause) {
        PrivMode::Supervisor
    } else {
        PrivMode::Machine
    })
    &&& b.cpu.pc == trap_handler(a.cpu.csr@, a.cpu.mode, cause)
    &&& b.cpu.gpr == a.cpu.gpr
    &&& b.cpu.reservation == a.cpu.reservation
    &&& b.mem == a.mem
    &&& b.state == a.state
    &&& b.same_devices(&a)
    &&& b.devices_same(&a)
}

/// The run stopped with Abort and nothing else changed.
pub open spec fn abort_post(a: Emulator, b: Emulator) -> bool {
    &&& b.state.state == RemuState::Abort
    &&& b.cpu == a.cpu
    &&& b.mem == a.mem
    &&& b.same_devices(&a)
    &&& b.devices_same(&a)
}

/// The hart moved on to `pc + 4` with its CSRs and mode kept and the run
/// state unchanged.
pub open spec fn advanced(a: Emulator, b: Emulator, pc: u32) -> bool {
    &&& b.cpu.pc == pc.wrapping_add(4)
    &&& b.cpu.csr == a.cpu.csr
    &&& b.cpu.mode == a.cpu.mode
    &&& b.state == a.state
    &&& b.same_devices(&a)
}

/// Effect of an instruction that touches only registers and the PC.
pub open spec fn pure_post(a: Emulator, b: Emulator, inst: u32, pc: u32) -> bool {
    &&& pure_step(inst, pc, a.cpu.gpr@) == Some((b.cpu.gpr@, b.cpu.pc))
    &&& b.cpu.csr == a.cpu.csr
    &&& b.cpu.mode == a.cpu.mode
    &&& b.cpu.reservation == a.cpu.reservation
    &&& b.mem == a.mem
    &&& b.state == a.state
    &&& b.same_devices(&a)
    &&& b.devices_same(&a)
}

/// Effect of a load: a page fault traps with the address as TVAL and keeps
/// the registers; otherwise rd gets the widened value and the PC advances.
pub open spec fn load_post(a: Emulator, b: Emulator, inst: u32, pc: u32) -> bool {
    let w = load_width(funct3_of(inst));
    let addr = load_addr(inst, a.cpu.gpr@);
    let acc = access_spec(a.cpu, a.mem, addr, w->Some_0, MEM_TYPE_READ);
    let p = acc->Ok_0;
    &&& w is None ==> abort_post(a, b)
    &&& w is Some && acc is Err ==> trapped(a, b, acc->Err_0, pc, addr)
    &&& w is Some && acc is Ok ==> advanced(a, b, pc) && b.mem == a.mem && (a.mem.region_spec(p, w->Some_0) is Some
        ==> b.cpu.gpr@ == write_reg(
        a.cpu.gpr@,
        rd_of(inst),
        load_extend(funct3_of(inst), a.mem.read_spec(p, w->Some_0)),
    ) && b.devices_same(&a))
}

/// Effect of a store: a page fault traps with the address as TVAL and
/// touches neither memory nor any device; otherwise the bytes land in the
/// region that holds them, registers stay and the PC advances.
pub open spec fn store_post(a: Emulator, b: Emulator, inst: u32, pc: u32) -> bool {
    let w = store_width(funct3_of(inst));
    let addr = store_addr(inst, a.cpu.gpr@);
    let acc = access_spec(a.cpu, a.mem, addr, w->Some_0, MEM_TYPE_WRITE);
    let p = acc->Ok_0;
    let v = reg(a.cpu.gpr@, rs2_of(inst) as int);
    &&& w is None ==> abort_post(a, b)
    &&& w is Some && acc is Err ==> trapped(a, b, acc->Err_0, pc, addr)
    &&& w is Some && acc is Ok ==> advanced(a, b, pc) && b.cpu.gpr == a.cpu.gpr && (if a.mem.region_spec(
        p,
        w->Some_0,
    ) is Some {
        crate::pmem::written(a.mem, b.mem, p, w->Some_0, v) && b.devices_same(&a)
    } else {
        b.mem == a.mem
    })
}

/// Effect of LR.W, SC.W and the word AMOs.
pub open spec fn amo_post(a: Emulator, b: Emulator, inst: u32, pc: u32) -> bool {
    let addr = reg(a.cpu.gpr@, rs1_of(inst) as int);
    let v = reg(a.cpu.gpr@, rs2_of(inst) as int);
    let acc = access_spec(a.cpu, a.mem, addr, 4, amo_access_type(inst));
    let f5 = funct7_of(inst) >> 2;
    let p = acc->Ok_0;
    let in_mem = a.mem.region_spec(p, 4) is Some;
    let g = a.mem.region_spec(p, 4)->Some_0;
    let w = a.mem.read_spec(p, 4);
    &&& !amo_known(inst) ==> abort_post(a, b)
    &&& amo_known(inst) && acc is Err ==> trapped(a, b, acc->Err_0, pc, addr)
    &&& amo_known(inst) && acc is Ok ==> advanced(a, b, pc) && (if f5 == 2 {
        b.mem == a.mem && b.cpu.reservation == Some(addr & !3u32) && (in_mem ==> b.cpu.gpr@ == write_reg(
            a.cpu.gpr@,
            rd_of(inst),
            w,
        ))
    } else if f5 == 3 {
        b.cpu.reservation.is_none() && b.cpu.gpr@ == write_reg(a.cpu.gpr@, rd_of(inst), 0) && (in_mem
            ==> b.mem.bytes_of(g) == le_write(a.mem.bytes_of(g), p - a.mem.base_of(g), 4, v))
    } else {
        in_mem ==> b.cpu.gpr@ == write_reg(a.cpu.gpr@, rd_of(inst), w) && b.mem.bytes_of(g) == le_write(
            a.mem.bytes_of(g),
            p - a.mem.base_of(g),
            4,
            amo_spec(f5, w, v)->Some_0,
        )
    })
}

/// Effect of a SYSTEM-opcode instruction.
pub open spec fn system_post(a: Emulator, b: Emulator, inst: u32, pc: u32) -> bool {
    let f3 = funct3_of(inst);
    let f7 = funct7_of(inst);
    let rs2 = rs2_of(inst);
    let ms = a.cpu.csr@[CSR_MSTATUS as int];
    let old_csr = csr_read_spec(a.cpu.csr@, csr_of(inst), a.now_us, a.irq_lines());
    &&& b.mem == a.mem
    &&& b.same_devices(&a)
    &&& b.devices_same(&a)
    &&& inst == 0x73 ==> trapped(a, b, ecall_cause(a.cpu.mode), pc, 0)
    &&& inst == 0x0010_0073 ==> b.state.state == RemuState::End && b.state.halt_pc == pc && b.state.halt_ret
        == reg(a.cpu.gpr@, 10) as i32 && b.cpu == a.cpu
    &&& inst == 0x3020_0073 ==> b.cpu.csr@ == a.cpu.csr@.update(CSR_MSTATUS as int, mstatus_mret(ms))
        && b.cpu.mode == mode_of_bits((ms >> 11) & 3) && b.cpu.pc == a.cpu.csr@[CSR_MEPC as int] && b.cpu.gpr
        == a.cpu.gpr && b.state == a.state
    &&& inst == 0x1020_0073 ==> b.cpu.csr@ == a.cpu.csr@.update(CSR_MSTATUS as int, mstatus_sret(ms))
        && b.cpu.mode == (if (ms >> 8) & 1 == 1 { PrivMode::Supervisor } else { PrivMode::User }) && b.cpu.pc
        == a.cpu.csr@[CSR_SEPC as int] && b.cpu.gpr == a.cpu.gpr && b.state == a.state
    &&& f3 == 0 && ((f7 == 0x08 && rs2 == 5) || f7 == 0x09) ==> advanced(a, b, pc) && b.cpu.gpr == a.cpu.gpr
    &&& (f3 == 4 || (f3 == 0 && !(f7 == 0 && (rs2 == 0 || rs2 == 1)) && !((f7 == 0x18 || f7 == 0x08) && rs2
        == 2) && !((f7 == 0x08 && rs2 == 5) || f7 == 0x09))) ==> abort_post(a, b)
    &&& is_csr_op(inst) ==> b.state == a.state && b.cpu.pc == pc.wrapping_add(4) && b.cpu.mode == a.cpu.mode
        && b.cpu.gpr@ == write_reg(a.cpu.gpr@, rd_of(inst), old_csr) && b.cpu.csr@ == (if csr_writes(inst) {
        csr_write_spec(
            a.cpu.csr@,
            csr_of(inst),
            csr_new_value(funct3_of(inst), old_csr, csr_src(inst, a.cpu.gpr@)),
        )
    } else {
        a.cpu.csr@
    })
}

/// Effect of executing the instruction word `inst` fetched from `pc`.
pub open spec fn exec_post(a: Emulator, b: Emulator, inst: u32, pc: u32) -> bool {
    let op = opcode_of(inst);
    &&& b.cpu.gpr@[0] == 0
    &&& b.same_devices(&a)
    &&& pure_op(inst) ==> pure_post(a, b, inst, pc)
    &&& !pure_op(inst) ==> (if op == OP_LOAD as u32 {
        load_post(a, b, inst, pc)
    } else if op == OP_STORE as u32 {
        store_post(a, b, inst, pc)
    } else if op == OP_AMO as u32 {
        amo_post(a, b, inst, pc)
    } else if op == OP_SYSTEM as u32 {
        system_post(a, b, inst, pc)
    } else {
        abort_post(a, b)
    })
}

} // verus!
