use vstd::prelude::*;
use crate::common::Word;

verus! {

/// Instruction encoding formats.
#[derive(Debug, Clone, Copy, PartialEq, Eq, Structural)]
pub enum InstType {
    TypeR,
    TypeI,
    TypeS,
    TypeB,
    TypeU,
    TypeJ,
    TypeN,
}

pub open spec fn opcode_of(inst: u32) -> u32 {
    inst & 0x7f
}

pub open spec fn rd_of(inst: u32) -> u32 {
    (inst >> 7) & 0x1f
}

pub open spec fn funct3_of(inst: u32) -> u32 {
    (inst >> 12) & 0x7
}

pub open spec fn rs1_of(inst: u32) -> u32 {
    (inst >> 15) & 0x1f
}

pub open spec fn rs2_of(inst: u32) -> u32 {
    (inst >> 20) & 0x1f
}

pub open spec fn funct7_of(inst: u32) -> u32 {
    (inst >> 25) & 0x7f
}

/// Sign extension of the low `w` bits of `v` to 32 bits.
pub open spec fn sext_spec(v: u32, w: u32) -> u32 {
    if (v >> ((w - 1) as u32)) & 1 == 1 {
        v | (0xffff_ffffu32 << w)
    } else {
        v
    }
}

/// I-format immediate: inst[31:20], sign-extended.
pub open spec fn imm_i(inst: u32) -> u32 {
    sext_spec(inst >> 20, 12)
}

/// S-format immediate: {inst[31:25], inst[11:7]}, sign-extended.
pub open spec fn imm_s(inst: u32) -> u32 {
    sext_spec(((inst >> 25) << 5) | ((inst >> 7) & 0x1f), 12)
}

/// B-format immediate: {inst[31], inst[7], inst[30:25], inst[11:8], 0}, sign-extended.
pub open spec fn imm_b(inst: u32) -> u32 {
    sext_spec(
        (((inst >> 31) & 1) << 12) | (((inst >> 7) & 1) << 11) | (((inst >> 25) & 0x3f) << 5) | (
        ((inst >> 8) & 0xf) << 1),
        13,
    )
}

/// U-format immediate: inst[31:12] << 12.
pub open spec fn imm_u(inst: u32) -> u32 {
    inst & 0xffff_f000
}

/// J-format immediate: {inst[31], inst[19:12], inst[20], inst[30:21], 0}, sign-extended.
pub open spec fn imm_j(inst: u32) -> u32 {
    sext_spec(
        (((inst >> 31) & 1) << 20) | (((inst >> 12) & 0xff) << 12) | (((inst >> 20) & 1) << 11)
            | (((inst >> 21) & 0x3ff) << 1),
        21,
    )
}

/// `v` is the sign extension of its own low `w` bits.
pub open spec fn spans_width(v: u32, w: u32) -> bool {
    (v >> ((w - 1) as u32)) == 0 || (v >> ((w - 1) as u32)) == (0xffff_ffffu32 >> ((w - 1) as u32))
}

/// Every decoded immediate is a sign extension of exactly the width its
/// format documents: 12 bits for I and S, 13 (even) for B, 21 (even) for J,
/// and U immediates have their low 12 bits clear.
pub proof fn lemma_imm_widths(inst: u32)
    ensures
        spans_width(imm_i(inst), 12),
        spans_width(imm_s(inst), 12),
        spans_width(imm_b(inst), 13),
        imm_b(inst) & 1 == 0,
        imm_u(inst) & 0xfff == 0,
        spans_width(imm_j(inst), 21),
        imm_j(inst) & 1 == 0,
{
    assert(spans_width(imm_i(inst), 12) && spans_width(imm_s(inst), 12) && spans_width(imm_b(inst), 13)
        && imm_b(inst) & 1 == 0 && imm_u(inst) & 0xfff == 0 && spans_width(imm_j(inst), 21) && imm_j(inst)
        & 1 == 0) by (bit_vector);
}

/// Bits `hi..=lo` of `val`.
pub fn bits(val: Word, hi: u32, lo: u32) -> (r: Word)
    requires
        lo <= hi < 32,
        hi - lo < 31,
    ensures
        r == (val >> lo) & (((1u32 << ((hi - lo + 1) as u32)) - 1) as u32),
{
    let k = hi - lo + 1;
    proof {
        assert(k < 32 ==> (1u32 << k) >= 1) by (bit_vector);
    }
    (val >> lo) & ((1u32 << k) - 1)
}

/// Sign-extends the low `width` bits of `val`.
pub fn sext(val: Word, width: u32) -> (r: Word)
    requires
        1 <= width < 32,
    ensures
        r == sext_spec(val, width),
{
    if (val >> (width - 1)) & 1 == 1 {
        val | (0xffff_ffffu32 << width)
    } else {
        val
    }
}

/// A decoded instruction: its fields and, once a format is chosen, its immediate.
pub struct DecodedInst {
    pub inst: Word,
    pub opcode: u8,
    pub rd: usize,
    pub rs1: usize,
    pub rs2: usize,
    pub funct3: u8,
    pub funct7: u8,
    pub imm: Word,
    pub typ: InstType,
}

impl DecodedInst {
    /// The fields agree with the raw instruction word.
    pub open spec fn fields_ok(&self) -> bool {
        &&& self.opcode as u32 == opcode_of(self.inst)
        &&& self.rd as u32 == rd_of(self.inst)
        &&& self.rs1 as u32 == rs1_of(self.inst)
        &&& self.rs2 as u32 == rs2_of(self.inst)
        &&& self.funct3 as u32 == funct3_of(self.inst)
        &&& self.funct7 as u32 == funct7_of(self.inst)
        &&& self.rd < 32 && self.rs1 < 32 && self.rs2 < 32
    }

    pub open spec fn same_fields(&self, o: &DecodedInst) -> bool {
        &&& self.inst == o.inst && self.opcode == o.opcode && self.rd == o.rd
        &&& self.rs1 == o.rs1 && self.rs2 == o.rs2 && self.funct3 == o.funct3
        &&& self.funct7 == o.funct7
    }

    /// Splits `inst` into its fields; no format is chosen yet.
    pub fn new(inst: Word) -> (r: Self)
        ensures
            r.inst == inst,
            r.fields_ok(),
            r.imm == 0,
            r.typ == InstType::TypeN,
    {
        let opcode = bits(inst, 6, 0);
        let rd = bits(inst, 11, 7);
        let rs1 = bits(inst, 19, 15);
        let rs2 = bits(inst, 24, 20);
        let funct3 = bits(inst, 14, 12);
        let funct7 = bits(inst, 31, 25);
        proof {
            assert(((inst >> 0u32) & ((1u32 << 7u32) - 1) as u32) == inst & 0x7f && ((inst >> 7u32) & ((1u32
                << 5u32) - 1) as u32) == (inst >> 7) & 0x1f && ((inst >> 15u32) & ((1u32 << 5u32) - 1) as u32)
                == (inst >> 15) & 0x1f && ((inst >> 20u32) & ((1u32 << 5u32) - 1) as u32) == (inst >> 20) & 0x1f
                && ((inst >> 12u32) & ((1u32 << 3u32) - 1) as u32) == (inst >> 12) & 0x7 && ((inst >> 25u32)
                & ((1u32 << 7u32) - 1) as u32) == (inst >> 25) & 0x7f && inst & 0x7f < 128 && (inst >> 7) & 0x1f
                < 32 && (inst >> 15) & 0x1f < 32 && (inst >> 20) & 0x1f < 32 && (inst >> 12) & 0x7 < 8 && (inst
                >> 25) & 0x7f < 128) by (bit_vector);
        }
        DecodedInst {
            inst,
            opcode: opcode as u8,
            rd: rd as usize,
            rs1: rs1 as usize,
            rs2: rs2 as usize,
            funct3: funct3 as u8,
            funct7: funct7 as u8,
            imm: 0,
            typ: InstType::TypeN,
        }
    }

    pub fn decode_i(&mut self)
        ensures
            final(self).same_fields(old(self)),
            final(self).imm == imm_i(old(self).inst),
            final(self).typ == InstType::TypeI,
            spans_width(final(self).imm, 12),
    {
        self.imm = sext(self.inst >> 20, 12);
        self.typ = InstType::TypeI;
        proof { lemma_imm_widths(self.inst); }
    }

    pub fn decode_s(&mut self)
        ensures
            final(self).same_fields(old(self)),
            final(self).imm == imm_s(old(self).inst),
            final(self).typ == InstType::TypeS,
            spans_width(final(self).imm, 12),
    {
        self.imm = sext(((self.inst >> 25) << 5) | ((self.inst >> 7) & 0x1f), 12);
        self.typ = InstType::TypeS;
        proof { lemma_imm_widths(self.inst); }
    }

    pub fn decode_b(&mut self)
        ensures
            final(self).same_fields(old(self)),
            final(self).imm == imm_b(old(self).inst),
            final(self).typ == InstType::TypeB,
            spans_width(final(self).imm, 13),
            final(self).imm & 1 == 0,
    {
        let i = self.inst;
        self.imm = sext(
            (((i >> 31) & 1) << 12) | (((i >> 7) & 1) << 11) | (((i >> 25) & 0x3f) << 5) | (((i
                >> 8) & 0xf) << 1),
            13,
        );
        self.typ = InstType::TypeB;
        proof { lemma_imm_widths(self.inst); }
    }

    pub fn decode_u(&mut self)
        ensures
            final(self).same_fields(old(self)),
            final(self).imm == imm_u(old(self).inst),
            final(self).typ == InstType::TypeU,
            final(self).imm & 0xfff == 0,
    {
        self.imm = self.inst & 0xffff_f000;
        self.typ = InstType::TypeU;
        proof { lemma_imm_widths(self.inst); }
    }

    pub fn decode_j(&mut self)
        ensures
            final(self).same_fields(old(self)),
            final(self).imm == imm_j(old(self).inst),
            final(self).typ == InstType::TypeJ,
            spans_width(final(self).imm, 21),
            final(self).imm & 1 == 0,
    {
        let i = self.inst;
        self.imm = sext(
            (((i >> 31) & 1) << 20) | (((i >> 12) & 0xff) << 12) | (((i >> 20) & 1) << 11) | (((i
                >> 21) & 0x3ff) << 1),
            21,
        );
        self.typ = InstType::TypeJ;
        proof { lemma_imm_widths(self.inst); }
    }

    pub fn decode_r(&mut self)
        ensures
            final(self).same_fields(old(self)),
            final(self).imm == old(self).imm,
            final(self).typ == InstType::TypeR,
    {
        self.typ = InstType::TypeR;
    }
}

} // verus!
