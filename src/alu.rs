use vstd::prelude::*;
use vstd::math::abs;

verus! {

/// Two's-complement value of a word.
pub open spec fn signed(a: u32) -> int {
    if a < 0x8000_0000 {
        a as int
    } else {
        a as int - 0x1_0000_0000
    }
}

/// The word whose two's-complement value is `x` modulo 2^32.
pub open spec fn word_of(x: int) -> u32 {
    (x % 0x1_0000_0000) as u32
}

/// Division rounding toward zero.
pub open spec fn tdiv(x: int, y: int) -> int {
    let q = (abs(x) / abs(y)) as int;
    if (x < 0) != (y < 0) {
        -q
    } else {
        q
    }
}

/// Remainder of the division rounding toward zero (sign of the dividend).
pub open spec fn trem(x: int, y: int) -> int {
    let r = (abs(x) % abs(y)) as int;
    if x < 0 {
        -r
    } else {
        r
    }
}

/// Signed less-than on words.
pub open spec fn slt(a: u32, b: u32) -> bool {
    signed(a) < signed(b)
}

pub fn lt_signed(a: u32, b: u32) -> (r: bool)
    ensures
        r == slt(a, b),
{
    let r = (a ^ 0x8000_0000) < (b ^ 0x8000_0000);
    proof {
        assert(a < 0x8000_0000 ==> a ^ 0x8000_0000 == a + 0x8000_0000) by (bit_vector);
        assert(a >= 0x8000_0000 ==> a ^ 0x8000_0000 == a - 0x8000_0000) by (bit_vector);
        assert(b < 0x8000_0000 ==> b ^ 0x8000_0000 == b + 0x8000_0000) by (bit_vector);
        assert(b >= 0x8000_0000 ==> b ^ 0x8000_0000 == b - 0x8000_0000) by (bit_vector);
    }
    r
}

/// Arithmetic right shift.
pub open spec fn sra(a: u32, sh: u32) -> u32 {
    if a >> 31 == 1 {
        !((!a) >> sh)
    } else {
        a >> sh
    }
}

pub fn shift_right_arith(a: u32, sh: u32) -> (r: u32)
    requires
        sh < 32,
    ensures
        r == sra(a, sh),
{
    if a >> 31 == 1 {
        !((!a) >> sh)
    } else {
        a >> sh
    }
}

/// Magnitude of the two's-complement value, as a word.
fn magnitude(a: u32) -> (r: u32)
    ensures
        r as int == abs(signed(a)),
{
    if a >> 31 == 1 {
        proof {
            assert(a >> 31 == 1 ==> a >= 0x8000_0000) by (bit_vector);
            assert(a >= 0x8000_0000 ==> (!a) as int == 0xffff_ffff - a) by (bit_vector);
        }
        (!a) + 1
    } else {
        proof {
            assert(a >> 31 != 1 ==> a < 0x8000_0000) by (bit_vector);
        }
        a
    }
}

/// The word of `-m` for a magnitude `m`.
fn negate(m: u32) -> (r: u32)
    ensures
        r == word_of(-(m as int)),
{
    proof {
        assert((!m) as int == 0xffff_ffff - m) by (bit_vector);
        if m == 0 {
            assert(word_of(0) == 0);
        } else {
            vstd::arithmetic::div_mod::lemma_fundamental_div_mod_converse(
                -(m as int),
                0x1_0000_0000,
                -1,
                0x1_0000_0000 - m,
            );
        }
    }
    (!m).wrapping_add(1)
}

/// DIV: all ones on a zero divisor; INT_MIN / -1 gives INT_MIN.
pub open spec fn div_spec(a: u32, b: u32) -> u32 {
    if b == 0 {
        0xffff_ffff
    } else {
        word_of(tdiv(signed(a), signed(b)))
    }
}

/// REM: the dividend on a zero divisor; INT_MIN % -1 gives 0.
pub open spec fn rem_spec(a: u32, b: u32) -> u32 {
    if b == 0 {
        a
    } else {
        word_of(trem(signed(a), signed(b)))
    }
}

pub fn div_signed(a: u32, b: u32) -> (r: u32)
    ensures
        r == div_spec(a, b),
{
    if b == 0 {
        return 0xffff_ffff;
    }
    let ua = magnitude(a);
    let ub = magnitude(b);
    let q = ua / ub;
    let neg = (a >> 31) != (b >> 31);
    proof {
        assert((a >> 31 == 1) == (a >= 0x8000_0000)) by (bit_vector);
        assert((b >> 31 == 1) == (b >= 0x8000_0000)) by (bit_vector);
        assert(a >> 31 <= 1 && b >> 31 <= 1) by (bit_vector);
        assert(ub > 0);
    }
    if neg {
        negate(q)
    } else {
        proof {
            vstd::arithmetic::div_mod::lemma_small_mod(q as nat, 0x1_0000_0000);
        }
        q
    }
}

pub fn rem_signed(a: u32, b: u32) -> (r: u32)
    ensures
        r == rem_spec(a, b),
{
    if b == 0 {
        return a;
    }
    let ua = magnitude(a);
    let ub = magnitude(b);
    let m = ua % ub;
    proof {
        assert((a >> 31 == 1) == (a >= 0x8000_0000)) by (bit_vector);
        assert(ub > 0);
    }
    if a >> 31 == 1 {
        negate(m)
    } else {
        proof {
            vstd::arithmetic::div_mod::lemma_small_mod(m as nat, 0x1_0000_0000);
        }
        m
    }
}

/// High word of the unsigned 64-bit product.
pub open spec fn mulhu_spec(a: u32, b: u32) -> u32 {
    ((a as int * b as int) / 0x1_0000_0000) as u32
}

/// The 64-bit pattern of the sign extension of `a`.
pub open spec fn sext64(a: u32) -> u64 {
    if a >= 0x8000_0000 {
        (a as int + 0xffff_ffff_0000_0000) as u64
    } else {
        a as u64
    }
}

/// High word of the signed x signed product.
pub open spec fn mulh_spec(a: u32, b: u32) -> u32 {
    (((sext64(a) as int * sext64(b) as int) % 0x1_0000_0000_0000_0000) / 0x1_0000_0000) as u32
}

/// High word of the signed x unsigned product.
pub open spec fn mulhsu_spec(a: u32, b: u32) -> u32 {
    (((sext64(a) as int * b as int) % 0x1_0000_0000_0000_0000) / 0x1_0000_0000) as u32
}

fn to_sext64(a: u32) -> (r: u64)
    ensures
        r == sext64(a),
{
    if a >= 0x8000_0000 {
        a as u64 + 0xffff_ffff_0000_0000
    } else {
        a as u64
    }
}

pub fn mulhu(a: u32, b: u32) -> (r: u32)
    ensures
        r == mulhu_spec(a, b),
{
    proof {
        vstd::arithmetic::mul::lemma_mul_upper_bound(a as int, 0xffff_ffff, b as int, 0xffff_ffff);
    }
    let t = (a as u64) * (b as u64);
    proof {
        assert((t >> 32u64) == t / 0x1_0000_0000) by (bit_vector);
        assert(t / 0x1_0000_0000 <= 0xffff_ffff) by (bit_vector);
    }
    (t >> 32) as u32
}

pub fn mulh(a: u32, b: u32) -> (r: u32)
    ensures
        r == mulh_spec(a, b),
{
    let t = to_sext64(a).wrapping_mul(to_sext64(b));
    proof {
        assert((t >> 32u64) == t / 0x1_0000_0000) by (bit_vector);
        assert(t / 0x1_0000_0000 <= 0xffff_ffff) by (bit_vector);
    }
    (t >> 32) as u32
}

pub fn mulhsu(a: u32, b: u32) -> (r: u32)
    ensures
        r == mulhsu_spec(a, b),
{
    let t = to_sext64(a).wrapping_mul(b as u64);
    proof {
        assert((t >> 32u64) == t / 0x1_0000_0000) by (bit_vector);
        assert(t / 0x1_0000_0000 <= 0xffff_ffff) by (bit_vector);
    }
    (t >> 32) as u32
}

} // verus!
