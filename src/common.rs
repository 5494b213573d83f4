use vstd::prelude::*;
use vstd::string::StringExecFns;

verus! {

pub type Word = u32;

pub type SWord = i32;

pub type PAddr = u32;

pub type VAddr = u32;

/// Run state of the emulator as a whole.
#[derive(Debug, Clone, Copy, PartialEq, Eq, Structural)]
pub enum RemuState {
    Running,
    Stop,
    End,
    Abort,
    Quit,
}

/// Privilege modes of the hart.
#[derive(Debug, Clone, Copy, PartialEq, Eq, Structural)]
pub enum PrivMode {
    User,
    Supervisor,
    Machine,
}

/// The two-bit encoding of a privilege mode (U = 0, S = 1, M = 3).
pub open spec fn mode_bits(m: PrivMode) -> u32 {
    match m {
        PrivMode::User => 0,
        PrivMode::Supervisor => 1,
        PrivMode::Machine => 3,
    }
}

impl PrivMode {
    pub fn bits(&self) -> (r: u32)
        ensures
            r == mode_bits(*self),
    {
        match self {
            PrivMode::User => 0,
            PrivMode::Supervisor => 1,
            PrivMode::Machine => 3,
        }
    }
}

pub const ANSI_FG_BLACK: &'static str = "\x1b[30m";

pub const ANSI_FG_RED: &'static str = "\x1b[31m";

pub const ANSI_FG_GREEN: &'static str = "\x1b[32m";

pub const ANSI_FG_YELLOW: &'static str = "\x1b[33m";

pub const ANSI_FG_BLUE: &'static str = "\x1b[34m";

pub const ANSI_FG_MAGENTA: &'static str = "\x1b[35m";

pub const ANSI_FG_CYAN: &'static str = "\x1b[36m";

pub const ANSI_FG_WHITE: &'static str = "\x1b[37m";

pub const ANSI_BG_RED: &'static str = "\x1b[41m";

pub const ANSI_RESET: &'static str = "\x1b[0m";

/// Lower-case hexadecimal digit for a value below 16.
pub open spec fn hex_digit(d: u32) -> char {
    if d < 10 {
        (('0' as u32) + d) as char
    } else {
        (('a' as u32) + d - 10) as char
    }
}

/// Hexadecimal text of `v` without leading zeros ("0" for zero).
pub open spec fn hex_text(v: u32) -> Seq<char>
    decreases v,
{
    if v < 16 {
        seq![hex_digit(v)]
    } else {
        hex_text(v / 16) + seq![hex_digit(v % 16)]
    }
}

/// The last `n` hexadecimal digits of `v`, zero-padded.
pub open spec fn hex_padded(v: u32, n: nat) -> Seq<char>
    decreases n,
{
    if n == 0 {
        Seq::empty()
    } else {
        hex_padded(v / 16, (n - 1) as nat) + seq![hex_digit(v % 16)]
    }
}

/// `0x` followed by the eight hexadecimal digits of `w`.
pub open spec fn word_text(w: u32) -> Seq<char> {
    seq!['0', 'x'] + hex_padded(w, 8)
}

pub fn digit_str(d: u32) -> (r: &'static str)
    requires
        d < 16,
    ensures
        r@ == seq![hex_digit(d)],
{
    proof {
        reveal_strlit("0");
        reveal_strlit("1");
        reveal_strlit("2");
        reveal_strlit("3");
        reveal_strlit("4");
        reveal_strlit("5");
        reveal_strlit("6");
        reveal_strlit("7");
        reveal_strlit("8");
        reveal_strlit("9");
        reveal_strlit("a");
        reveal_strlit("b");
        reveal_strlit("c");
        reveal_strlit("d");
        reveal_strlit("e");
        reveal_strlit("f");
    }
    match d {
        0 => "0",
        1 => "1",
        2 => "2",
        3 => "3",
        4 => "4",
        5 => "5",
        6 => "6",
        7 => "7",
        8 => "8",
        9 => "9",
        10 => "a",
        11 => "b",
        12 => "c",
        13 => "d",
        14 => "e",
        _ => "f",
    }
}

/// Appends the hexadecimal text of `v` (no leading zeros).
pub fn push_hex(s: &mut String, v: u32)
    ensures
        final(s)@ == old(s)@ + hex_text(v),
    decreases v,
{
    if v < 16 {
        s.append(digit_str(v));
    } else {
        push_hex(s, v / 16);
        s.append(digit_str(v % 16));
        proof {
            assert(final(s)@ =~= old(s)@ + hex_text(v));
        }
    }
}

/// Appends the last `n` hexadecimal digits of `v`, zero-padded.
pub fn push_hex_padded(s: &mut String, v: u32, n: u32)
    ensures
        final(s)@ == old(s)@ + hex_padded(v, n as nat),
    decreases n,
{
    if n > 0 {
        push_hex_padded(s, v / 16, n - 1);
        s.append(digit_str(v % 16));
        proof {
            assert(final(s)@ =~= old(s)@ + hex_padded(v, n as nat));
        }
    } else {
        proof {
            assert(final(s)@ =~= old(s)@ + hex_padded(v, n as nat));
        }
    }
}

/// Formats a word as `0x` and eight hexadecimal digits.
pub fn fmt_word(w: Word) -> (r: String)
    ensures
        r@ == word_text(w),
{
    let mut s = String::new();
    proof {
        reveal_strlit("0x");
    }
    s.append("0x");
    push_hex_padded(&mut s, w, 8);
    s
}

/// Formats a physical address as `0x` and eight hexadecimal digits.
pub fn fmt_paddr(p: PAddr) -> (r: String)
    ensures
        r@ == word_text(p),
{
    fmt_word(p)
}

/// Wraps `text` in the given colour code and the reset code.
pub fn colored(text: &str, color: &str) -> (r: String)
    ensures
        r@ == color@ + text@ + ANSI_RESET@,
{
    let mut s = String::new();
    s.append(color);
    s.append(text);
    s.append(ANSI_RESET);
    proof {
        assert(s@ =~= color@ + text@ + ANSI_RESET@);
    }
    s
}

/// Decimal text of `v` without leading zeros ("0" for zero).
pub open spec fn dec_text(v: u64) -> Seq<char>
    decreases v,
{
    if v < 10 {
        seq![hex_digit(v as u32)]
    } else {
        dec_text(v / 10) + seq![hex_digit((v % 10) as u32)]
    }
}

/// Appends the decimal text of `v`.
pub fn push_dec(s: &mut String, v: u64)
    ensures
        final(s)@ == old(s)@ + dec_text(v),
    decreases v,
{
    if v < 10 {
        s.append(digit_str(v as u32));
    } else {
        push_dec(s, v / 10);
        s.append(digit_str((v % 10) as u32));
        proof {
            assert(final(s)@ =~= old(s)@ + dec_text(v));
        }
    }
}

/// Decimal text of a signed value.
pub open spec fn signed_dec_text(v: i32) -> Seq<char> {
    if v < 0 {
        seq!['-'] + dec_text((-(v as int)) as u64)
    } else {
        dec_text(v as u64)
    }
}

pub fn push_signed_dec(s: &mut String, v: i32)
    ensures
        final(s)@ == old(s)@ + signed_dec_text(v),
{
    if v < 0 {
        proof {
            reveal_strlit("-");
        }
        s.append("-");
        let m: u64 = (-(v as i64)) as u64;
        push_dec(s, m);
        proof {
            assert(final(s)@ =~= old(s)@ + signed_dec_text(v));
        }
    } else {
        push_dec(s, v as u64);
    }
}

/// Three decimal digits of `v` (below 1000), zero-padded.
pub open spec fn dec3_text(v: u64) -> Seq<char> {
    seq![hex_digit((v / 100) as u32), hex_digit(((v / 10) % 10) as u32), hex_digit((v % 10) as u32)]
}

/// Decimal text of `v` with a comma between groups of three digits.
pub open spec fn grouped_text(v: u64) -> Seq<char>
    decreases v,
{
    if v < 1000 {
        dec_text(v)
    } else {
        grouped_text(v / 1000) + seq![','] + dec3_text(v % 1000)
    }
}

fn push_grouped(s: &mut String, v: u64)
    ensures
        final(s)@ == old(s)@ + grouped_text(v),
    decreases v,
{
    if v < 1000 {
        push_dec(s, v);
    } else {
        push_grouped(s, v / 1000);
        proof {
            reveal_strlit(",");
        }
        s.append(",");
        let r = v % 1000;
        s.append(digit_str((r / 100) as u32));
        s.append(digit_str(((r / 10) % 10) as u32));
        s.append(digit_str((r % 10) as u32));
        proof {
            assert(final(s)@ =~= old(s)@ + grouped_text(v));
        }
    }
}

/// `v` in decimal with thousands separated by commas (1,234,567).
pub fn group_thousands(v: u64) -> (r: String)
    ensures
        r@ == grouped_text(v),
{
    let mut s = String::new();
    push_grouped(&mut s, v);
    assert(s@ =~= grouped_text(v));
    s
}

} // verus!
