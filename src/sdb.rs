use vstd::prelude::*;

verus! {

/// A command of the step-and-inspect debugger.
#[derive(Debug, Clone, PartialEq, Eq)]
pub enum Command {
    /// An empty line.
    Empty,
    /// `c` / `continue`: run to termination.
    Continue,
    /// `q` / `quit`.
    Quit,
    /// `si [N]`: step N instructions.
    Step(u64),
    /// `info r`: print PC and the registers.
    InfoRegs,
    /// `info` with an unknown subcommand.
    InfoUnknown,
    /// `info` alone: nothing to do.
    InfoNone,
    /// `help`.
    Help,
    /// Any other first word.
    Unknown(Vec<u8>),
}

pub open spec fn is_space(b: u8) -> bool {
    b == 32 || b == 9 || b == 10 || b == 13 || b == 11 || b == 12
}

/// Whitespace-separated words of `s` from position `i`, given the words
/// already split off and the word in progress.
pub open spec fn split_from(s: Seq<u8>, i: int, words: Seq<Seq<u8>>, cur: Seq<u8>) -> Seq<Seq<u8>>
    decreases s.len() - i,
{
    if i >= s.len() || i < 0 {
        if cur.len() > 0 {
            words.push(cur)
        } else {
            words
        }
    } else if is_space(s[i]) {
        split_from(s, i + 1, if cur.len() > 0 { words.push(cur) } else { words }, Seq::empty())
    } else {
        split_from(s, i + 1, words, cur.push(s[i]))
    }
}

/// The whitespace-separated words of a line.
pub open spec fn words_of(s: Seq<u8>) -> Seq<Seq<u8>> {
    split_from(s, 0, Seq::empty(), Seq::empty())
}

/// Splits a line into its whitespace-separated words.
pub fn split_words(line: &Vec<u8>) -> (r: Vec<Vec<u8>>)
    ensures
        r@.map_values(|w: Vec<u8>| w@) == words_of(line@),
{
    let mut words: Vec<Vec<u8>> = Vec::new();
    let mut cur: Vec<u8> = Vec::new();
    let mut i: usize = 0;
    assert(words@.map_values(|w: Vec<u8>| w@) =~= Seq::<Seq<u8>>::empty());
    assert(cur@ =~= Seq::<u8>::empty());
    while i < line.len()
        invariant
            i <= line@.len(),
            split_from(line@, i as int, words@.map_values(|w: Vec<u8>| w@), cur@) == words_of(line@),
        decreases line@.len() - i,
    {
        let b = line[i];
        if b == 32 || b == 9 || b == 10 || b == 13 || b == 11 || b == 12 {
            if cur.len() > 0 {
                let ghost before = words@.map_values(|w: Vec<u8>| w@);
                let ghost c = cur@;
                words.push(cur);
                assert(words@.map_values(|w: Vec<u8>| w@) =~= before.push(c));
                cur = Vec::new();
            }
            assert(cur@ =~= Seq::<u8>::empty());
        } else {
            cur.push(b);
        }
        i = i + 1;
    }
    if cur.len() > 0 {
        let ghost before = words@.map_values(|w: Vec<u8>| w@);
        let ghost c = cur@;
        words.push(cur);
        assert(words@.map_values(|w: Vec<u8>| w@) =~= before.push(c));
    }
    words
}

/// Value of a run of decimal digits, if it fits in 64 bits.
pub open spec fn digits_value(s: Seq<u8>) -> int
    decreases s.len(),
{
    if s.len() == 0 {
        0
    } else {
        digits_value(s.drop_last()) * 10 + (s.last() - 48)
    }
}

pub open spec fn all_digits(s: Seq<u8>) -> bool {
    forall|i: int| 0 <= i < s.len() ==> 48 <= #[trigger] s[i] <= 57
}

/// The digits of a step count: the word without a leading `+`.
pub open spec fn count_digits(s: Seq<u8>) -> Seq<u8> {
    if s.len() > 0 && s[0] == 43 {
        s.subrange(1, s.len() as int)
    } else {
        s
    }
}

/// A step count: optional `+`, then at least one digit, within `u64`.
pub open spec fn parse_count(s: Seq<u8>) -> Option<u64> {
    let d = count_digits(s);
    if d.len() > 0 && all_digits(d) && digits_value(d) <= u64::MAX {
        Some(digits_value(d) as u64)
    } else {
        None
    }
}

proof fn lemma_digits_prefix(s: Seq<u8>, i: int)
    requires
        0 <= i < s.len(),
    ensures
        s.subrange(0, i + 1).drop_last() == s.subrange(0, i),
        s.subrange(0, i + 1).last() == s[i],
{
    assert(s.subrange(0, i + 1).drop_last() =~= s.subrange(0, i));
}

proof fn lemma_digits_nonneg(s: Seq<u8>)
    requires
        all_digits(s),
    ensures
        digits_value(s) >= 0,
    decreases s.len(),
{
    if s.len() > 0 {
        assert(all_digits(s.drop_last())) by {
            assert forall|i: int| 0 <= i < s.drop_last().len() implies 48 <= #[trigger] s.drop_last()[i] <= 57 by {
                assert(s.drop_last()[i] == s[i]);
            }
        }
        lemma_digits_nonneg(s.drop_last());
    }
}

proof fn lemma_digits_monotone(s: Seq<u8>, i: int)
    requires
        all_digits(s),
        0 <= i <= s.len(),
    ensures
        digits_value(s.subrange(0, i)) <= digits_value(s),
    decreases s.len() - i,
{
    if i < s.len() {
        lemma_digits_monotone(s, i + 1);
        lemma_digits_prefix(s, i);
        let p = s.subrange(0, i);
        assert(all_digits(p)) by {
            assert forall|j: int| 0 <= j < p.len() implies 48 <= #[trigger] p[j] <= 57 by {
                assert(p[j] == s[j]);
            }
        }
        lemma_digits_nonneg(p);
        assert(digits_value(s.subrange(0, i + 1)) == digits_value(p) * 10 + (s[i] - 48));
    } else {
        assert(s.subrange(0, i) =~= s);
    }
}

/// Parses a step count as `u64::from_str` does.
pub fn parse_u64(w: &Vec<u8>) -> (r: Option<u64>)
    ensures
        r == parse_count(w@),
{
    let start: usize = if w.len() > 0 && w[0] == 43 { 1 } else { 0 };
    let ghost d = count_digits(w@);
    if start >= w.len() {
        assert(d.len() == 0);
        assert(parse_count(w@) is None);
        return None;
    }
    let mut v: u64 = 0;
    let mut i: usize = start;
    while i < w.len()
        invariant
            start <= i <= w@.len(),
            start == 0 || start == 1,
            d == w@.subrange(start as int, w@.len() as int),
            d == count_digits(w@),
            forall|j: int| start <= j < i ==> 48 <= #[trigger] w@[j] <= 57,
            v == digits_value(d.subrange(0, i - start)),
        decreases w@.len() - i,
    {
        let b = w[i];
        if b < 48 || b > 57 {
            assert(d[i - start] == b);
            assert(!all_digits(d));
            assert(!all_digits(count_digits(w@)));
            assert(parse_count(w@) is None);
            return None;
        }
        proof {
            lemma_digits_prefix(d, i - start);
        }
        if v > (u64::MAX - (b - 48) as u64) / 10 {
            proof {
                assert(all_digits(d) ==> digits_value(d) > u64::MAX) by {
                    if all_digits(d) {
                        lemma_digits_monotone(d, i - start + 1);
                        assert(digits_value(d.subrange(0, i - start + 1)) == v * 10 + (b - 48)) by {
                            assert(d.subrange(0, i - start + 1).last() == b);
                        }
                        assert(v * 10 + (b - 48) > u64::MAX) by (nonlinear_arith)
                            requires
                                v > (u64::MAX - (b - 48) as u64) / 10,
                                b >= 48,
                        ;
                    }
                }
                assert(!all_digits(count_digits(w@)) || digits_value(count_digits(w@)) > u64::MAX);
                assert(parse_count(w@) is None);
            }
            return None;
        }
        proof {
            assert(v * 10 + (b - 48) <= u64::MAX) by (nonlinear_arith)
                requires
                    v <= (u64::MAX - (b - 48) as u64) / 10,
                    b >= 48,
                    b <= 57,
            ;
        }
        v = v * 10 + (b - 48) as u64;
        i = i + 1;
    }
    proof {
        assert(d.subrange(0, i - start) =~= d);
        assert(all_digits(d)) by {
            assert forall|j: int| 0 <= j < d.len() implies 48 <= #[trigger] d[j] <= 57 by {
                assert(d[j] == w@[j + start]);
            }
        }
    }
    Some(v)
}

/// `w` spells the ASCII word `k`.
pub fn word_is(w: &Vec<u8>, k: &Vec<u8>) -> (r: bool)
    ensures
        r == (w@ == k@),
{
    if w.len() != k.len() {
        return false;
    }
    let mut i: usize = 0;
    while i < w.len()
        invariant
            i <= w@.len(),
            w@.len() == k@.len(),
            forall|j: int| 0 <= j < i ==> w@[j] == k@[j],
        decreases w@.len() - i,
    {
        if w[i] != k[i] {
            return false;
        }
        i = i + 1;
    }
    assert(w@ =~= k@);
    true
}

pub open spec fn kw_c() -> Seq<u8> { seq![99u8] }
pub open spec fn kw_continue() -> Seq<u8> { seq![99u8, 111, 110, 116, 105, 110, 117, 101] }
pub open spec fn kw_q() -> Seq<u8> { seq![113u8] }
pub open spec fn kw_quit() -> Seq<u8> { seq![113u8, 117, 105, 116] }
pub open spec fn kw_si() -> Seq<u8> { seq![115u8, 105] }
pub open spec fn kw_info() -> Seq<u8> { seq![105u8, 110, 102, 111] }
pub open spec fn kw_r() -> Seq<u8> { seq![114u8] }
pub open spec fn kw_help() -> Seq<u8> { seq![104u8, 101, 108, 112] }

/// `c` is the command that a line with words `w` names.
pub open spec fn command_matches(c: Command, w: Seq<Seq<u8>>) -> bool {
    if w.len() == 0 {
        c == Command::Empty
    } else if w[0] == kw_c() || w[0] == kw_continue() {
        c == Command::Continue
    } else if w[0] == kw_q() || w[0] == kw_quit() {
        c == Command::Quit
    } else if w[0] == kw_si() {
        c == Command::Step(
            if w.len() > 1 && parse_count(w[1]).is_some() { parse_count(w[1]).unwrap() } else { 1 },
        )
    } else if w[0] == kw_info() {
        if w.len() <= 1 {
            c == Command::InfoNone
        } else if w[1] == kw_r() {
            c == Command::InfoRegs
        } else {
            c == Command::InfoUnknown
        }
    } else if w[0] == kw_help() {
        c == Command::Help
    } else {
        c matches Command::Unknown(x) && x@ == w[0]
    }
}

/// Reads one debugger command line.
pub fn handle_command(line: &Vec<u8>) -> (r: Command)
    ensures
        command_matches(r, words_of(line@)),
{
    let words = split_words(line);
    let ghost ws = words@.map_values(|w: Vec<u8>| w@);
    if words.len() == 0 {
        return Command::Empty;
    }
    assert(ws[0] == words@[0]@);
    let first = &words[0];
    let k_c = vec![99u8];
    let k_continue = vec![99u8, 111, 110, 116, 105, 110, 117, 101];
    let k_q = vec![113u8];
    let k_quit = vec![113u8, 117, 105, 116];
    let k_si = vec![115u8, 105];
    let k_info = vec![105u8, 110, 102, 111];
    let k_r = vec![114u8];
    let k_help = vec![104u8, 101, 108, 112];
    assert(k_c@ =~= kw_c() && k_continue@ =~= kw_continue() && k_q@ =~= kw_q() && k_quit@ =~= kw_quit());
    assert(k_si@ =~= kw_si() && k_info@ =~= kw_info() && k_r@ =~= kw_r() && k_help@ =~= kw_help());
    if word_is(first, &k_c) || word_is(first, &k_continue) {
        Command::Continue
    } else if word_is(first, &k_q) || word_is(first, &k_quit) {
        Command::Quit
    } else if word_is(first, &k_si) {
        let n = if words.len() > 1 {
            assert(ws[1] == words@[1]@);
            match parse_u64(&words[1]) {
                Some(n) => n,
                None => 1,
            }
        } else {
            1
        };
        Command::Step(n)
    } else if word_is(first, &k_info) {
        if words.len() <= 1 {
            Command::InfoNone
        } else {
            assert(ws[1] == words@[1]@);
            if word_is(&words[1], &k_r) {
                Command::InfoRegs
            } else {
                Command::InfoUnknown
            }
        }
    } else if word_is(first, &k_help) {
        Command::Help
    } else {
        Command::Unknown(first.clone())
    }
}

} // verus!
