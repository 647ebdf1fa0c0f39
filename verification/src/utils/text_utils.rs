use vstd::prelude::*;
use vstd::std_specs::iter::IteratorSpec;

verus! {

/// `String::push` of the standard library: the string afterwards is the
/// string before with the one character added at its end.
pub assume_specification[ std::string::String::push ](s: &mut std::string::String, ch: char)
    ensures
        final(s)@ == old(s)@.push(ch),
;

/// The byte of the digit `0`.
pub const DIGIT_ZERO: u8 = 0x30;

/// The byte of the digit `9`.
pub const DIGIT_NINE: u8 = 0x39;

/// The character that writes the digit `d`.
pub open spec fn digit_char(d: nat) -> char
    recommends
        d < 10,
{
    ((DIGIT_ZERO + d) as u8) as char
}

/// A number in decimal notation, without leading zeros.
pub open spec fn decimal_text(n: nat) -> Seq<char>
    decreases n,
{
    if n < 10 {
        seq![digit_char(n)]
    } else {
        decimal_text(n / 10).push(digit_char(n % 10))
    }
}

/// `text` with every occurrence of `from` replaced by `to`.
///
/// Occurrences are looked for from the left and do not overlap. An empty
/// `from` occurs nowhere.
pub open spec fn replaced(text: Seq<char>, from: Seq<char>, to: Seq<char>) -> Seq<char>
    decreases text.len(),
{
    if from.len() == 0 || text.len() < from.len() {
        text
    } else if text.subrange(0, from.len() as int) == from {
        to + replaced(text.subrange(from.len() as int, text.len() as int), from, to)
    } else {
        seq![text[0]] + replaced(text.subrange(1, text.len() as int), from, to)
    }
}

/// The texts of `parts` in order, with `separator` between each two.
pub open spec fn joined(parts: Seq<Seq<char>>, separator: Seq<char>) -> Seq<char>
    decreases parts.len(),
{
    if parts.len() == 0 {
        Seq::empty()
    } else if parts.len() == 1 {
        parts[0]
    } else {
        joined(parts.drop_last(), separator) + separator + parts.last()
    }
}

/// The characters of a text, one by one.
pub fn chars_of(text: &str) -> (chars: Vec<char>)
    ensures
        chars@ == text@,
{
    let mut chars: Vec<char> = Vec::new();
    for c in it: text.chars()
        invariant
            chars@ == it.seq().subrange(0, it.index() as int),
            it.seq() == text@,
    {
        chars.push(c);
    }
    chars
}

/// The text that a run of characters spells.
pub fn string_of(chars: &Vec<char>) -> (text: String)
    ensures
        text@ == chars@,
{
    let mut text = String::new();
    let mut i: usize = 0;
    while i < chars.len()
        invariant
            i <= chars@.len(),
            text@ == chars@.subrange(0, i as int),
        decreases chars@.len() - i,
    {
        text.push(chars[i]);
        i = i + 1;
        assert(chars@.subrange(0, i as int) == chars@.subrange(0, i - 1).push(chars@[i - 1]));
    }
    assert(chars@.subrange(0, i as int) == chars@);
    text
}

/// The character that writes a digit.
pub(crate) fn digit_of(d: u32) -> (c: char)
    requires
        d < 10,
    ensures
        c == digit_char(d as nat),
{
    (DIGIT_ZERO + d as u8) as char
}

/// Writes `n` in decimal notation at the end of `out`.
pub fn push_decimal(out: &mut String, n: u32)
    ensures
        final(out)@ == old(out)@ + decimal_text(n as nat),
    decreases n,
{
    if n >= 10 {
        push_decimal(out, n / 10);
    }
    out.push(digit_of(n % 10));
    assert(final(out)@ == old(out)@ + decimal_text(n as nat));
}

/// Tells whether `pattern` stands in `text` at position `at`.
fn occurs_at(text: &Vec<char>, at: usize, pattern: &Vec<char>) -> (found: bool)
    requires
        at + pattern@.len() <= text@.len(),
    ensures
        found == (text@.subrange(at as int, at + pattern@.len()) == pattern@),
{
    let n = text.len();
    let mut k: usize = 0;
    while k < pattern.len()
        invariant
            k <= pattern@.len(),
            at + pattern@.len() <= text@.len(),
            n == text@.len(),
            forall|j: int| 0 <= j < k ==> text@[at + j] == pattern@[j],
        decreases pattern@.len() - k,
    {
        if text[at + k] != pattern[k] {
            assert(text@.subrange(at as int, at + pattern@.len())[k as int] != pattern@[k as int]);
            return false;
        }
        k = k + 1;
    }
    assert(text@.subrange(at as int, at + pattern@.len()) =~= pattern@);
    true
}

/// Replaces every occurrence of `from` in `text` by `to`.
pub fn replace(text: &Vec<char>, from: &Vec<char>, to: &Vec<char>) -> (out: Vec<char>)
    ensures
        out@ == replaced(text@, from@, to@),
{
    let n = text.len();
    let m = from.len();
    let mut out: Vec<char> = Vec::new();
    let mut i: usize = 0;
    assert(text@.subrange(0, n as int) == text@);
    assert(out@ + replaced(text@, from@, to@) == replaced(text@, from@, to@));
    while i < n
        invariant
            i <= n,
            n == text@.len(),
            m == from@.len(),
            out@ + replaced(text@.subrange(i as int, n as int), from@, to@) == replaced(
                text@,
                from@,
                to@,
            ),
        decreases n - i,
    {
        let ghost rest = text@.subrange(i as int, n as int);
        if m > 0 && n - i >= m && occurs_at(text, i, from) {
            let mut k: usize = 0;
            let ghost before = out@;
            while k < to.len()
                invariant
                    k <= to@.len(),
                    out@ == before + to@.subrange(0, k as int),
                decreases to@.len() - k,
            {
                out.push(to[k]);
                k = k + 1;
                assert(to@.subrange(0, k as int) == to@.subrange(0, k - 1).push(to@[k - 1]));
            }
            proof {
                assert(to@.subrange(0, k as int) == to@);
                assert(rest.subrange(0, m as int) == text@.subrange(i as int, i + m));
                assert(rest.subrange(m as int, rest.len() as int) == text@.subrange(
                    i + m,
                    n as int,
                ));
                assert(out@ + replaced(text@.subrange(i + m, n as int), from@, to@) == before + (
                to@ + replaced(text@.subrange(i + m, n as int), from@, to@)));
            }
            i = i + m;
        } else {
            let ghost before = out@;
            out.push(text[i]);
            proof {
                let tail = text@.subrange(i + 1, n as int);
                assert(rest.subrange(1, rest.len() as int) == tail);
                assert(rest[0] == text@[i as int]);
                if m == 0 || rest.len() < m {
                    assert(replaced(rest, from@, to@) == rest);
                    assert(replaced(tail, from@, to@) == tail);
                    assert(rest == seq![rest[0]] + tail);
                } else {
                    assert(rest.subrange(0, m as int) == text@.subrange(i as int, i + m));
                }
                assert(replaced(rest, from@, to@) == seq![rest[0]] + replaced(tail, from@, to@));
                assert(out@ + replaced(tail, from@, to@) == before + (seq![rest[0]] + replaced(
                    tail,
                    from@,
                    to@,
                )));
            }
            i = i + 1;
        }
    }
    assert(text@.subrange(n as int, n as int) == Seq::<char>::empty());
    assert(out@ + Seq::<char>::empty() == out@);
    out
}

} // verus!
