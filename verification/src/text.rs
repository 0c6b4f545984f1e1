//! Characters, words and decimal numerals.
//!
//! Everything here is stated over `Seq<char>`, the view of a string. The
//! executable functions work on a `Vec<char>` so that a position is reached in
//! one step.

use vstd::prelude::*;
use vstd::arithmetic::power::{lemma_pow_positive, pow};
use vstd::std_specs::iter::IteratorSpec;

verus! {

/// `String::push` appends one character and leaves the rest as it was.
pub assume_specification[ String::push ](s: &mut String, c: char)
    ensures
        final(s)@ == old(s)@.push(c),
;

/// The code points that Unicode gives the property `White_Space`: what
/// separates one word from the next.
pub open spec fn is_space(c: char) -> bool {
    let n = c as u32;
    ||| 0x09 <= n <= 0x0d
    ||| n == 0x20
    ||| n == 0x85
    ||| n == 0xa0
    ||| n == 0x1680
    ||| 0x2000 <= n <= 0x200a
    ||| n == 0x2028
    ||| n == 0x2029
    ||| n == 0x202f
    ||| n == 0x205f
    ||| n == 0x3000
}

/// A word: at least one character, none of them whitespace.
pub open spec fn is_word(s: Seq<char>) -> bool {
    &&& s.len() > 0
    &&& forall|k: int| 0 <= k < s.len() ==> !is_space(#[trigger] s[k])
}

/// Only whitespace, possibly nothing at all.
pub open spec fn is_blank(s: Seq<char>) -> bool {
    forall|k: int| 0 <= k < s.len() ==> is_space(#[trigger] s[k])
}

/// The first position at or after `from` that holds no whitespace, or the
/// length of `s` where whitespace runs to the end.
pub open spec fn word_start(s: Seq<char>, from: int) -> int
    decreases s.len() - from,
{
    if 0 <= from < s.len() && is_space(s[from]) {
        word_start(s, from + 1)
    } else {
        from
    }
}

/// The first position at or after `from` that holds whitespace, or the length
/// of `s` where the word runs to the end.
pub open spec fn word_end(s: Seq<char>, from: int) -> int
    decreases s.len() - from,
{
    if 0 <= from < s.len() && !is_space(s[from]) {
        word_end(s, from + 1)
    } else {
        from
    }
}

/// The words of `s` that begin at or after `from`, in the order in which they
/// stand.
pub open spec fn words_from(s: Seq<char>, from: int) -> Seq<Seq<char>>
    decreases s.len() - from,
{
    let start = word_start(s, from);
    if 0 <= from && start < s.len() {
        let end = word_end(s, start);
        proof {
            lemma_word_start(s, from);
            lemma_word_end(s, start);
        }
        seq![s.subrange(start, end)] + words_from(s, end)
    } else {
        seq![]
    }
}

/// The words of `s`: its maximal runs of characters that are not whitespace.
pub open spec fn words(s: Seq<char>) -> Seq<Seq<char>> {
    words_from(s, 0)
}

/// `word_start` stays inside `s`, passes over whitespace only, and stops on
/// the first character of a word.
pub proof fn lemma_word_start(s: Seq<char>, from: int)
    requires
        0 <= from <= s.len(),
    ensures
        from <= word_start(s, from) <= s.len(),
        is_blank(s.subrange(from, word_start(s, from))),
        word_start(s, from) < s.len() ==> !is_space(s[word_start(s, from)]),
    decreases s.len() - from,
{
    if from < s.len() && is_space(s[from]) {
        lemma_word_start(s, from + 1);
        let stop = word_start(s, from);
        assert forall|k: int| 0 <= k < stop - from implies is_space(
            #[trigger] s.subrange(from, stop)[k],
        ) by {
            if k > 0 {
                assert(s.subrange(from, stop)[k] == s.subrange(from + 1, stop)[k - 1]);
            }
        }
    }
}

/// `word_end` stays inside `s`, passes over the characters of one word only,
/// and stops on whitespace or at the end.
pub proof fn lemma_word_end(s: Seq<char>, from: int)
    requires
        0 <= from <= s.len(),
    ensures
        from <= word_end(s, from) <= s.len(),
        forall|k: int| from <= k < word_end(s, from) ==> !is_space(#[trigger] s[k]),
        word_end(s, from) < s.len() ==> is_space(s[word_end(s, from)]),
        from < s.len() && !is_space(s[from]) ==> from < word_end(s, from),
    decreases s.len() - from,
{
    if from < s.len() && !is_space(s[from]) {
        lemma_word_end(s, from + 1);
    }
}

/// Where whitespace, and nothing else, stands from `from` up to `stop`, and no
/// whitespace stands at `stop`, `word_start` finds `stop`.
pub proof fn lemma_word_start_at(s: Seq<char>, from: int, stop: int)
    requires
        0 <= from <= stop <= s.len(),
        forall|k: int| from <= k < stop ==> is_space(#[trigger] s[k]),
        stop < s.len() ==> !is_space(s[stop]),
    ensures
        word_start(s, from) == stop,
    decreases stop - from,
{
    if from < stop {
        lemma_word_start_at(s, from + 1, stop);
    }
}

/// Where no whitespace stands from `from` up to `stop`, and `stop` is the end
/// or holds whitespace, `word_end` finds `stop`.
pub proof fn lemma_word_end_at(s: Seq<char>, from: int, stop: int)
    requires
        0 <= from <= stop <= s.len(),
        forall|k: int| from <= k < stop ==> !is_space(#[trigger] s[k]),
        stop < s.len() ==> is_space(s[stop]),
    ensures
        word_end(s, from) == stop,
    decreases stop - from,
{
    if from < stop {
        lemma_word_end_at(s, from + 1, stop);
    }
}

/// Every word of a text is a word: it holds at least one character, and no
/// whitespace.
pub proof fn lemma_words_are_words(s: Seq<char>, from: int)
    requires
        0 <= from <= s.len(),
    ensures
        forall|i: int|
            0 <= i < words_from(s, from).len() ==> is_word(#[trigger] words_from(s, from)[i]),
    decreases s.len() - from,
{
    let start = word_start(s, from);
    lemma_word_start(s, from);
    if start < s.len() {
        let end = word_end(s, start);
        lemma_word_end(s, start);
        lemma_words_are_words(s, end);
        assert forall|i: int| 0 <= i < words_from(s, from).len() implies is_word(
            #[trigger] words_from(s, from)[i],
        ) by {
            if i > 0 {
                assert(words_from(s, from)[i] == words_from(s, end)[i - 1]);
            }
        }
    }
}

/// Whether `c` is whitespace.
pub fn char_is_space(c: char) -> (r: bool)
    ensures
        r == is_space(c),
{
    let n: u32 = c as u32;
    (0x09 <= n && n <= 0x0d) || n == 0x20 || n == 0x85 || n == 0xa0 || n == 0x1680 || (0x2000 <= n
        && n <= 0x200a) || n == 0x2028 || n == 0x2029 || n == 0x202f || n == 0x205f || n == 0x3000
}

/// The characters of `s`, one by one.
pub fn chars_of(s: &str) -> (v: Vec<char>)
    ensures
        v@ == s@,
{
    let mut v: Vec<char> = Vec::new();
    let mut rest = s.chars();
    loop
        invariant
            v@ + rest.remaining() == s@,
            rest.decrease() is Some,
        ensures
            v@ == s@,
        decreases rest.decrease()->0,
    {
        match rest.next() {
            Some(c) => {
                v.push(c);
            },
            None => {
                break ;
            },
        }
    }
    v
}

/// Whether `a` and `b` hold the same characters.
pub fn same_text(a: &str, b: &str) -> (r: bool)
    ensures
        r == (a@ == b@),
{
    a.to_owned() == b.to_owned()
}

/// The characters of `v` from `from` up to `to`, as a string.
pub(crate) fn text_between(v: &Vec<char>, from: usize, to: usize) -> (r: String)
    requires
        from <= to <= v.len(),
    ensures
        r@ == v@.subrange(from as int, to as int),
{
    let mut out = String::new();
    let mut i: usize = from;
    while i < to
        invariant
            from <= i <= to <= v.len(),
            out@ == v@.subrange(from as int, i as int),
        decreases to - i,
    {
        out.push(v[i]);
        i += 1;
    }
    out
}

/// Passes over the whitespace that begins at `from`.
pub(crate) fn skip_spaces(v: &Vec<char>, from: usize) -> (r: usize)
    requires
        from <= v.len(),
    ensures
        r == word_start(v@, from as int),
        from <= r <= v.len(),
{
    let mut i: usize = from;
    while i < v.len() && char_is_space(v[i])
        invariant
            from <= i <= v.len(),
            word_start(v@, i as int) == word_start(v@, from as int),
        decreases v.len() - i,
    {
        i += 1;
    }
    i
}

/// Passes over the word that begins at `from`.
pub(crate) fn skip_word(v: &Vec<char>, from: usize) -> (r: usize)
    requires
        from <= v.len(),
    ensures
        r == word_end(v@, from as int),
        from <= r <= v.len(),
{
    let mut i: usize = from;
    while i < v.len() && !char_is_space(v[i])
        invariant
            from <= i <= v.len(),
            word_end(v@, i as int) == word_end(v@, from as int),
        decreases v.len() - i,
    {
        i += 1;
    }
    i
}

/// The character that writes the digit `d`.
pub open spec fn digit_char(d: int) -> char
    recommends
        0 <= d <= 9,
{
    ('0' as u8 + d) as char
}

/// The decimal numeral of `n`: most significant digit first, and no leading
/// zero but for zero itself.
pub open spec fn decimal_digits(n: nat) -> Seq<char>
    decreases n,
{
    if n < 10 {
        seq![digit_char(n as int)]
    } else {
        decimal_digits(n / 10).push(digit_char((n % 10) as int))
    }
}

/// The decimal numeral of `n`, with a minus sign in front where `n` is
/// negative.
pub open spec fn decimal_text(n: int) -> Seq<char> {
    if n < 0 {
        seq!['-'] + decimal_digits((-n) as nat)
    } else {
        decimal_digits(n as nat)
    }
}

/// `count` zeros in a row.
pub open spec fn zeros(count: nat) -> Seq<char> {
    Seq::new(count, |k: int| '0')
}

/// `count` zeros written behind the numeral of a positive number multiply the
/// number by ten, `count` times over.
pub proof fn lemma_trailing_zeros(n: nat, count: nat)
    requires
        n > 0,
    ensures
        decimal_digits(n) + zeros(count) == decimal_digits(n * pow(10, count) as nat),
    decreases count,
{
    reveal(pow);
    if count == 0 {
        assert(n * 1 == n);
    } else {
        let less = (count - 1) as nat;
        lemma_trailing_zeros(n, less);
        lemma_pow_positive(10, less);
        let p = pow(10, less) as nat;
        let m = n * p;
        assert(m > 0) by (nonlinear_arith)
            requires
                m == n * p,
                n > 0,
                p > 0,
        ;
        assert(n * (10 * p) == m * 10) by (nonlinear_arith)
            requires
                m == n * p,
        ;
    }
}

/// Writes one digit.
fn digit(d: u8) -> (c: char)
    requires
        d <= 9,
    ensures
        c == digit_char(d as int),
{
    let code: u8 = 0x30 + d;
    code as char
}

/// Appends the decimal numeral of `n` to `out`.
pub fn push_decimal_digits(out: &mut String, n: u64)
    ensures
        final(out)@ == old(out)@ + decimal_digits(n as nat),
    decreases n,
{
    if n >= 10 {
        push_decimal_digits(out, n / 10);
    }
    out.push(digit((n % 10) as u8));
}

/// Appends the decimal numeral of `n`, signed where negative, to `out`.
pub fn push_decimal(out: &mut String, n: i64)
    ensures
        final(out)@ == old(out)@ + decimal_text(n as int),
{
    if n < 0 {
        out.push('-');
        let magnitude: u64 = if n == i64::MIN {
            0x8000_0000_0000_0000u64
        } else {
            (-n) as u64
        };
        push_decimal_digits(out, magnitude);
    } else {
        push_decimal_digits(out, n as u64);
    }
}

} // verus!
