//! Text helpers shared across the library: decimal rendering of counters,
//! gas amounts displayed in Tgas, and substring search used when failure
//! descriptions are scanned.

use vstd::prelude::*;

verus! {

/// The character for a single decimal digit value.
pub open spec fn digit_char(d: int) -> char {
    if d == 0 {
        '0'
    } else if d == 1 {
        '1'
    } else if d == 2 {
        '2'
    } else if d == 3 {
        '3'
    } else if d == 4 {
        '4'
    } else if d == 5 {
        '5'
    } else if d == 6 {
        '6'
    } else if d == 7 {
        '7'
    } else if d == 8 {
        '8'
    } else {
        '9'
    }
}

/// Decimal rendering of a natural number, most significant digit first,
/// without leading zeroes (zero itself renders as "0").
pub open spec fn dec_rep(n: nat) -> Seq<char>
    decreases n,
{
    if n < 10 {
        seq![digit_char(n as int)]
    } else {
        dec_rep(n / 10).push(digit_char((n % 10) as int))
    }
}

/// Numeric value of one digit character; meaningful for '0'..'9' only.
pub open spec fn char_digit(c: char) -> int {
    if c == '0' {
        0
    } else if c == '1' {
        1
    } else if c == '2' {
        2
    } else if c == '3' {
        3
    } else if c == '4' {
        4
    } else if c == '5' {
        5
    } else if c == '6' {
        6
    } else if c == '7' {
        7
    } else if c == '8' {
        8
    } else {
        9
    }
}

/// Value read back from a digit sequence, most significant first.
pub open spec fn dec_val(s: Seq<char>) -> int
    decreases s.len(),
{
    if s.len() == 0 {
        0
    } else {
        dec_val(s.drop_last()) * 10 + char_digit(s.last())
    }
}

/// Reading the rendering of `n` back gives `n`: rendering loses nothing.
pub proof fn lemma_dec_rep_val(n: nat)
    ensures
        dec_val(dec_rep(n)) == n,
        dec_rep(n).len() >= 1,
    decreases n,
{
    if n < 10 {
        let s = seq![digit_char(n as int)];
        assert(dec_rep(n) =~= s);
        assert(s.drop_last() =~= Seq::<char>::empty());
        assert(dec_val(s.drop_last()) == 0);
        assert(char_digit(s.last()) == n);
        assert(dec_val(s) == n);
    } else {
        lemma_dec_rep_val(n / 10);
        assert(dec_rep(n).drop_last() =~= dec_rep(n / 10));
        assert(dec_rep(n).last() == digit_char((n % 10) as int));
    }
}

/// Two numbers with the same decimal rendering are the same number.
pub proof fn lemma_dec_rep_injective(a: nat, b: nat)
    requires
        dec_rep(a) == dec_rep(b),
    ensures
        a == b,
{
    lemma_dec_rep_val(a);
    lemma_dec_rep_val(b);
}

fn digit_str(d: u64) -> (r: &'static str)
    requires
        d < 10,
    ensures
        r@ =~= seq![digit_char(d as int)],
{
    proof {
        reveal_strlit("0");
        reveal_strlit("1");
        reveal_strlit("2");
        reveal_strlit("3");
        reveal_strlit("4");
        reveal_strlit("5");
        reveal_strlit("6");
        reveal_strlit("7");
        reveal_strlit("8");
        reveal_strlit("9");
    }
    if d == 0 {
        "0"
    } else if d == 1 {
        "1"
    } else if d == 2 {
        "2"
    } else if d == 3 {
        "3"
    } else if d == 4 {
        "4"
    } else if d == 5 {
        "5"
    } else if d == 6 {
        "6"
    } else if d == 7 {
        "7"
    } else if d == 8 {
        "8"
    } else {
        "9"
    }
}

/// Decimal text of an unsigned counter (nonce, gas, timestamp).
pub fn u64_to_decimal(n: u64) -> (r: String)
    ensures
        r@ == dec_rep(n as nat),
    decreases n,
{
    if n < 10 {
        let r = digit_str(n).to_owned();
        proof {
            assert(r@ =~= dec_rep(n as nat));
        }
        r
    } else {
        let mut r = u64_to_decimal(n / 10);
        r.append(digit_str(n % 10));
        proof {
            assert(r@ =~= dec_rep(n as nat));
        }
        r
    }
}

/// Gas rendered as Tgas with two decimal places, rounding the raw amount
/// to the nearest hundredth of a Tgas (halves rounding up), followed by
/// the unit marker, e.g. "1.50 TGas".
pub open spec fn tgas_rep(gas: nat) -> Seq<char> {
    let hundredths = (gas + 5_000_000_000nat) / 10_000_000_000nat;
    dec_rep(hundredths / 100) + seq!['.'] + two_digit_rep((hundredths % 100) as nat) + " TGas"@
}

/// Exactly two digit characters for a value below one hundred.
pub open spec fn two_digit_rep(n: nat) -> Seq<char> {
    seq![digit_char((n / 10) as int), digit_char((n % 10) as int)]
}

/// Gas displayed in Tgas, the form used in deployment and call responses.
pub fn format_tgas(gas: u64) -> (r: String)
    ensures
        r@ == tgas_rep(gas as nat),
{
    let hundredths_wide: u128 = ((gas as u128) + 5_000_000_000u128) / 10_000_000_000u128;
    let hundredths: u64 = hundredths_wide as u64;
    proof {
        assert(hundredths == (gas as nat + 5_000_000_000nat) / 10_000_000_000nat);
    }
    let mut r = u64_to_decimal(hundredths / 100);
    r.append(".");
    r.append(digit_str((hundredths % 100) / 10));
    r.append(digit_str(hundredths % 10));
    r.append(" TGas");
    proof {
        reveal_strlit(".");
        assert((hundredths % 100) % 10 == hundredths % 10) by (nonlinear_arith);
        assert(r@ =~= tgas_rep(gas as nat));
    }
    r
}

/// The pattern occurs in the text at position `i`.
pub open spec fn matches_at(text: Seq<char>, pattern: Seq<char>, i: int) -> bool {
    0 <= i && i + pattern.len() <= text.len() && text.subrange(i, i + pattern.len()) == pattern
}

/// The pattern occurs somewhere in the text.
pub open spec fn contains_seq(text: Seq<char>, pattern: Seq<char>) -> bool {
    exists|i: int| matches_at(text, pattern, i)
}

fn matches_here(text: &str, pattern: &str, at: usize) -> (r: bool)
    requires
        at + pattern@.len() <= text@.len(),
        text@.len() <= usize::MAX,
    ensures
        r == matches_at(text@, pattern@, at as int),
{
    let n = pattern.unicode_len();
    let mut k: usize = 0;
    while k < n
        invariant
            k <= n,
            n == pattern@.len(),
            at + n <= text@.len(),
            text@.len() <= usize::MAX,
            forall|j: int| 0 <= j < k ==> text@[at + j] == pattern@[j],
        decreases n - k,
    {
        if text.get_char(at + k) != pattern.get_char(k) {
            assert(text@.subrange(at as int, at + n) != pattern@) by {
                assert(text@.subrange(at as int, at + n)[k as int] != pattern@[k as int]);
            }
            return false;
        }
        k = k + 1;
    }
    proof {
        assert(text@.subrange(at as int, at + n) =~= pattern@);
    }
    true
}

/// Position of the first occurrence of the pattern in the text, if any.
pub fn find_first(text: &str, pattern: &str) -> (r: Option<usize>)
    ensures
        match r {
            Some(i) => matches_at(text@, pattern@, i as int) && forall|j: int|
                0 <= j < i ==> !matches_at(text@, pattern@, j),
            None => !contains_seq(text@, pattern@),
        },
{
    let text_len = text.unicode_len();
    let pat_len = pattern.unicode_len();
    if pat_len > text_len {
        return None;
    }
    if pat_len == 0 {
        proof {
            assert(text@.subrange(0, 0) =~= pattern@);
        }
        return Some(0);
    }
    let last = text_len - pat_len;
    let mut i: usize = 0;
    while i <= last
        invariant
            pat_len == pattern@.len(),
            text_len == text@.len(),
            1 <= pat_len <= text_len,
            last == text_len - pat_len,
            i <= last + 1,
            forall|j: int| 0 <= j < i ==> !matches_at(text@, pattern@, j),
        decreases last + 1 - i,
    {
        if matches_here(text, pattern, i) {
            return Some(i);
        }
        i = i + 1;
    }
    assert(forall|j: int| matches_at(text@, pattern@, j) ==> 0 <= j <= last);
    None
}

/// Whether two texts hold the same characters.
pub fn str_equal(a: &str, b: &str) -> (r: bool)
    ensures
        r == (a@ == b@),
{
    let n = a.unicode_len();
    if n != b.unicode_len() {
        return false;
    }
    let mut i: usize = 0;
    while i < n
        invariant
            i <= n,
            n == a@.len(),
            n == b@.len(),
            forall|j: int| 0 <= j < i ==> a@[j] == b@[j],
        decreases n - i,
    {
        if a.get_char(i) != b.get_char(i) {
            return false;
        }
        i = i + 1;
    }
    proof {
        assert(a@ =~= b@);
    }
    true
}

/// The text ends with the pattern.
pub open spec fn ends_with_seq(text: Seq<char>, pattern: Seq<char>) -> bool {
    text.len() >= pattern.len() && text.subrange(
        text.len() - pattern.len(),
        text.len() as int,
    ) == pattern
}

/// Whether the text ends with the pattern.
pub fn ends_with_pattern(text: &str, pattern: &str) -> (r: bool)
    ensures
        r == ends_with_seq(text@, pattern@),
{
    let text_len = text.unicode_len();
    let pat_len = pattern.unicode_len();
    if pat_len > text_len {
        return false;
    }
    matches_here(text, pattern, text_len - pat_len)
}

/// `i` is the first position at which the pattern occurs in the text.
pub open spec fn is_first_match(text: Seq<char>, pattern: Seq<char>, i: int) -> bool {
    matches_at(text, pattern, i) && forall|j: int| 0 <= j < i ==> !matches_at(text, pattern, j)
}

/// A pattern has at most one first occurrence.
pub proof fn lemma_first_match_unique(text: Seq<char>, pattern: Seq<char>, i: int, j: int)
    requires
        is_first_match(text, pattern, i),
        is_first_match(text, pattern, j),
    ensures
        i == j,
{
    if i < j {
        assert(!matches_at(text, pattern, i));
    }
    if j < i {
        assert(!matches_at(text, pattern, j));
    }
}

/// Whether the pattern occurs anywhere in the text.
pub fn contains_pattern(text: &str, pattern: &str) -> (r: bool)
    ensures
        r == contains_seq(text@, pattern@),
{
    match find_first(text, pattern) {
        Some(_) => true,
        None => false,
    }
}

} // verus!
