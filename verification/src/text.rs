//! Text helpers: decimal rendering of integers, comparisons, prefix and
//! substring tests, and case folding.

use vstd::prelude::*;
use vstd::string::StrSliceExecFns;
use vstd::string::StringExecFns;

verus! {

/// The character of decimal digit `d` (for `d < 10`).
pub open spec fn digit_char(d: nat) -> char {
    if d == 0 {
        '0'
    } else if d == 1 {
        '1'
    } else if d == 2 {
        '2'
    } else if d == 3 {
        '3'
    } else if d == 4 {
        '4'
    } else if d == 5 {
        '5'
    } else if d == 6 {
        '6'
    } else if d == 7 {
        '7'
    } else if d == 8 {
        '8'
    } else {
        '9'
    }
}

/// Decimal representation of `n`, most significant digit first, without
/// leading zeros (zero is written `0`).
pub open spec fn decimal_digits(n: nat) -> Seq<char>
    decreases n,
{
    if n < 10 {
        seq![digit_char(n)]
    } else {
        decimal_digits(n / 10) + seq![digit_char(n % 10)]
    }
}

/// The one-character string of a decimal digit.
fn digit_str(d: u64) -> (s: &'static str)
    requires
        d < 10,
    ensures
        s@ == seq![digit_char(d as nat)],
{
    proof {
        reveal_strlit("0");
        reveal_strlit("1");
        reveal_strlit("2");
        reveal_strlit("3");
        reveal_strlit("4");
        reveal_strlit("5");
        reveal_strlit("6");
        reveal_strlit("7");
        reveal_strlit("8");
        reveal_strlit("9");
    }
    match d {
        0 => "0",
        1 => "1",
        2 => "2",
        3 => "3",
        4 => "4",
        5 => "5",
        6 => "6",
        7 => "7",
        8 => "8",
        _ => "9",
    }
}

/// Renders `n` in decimal.
pub fn decimal(n: u64) -> (s: String)
    ensures
        s@ == decimal_digits(n as nat),
    decreases n,
{
    if n < 10 {
        digit_str(n).to_string()
    } else {
        let mut s = decimal(n / 10);
        s.append(digit_str(n % 10));
        s
    }
}

/// Renders `n` in decimal, with a leading minus sign when negative.
pub fn signed_decimal(n: i64) -> (s: String)
    ensures
        s@ == if n < 0 {
            seq!['-'] + decimal_digits((-n) as nat)
        } else {
            decimal_digits(n as nat)
        },
{
    if n < 0 {
        let magnitude: u64 = if n == i64::MIN {
            9223372036854775808u64
        } else {
            (-n) as u64
        };
        proof {
            reveal_strlit("-");
        }
        let mut s = "-".to_string();
        s.append(decimal(magnitude).as_str());
        s
    } else {
        decimal(n as u64)
    }
}

/// Unicode lowercase mapping of a character sequence, as std's
/// `str::to_lowercase` computes it.
pub uninterp spec fn lowercase(s: Seq<char>) -> Seq<char>;

/// Lowercases `s`.
///
/// Trusted: calls std's `str::to_lowercase`, which applies the Unicode
/// lowercase mapping character by character; the contract only names the
/// result as a function of the input text.
#[verifier::external_body]
pub(crate) fn to_lowercase(s: &str) -> (r: String)
    ensures
        r@ == lowercase(s@),
{
    s.to_lowercase()
}

/// `needle` occurs as a contiguous run of characters inside `s`.
pub open spec fn has_infix(s: Seq<char>, needle: Seq<char>) -> bool {
    exists|i: int|
        0 <= i && i + needle.len() <= s.len() && #[trigger] s.subrange(i, i + needle.len())
            == needle
}

/// The two texts are equal.
pub fn text_eq(a: &str, b: &str) -> (r: bool)
    ensures
        r == (a@ == b@),
{
    a.to_string() == b.to_string()
}

/// `s` matches `pattern` at character position `at`.
fn matches_at(s: &str, s_len: usize, pattern: &str, p_len: usize, at: usize) -> (r: bool)
    requires
        s_len == s@.len(),
        p_len == pattern@.len(),
        at + p_len <= s_len,
    ensures
        r == (s@.subrange(at as int, at + p_len) == pattern@),
{
    let mut k: usize = 0;
    while k < p_len
        invariant
            s_len == s@.len(),
            p_len == pattern@.len(),
            at + p_len <= s_len,
            k <= p_len,
            forall|m: int| 0 <= m < k ==> s@[at + m] == pattern@[m],
        decreases p_len - k,
    {
        if s.get_char(at + k) != pattern.get_char(k) {
            assert(s@.subrange(at as int, at + p_len)[k as int] != pattern@[k as int]);
            return false;
        }
        k = k + 1;
    }
    assert(s@.subrange(at as int, at + p_len) =~= pattern@);
    true
}

/// `s` begins with `prefix`.
pub fn starts_with(s: &str, prefix: &str) -> (r: bool)
    ensures
        r == prefix@.is_prefix_of(s@),
{
    let s_len = s.unicode_len();
    let p_len = prefix.unicode_len();
    if p_len > s_len {
        return false;
    }
    let r = matches_at(s, s_len, prefix, p_len, 0);
    assert(r == (prefix@ =~= s@.subrange(0, prefix@.len() as int)));
    r
}

/// `s` contains `needle`.
pub fn contains_text(s: &str, needle: &str) -> (r: bool)
    ensures
        r == has_infix(s@, needle@),
{
    let s_len = s.unicode_len();
    let n_len = needle.unicode_len();
    if n_len > s_len {
        return false;
    }
    let last = s_len - n_len;
    let mut i: usize = 0;
    loop
        invariant
            s_len == s@.len(),
            n_len == needle@.len(),
            last == s_len - n_len,
            i <= last,
            forall|j: int| 0 <= j < i ==> #[trigger] s@.subrange(j, j + n_len) != needle@,
        ensures
            forall|j: int| 0 <= j <= last ==> #[trigger] s@.subrange(j, j + n_len) != needle@,
        decreases last - i,
    {
        if matches_at(s, s_len, needle, n_len, i) {
            return true;
        }
        if i == last {
            break;
        }
        i = i + 1;
    }
    assert forall|j: int| 0 <= j && j + needle@.len() <= s@.len() implies #[trigger] s@.subrange(
        j,
        j + needle@.len(),
    ) != needle@ by {
        assert(j <= last);
    }
    false
}

} // verus!
