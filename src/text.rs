//! Decimal text of integers.
use vstd::prelude::*;

verus! {

/// Decimal digits of `n`, most significant first, without leading zeros.
pub open spec fn decimal(n: nat) -> Seq<char>
    decreases n,
{
    if n < 10 {
        seq![digit_char(n)]
    } else {
        decimal(n / 10).push(digit_char(n % 10))
    }
}

/// The character of the digit `d < 10`.
pub open spec fn digit_char(d: nat) -> char {
    (('0' as u8) + (d as u8)) as char
}

/// The decimal text of `n`.
pub fn decimal_text(n: u64) -> (r: String)
    ensures
        r@ == decimal(n as nat),
    decreases n,
{
    let d: u64 = n % 10;
    if n < 10 {
        String::from_str(digit_str(d))
    } else {
        let mut s = decimal_text(n / 10);
        s.append(digit_str(d));
        s
    }
}

/// The one-character text of the digit `d`.
pub fn digit_str(d: u64) -> (r: &'static str)
    requires
        d < 10,
    ensures
        r@ == seq![digit_char(d as nat)],
{
    proof {
        reveal_strlit("0");
        reveal_strlit("1");
        reveal_strlit("2");
        reveal_strlit("3");
        reveal_strlit("4");
        reveal_strlit("5");
        reveal_strlit("6");
        reveal_strlit("7");
        reveal_strlit("8");
        reveal_strlit("9");
    }
    let r = if d == 0 { "0" } else if d == 1 { "1" } else if d == 2 { "2" } else if d == 3 {
        "3"
    } else if d == 4 { "4" } else if d == 5 { "5" } else if d == 6 { "6" } else if d == 7 {
        "7"
    } else if d == 8 { "8" } else { "9" };
    assert(r@ =~= seq![digit_char(d as nat)]);
    r
}

/// Decimal text of a signed integer, with a leading `-` below zero.
pub open spec fn signed_decimal(n: int) -> Seq<char> {
    if n < 0 {
        seq!['-'] + decimal((-n) as nat)
    } else {
        decimal(n as nat)
    }
}

/// The decimal text of `n`, with a leading `-` below zero.
pub fn signed_text(n: i32) -> (r: String)
    ensures
        r@ == signed_decimal(n as int),
{
    if n < 0 {
        let magnitude: u64 = (0 - (n as i64)) as u64;
        let mut s = String::from_str("-");
        let digits = decimal_text(magnitude);
        s.append(digits.as_str());
        proof {
            reveal_strlit("-");
        }
        assert(s@ =~= signed_decimal(n as int));
        s
    } else {
        decimal_text(n as u64)
    }
}

/// Whether `needle` occurs in `hay`.
pub open spec fn occurs_in(hay: Seq<char>, needle: Seq<char>) -> bool {
    exists|i: int|
        0 <= i <= hay.len() - needle.len() && #[trigger] hay.subrange(i, i + needle.len()) == needle
}

/// Whether `needle` occurs at position `i` of `hay`.
fn occurs_at(hay: &str, needle: &str, i: usize, n: usize, m: usize) -> (r: bool)
    requires
        n == hay@.len(),
        m == needle@.len(),
        i + m <= n,
    ensures
        r == (hay@.subrange(i as int, i + m) == needle@),
{
    let mut j: usize = 0;
    while j < m
        invariant
            n == hay@.len(),
            m == needle@.len(),
            i + m <= n,
            j <= m,
            hay@.subrange(i as int, i + j) == needle@.subrange(0, j as int),
        decreases m - j,
    {
        if hay.get_char(i + j) != needle.get_char(j) {
            assert(hay@.subrange(i as int, i + m)[j as int] != needle@[j as int]);
            return false;
        }
        j = j + 1;
        assert(hay@.subrange(i as int, i + j) =~= needle@.subrange(0, j as int));
    }
    assert(needle@.subrange(0, m as int) =~= needle@);
    true
}

/// Whether `needle` occurs in `hay`.
pub fn text_contains(hay: &str, needle: &str) -> (r: bool)
    ensures
        r == occurs_in(hay@, needle@),
{
    let n = hay.unicode_len();
    let m = needle.unicode_len();
    if m > n {
        return false;
    }
    let mut i: usize = 0;
    loop
        invariant
            n == hay@.len(),
            m == needle@.len(),
            m <= n,
            i <= n - m,
            forall|k: int| 0 <= k < i ==> #[trigger] hay@.subrange(k, k + m) != needle@,
        decreases n - m - i,
    {
        if occurs_at(hay, needle, i, n, m) {
            return true;
        }
        if i == n - m {
            return false;
        }
        i = i + 1;
    }
}

/// A message's JSON text as one line of the wire format: the text and a
/// newline. Nothing for text that holds a newline of its own, which would
/// split the message in two.
pub fn frame_line(text: &str) -> (r: Option<String>)
    ensures
        r is None <==> occurs_in(text@, "\n"@),
        r matches Some(line) ==> line@ == text@ + "\n"@,
{
    if text_contains(text, "\n") {
        return None;
    }
    let mut line = String::from_str(text);
    line.append("\n");
    Some(line)
}

} // verus!
