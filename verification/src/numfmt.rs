use vstd::prelude::*;
use vstd::string::StringExecFns;

verus! {

/// The one-character string for a decimal digit.
pub open spec fn digit_seq(d: int) -> Seq<char> {
    if d == 0 {
        "0"@
    } else if d == 1 {
        "1"@
    } else if d == 2 {
        "2"@
    } else if d == 3 {
        "3"@
    } else if d == 4 {
        "4"@
    } else if d == 5 {
        "5"@
    } else if d == 6 {
        "6"@
    } else if d == 7 {
        "7"@
    } else if d == 8 {
        "8"@
    } else {
        "9"@
    }
}

/// Decimal rendering of a non-negative integer, most significant digit first.
pub open spec fn dec_seq(n: int) -> Seq<char>
    decreases n,
{
    if n < 10 {
        digit_seq(n)
    } else {
        dec_seq(n / 10) + digit_seq(n % 10)
    }
}

/// Decimal rendering padded on the left with '0' to at least two digits.
pub open spec fn pad2_seq(n: int) -> Seq<char> {
    if n < 10 {
        "0"@ + digit_seq(n)
    } else {
        dec_seq(n)
    }
}

/// `MM:SS` rendering of a duration in seconds; the minute field grows
/// beyond two digits when it must.
pub open spec fn mmss_seq(secs: int) -> Seq<char> {
    pad2_seq(secs / 60) + ":"@ + pad2_seq(secs % 60)
}

/// Rendering of a value held in hundredths with exactly two decimal places.
pub open spec fn fixed2_seq(hundredths: int) -> Seq<char> {
    dec_seq(hundredths / 100) + "."@ + pad2_seq(hundredths % 100)
}

/// `s` repeated `n` times.
pub open spec fn repeat_seq(s: Seq<char>, n: int) -> Seq<char>
    decreases n,
{
    if n <= 0 {
        Seq::empty()
    } else {
        repeat_seq(s, n - 1) + s
    }
}

fn digit_str(d: u128) -> (s: &'static str)
    requires
        d < 10,
    ensures
        s@ == digit_seq(d as int),
{
    if d == 0 {
        "0"
    } else if d == 1 {
        "1"
    } else if d == 2 {
        "2"
    } else if d == 3 {
        "3"
    } else if d == 4 {
        "4"
    } else if d == 5 {
        "5"
    } else if d == 6 {
        "6"
    } else if d == 7 {
        "7"
    } else if d == 8 {
        "8"
    } else {
        "9"
    }
}

/// Decimal rendering of `n`.
pub fn dec_u128(n: u128) -> (s: String)
    ensures
        s@ == dec_seq(n as int),
    decreases n,
{
    if n < 10 {
        String::from_str(digit_str(n))
    } else {
        let mut s = dec_u128(n / 10);
        s.append(digit_str(n % 10));
        s
    }
}

/// Decimal rendering of `n`.
pub fn dec_u64(n: u64) -> (s: String)
    ensures
        s@ == dec_seq(n as int),
{
    dec_u128(n as u128)
}

/// Decimal rendering of `n`, left-padded with '0' to at least two digits.
pub fn pad2_u64(n: u64) -> (s: String)
    ensures
        s@ == pad2_seq(n as int),
{
    if n < 10 {
        let mut s = String::from_str("0");
        s.append(digit_str(n as u128));
        s
    } else {
        dec_u64(n)
    }
}

/// `MM:SS` rendering of a duration in seconds.
pub fn mmss(secs: u64) -> (s: String)
    ensures
        s@ == mmss_seq(secs as int),
{
    let mut s = pad2_u64(secs / 60);
    s.append(":");
    let tail = pad2_u64(secs % 60);
    s.append(tail.as_str());
    s
}

/// Two-decimal-place rendering of a value held in hundredths.
pub fn fixed2(hundredths: u128) -> (s: String)
    ensures
        s@ == fixed2_seq(hundredths as int),
{
    let mut s = dec_u128(hundredths / 100);
    s.append(".");
    let frac = pad2_u64((hundredths % 100) as u64);
    s.append(frac.as_str());
    s
}

/// `g` repeated `n` times.
pub fn repeat_str(g: &str, n: usize) -> (r: String)
    ensures
        r@ == repeat_seq(g@, n as int),
{
    let mut r = String::new();
    let mut i: usize = 0;
    while i < n
        invariant
            i <= n,
            r@ == repeat_seq(g@, i as int),
        decreases n - i,
    {
        r.append(g);
        i = i + 1;
    }
    r
}

} // verus!
