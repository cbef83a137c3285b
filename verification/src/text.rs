//! Small text utilities: decimal rendering of integers and the
//! interior-NUL check that every string handed to the C ABI must pass.

use vstd::prelude::*;
use vstd::string::StringSliceAdditionalSpecFns;

verus! {

/// The ASCII digit for `d` (`0 <= d < 10`).
pub open spec fn digit_char(d: nat) -> char {
    (d + 48) as char
}

/// Decimal digits of `n`, most significant first, without leading zeros
/// (`"0"` for zero).
pub open spec fn decimal_nat(n: nat) -> Seq<char>
    decreases n,
{
    if n < 10 {
        seq![digit_char(n)]
    } else {
        decimal_nat(n / 10).push(digit_char(n % 10))
    }
}

/// Decimal text of `x`: a `-` sign for negative values, then the digits of
/// the magnitude.
pub open spec fn decimal_int(x: int) -> Seq<char> {
    if x < 0 {
        seq!['-'] + decimal_nat((-x) as nat)
    } else {
        decimal_nat(x as nat)
    }
}

/// Whether `s` encodes to bytes that contain a NUL byte, which a C string
/// cannot carry.
pub open spec fn has_nul(s: &str) -> bool {
    s.spec_bytes().contains(0u8)
}

/// `String::push`.
///
/// Trusted: appends `c` to the end of `s`, as std documents.
#[verifier::external_body]
fn push_char(s: &mut String, c: char)
    ensures
        final(s)@ == old(s)@.push(c),
{
    s.push(c);
}

/// The ASCII digit for `d`.
fn digit(d: u32) -> (c: char)
    requires
        d < 10,
    ensures
        c == digit_char(d as nat),
{
    let b: u8 = 48u8 + d as u8;
    b as char
}

/// Appends the decimal digits of `n` to `s`.
fn push_decimal(s: &mut String, n: u32)
    ensures
        final(s)@ == old(s)@ + decimal_nat(n as nat),
    decreases n,
{
    if n >= 10 {
        push_decimal(s, n / 10);
    }
    push_char(s, digit(n % 10));
    proof {
        if n >= 10 {
            assert(decimal_nat(n as nat) == decimal_nat((n / 10) as nat).push(digit_char((n % 10) as nat)));
        }
    }
}

/// Decimal text of `x`, as `format!("{x}")` renders an `i32`.
pub fn decimal_i32(x: i32) -> (r: String)
    ensures
        r@ == decimal_int(x as int),
{
    let mut s = String::new();
    if x < 0 {
        push_char(&mut s, '-');
        let magnitude: u32 = (-(x as i64)) as u32;
        push_decimal(&mut s, magnitude);
    } else {
        push_decimal(&mut s, x as u32);
    }
    s
}

/// Whether `s` can be handed to the C ABI: its bytes contain no NUL.
pub fn nul_free(s: &str) -> (ok: bool)
    ensures
        ok == !has_nul(s),
{
    let bytes = s.as_bytes();
    let n = bytes.len();
    let mut i: usize = 0;
    while i < n
        invariant
            n == bytes@.len(),
            bytes@ == s.spec_bytes(),
            i <= n,
            forall|j: int| 0 <= j < i ==> bytes@[j] != 0u8,
        decreases n - i,
    {
        if bytes[i] == 0u8 {
            assert(bytes@[i as int] == 0u8);
            return false;
        }
        i = i + 1;
    }
    true
}

} // verus!
