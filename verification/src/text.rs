//! Text as the bytes of a script.

use vstd::prelude::*;
use vstd::string::StrSliceExecFns;
use vstd::string::StringSliceAdditionalSpecFns;
use vstd::utf8::encode_utf8;

verus! {

/// The bytes that a run of characters occupies in a script: its UTF-8
/// encoding.
pub open spec fn utf8(s: Seq<char>) -> Seq<u8> {
    encode_utf8(s)
}

/// The bytes that a piece of text occupies in a script.
pub open spec fn text(s: &str) -> Seq<u8> {
    utf8(s@)
}

/// The ASCII digit for `d`, which is below ten.
pub open spec fn digit(d: nat) -> u8
    recommends
        d < 10,
{
    (48 + d) as u8
}

/// `n` in decimal, most significant digit first, without leading zeros.
pub open spec fn decimal(n: nat) -> Seq<u8>
    decreases n,
{
    if n < 10 {
        seq![digit(n)]
    } else {
        decimal(n / 10).push(digit(n % 10))
    }
}

/// The number that a run of ASCII digits writes.
pub open spec fn decimal_value(digits: Seq<u8>) -> nat
    decreases digits.len(),
{
    if digits.len() == 0 {
        0
    } else {
        (10 * decimal_value(digits.drop_last()) + (digits.last() - 48)) as nat
    }
}

/// `decimal(n)` is made of ASCII digits, starts with a zero only where `n` is
/// zero, and reads back as `n`: no two numbers share their digits.
pub proof fn lemma_decimal_value(n: nat)
    ensures
        decimal(n).len() >= 1,
        forall|i: int| 0 <= i < decimal(n).len() ==> 48 <= #[trigger] decimal(n)[i] <= 57,
        n > 0 ==> decimal(n)[0] != 48,
        decimal_value(decimal(n)) == n,
    decreases n,
{
    if n < 10 {
        assert(decimal_value(decimal(n).drop_last()) == 0);
    } else {
        lemma_decimal_value(n / 10);
        assert(decimal(n).drop_last() =~= decimal(n / 10));
    }
}

/// The UTF-8 bytes of `s`.
pub fn str_bytes(s: &str) -> (bytes: Vec<u8>)
    ensures
        bytes@ == text(s),
{
    s.as_bytes_vec()
}

/// Appends `src` to `dst`.
pub fn put_bytes(dst: &mut Vec<u8>, src: &[u8])
    ensures
        final(dst)@ == old(dst)@ + src@,
{
    dst.extend_from_slice(src);
}

/// Appends the UTF-8 bytes of `s` to `dst`.
pub fn put_str(dst: &mut Vec<u8>, s: &str)
    ensures
        final(dst)@ == old(dst)@ + text(s),
{
    put_bytes(dst, s.as_bytes());
}

/// Appends the UTF-8 bytes of `s` to `dst`.
pub fn put_string(dst: &mut Vec<u8>, s: &String)
    ensures
        final(dst)@ == old(dst)@ + utf8(s@),
{
    put_bytes(dst, s.as_str().as_bytes());
}

/// The digits of `n` in decimal.
pub fn decimal_digits(n: usize) -> (digits: Vec<u8>)
    ensures
        digits@ == decimal(n as nat),
    decreases n,
{
    if n < 10 {
        let mut digits: Vec<u8> = Vec::new();
        digits.push(48 + n as u8);
        digits
    } else {
        let mut digits = decimal_digits(n / 10);
        digits.push(48 + (n % 10) as u8);
        digits
    }
}

/// Appends `n` in decimal to `dst`.
pub fn put_decimal(dst: &mut Vec<u8>, n: usize)
    ensures
        final(dst)@ == old(dst)@ + decimal(n as nat),
{
    let digits = decimal_digits(n);
    put_bytes(dst, digits.as_slice());
}

} // verus!
