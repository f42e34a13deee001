//! Doubles as bit patterns.
//!
//! A double (IEEE 754 binary64) is one sign bit, eleven exponent bits and
//! fifty-two fraction bits.  Read without its sign bit the pattern grows with
//! the absolute value that it stands for, up to infinity; the patterns above
//! infinity's are not numbers.  The order of doubles can therefore be read
//! off their patterns, and `lemma_less_orders_values` shows that what is read
//! off is the order of the values.

use vstd::prelude::*;
use vstd::arithmetic::power2::lemma_pow2_pos;
use vstd::arithmetic::power2::lemma_pow2_strictly_increases;
use vstd::arithmetic::power2::lemma_pow2_unfold;
use vstd::arithmetic::power2::pow2;
use vstd::bytes::spec_u64_from_le_bytes;
use vstd::bytes::spec_u64_to_le_bytes;

verus! {

/// The pattern in which only the sign bit is set.
pub const SIGN_BIT: u64 = 0x8000_0000_0000_0000;

/// The pattern of positive infinity.
pub const INFINITY: u64 = 0x7ff0_0000_0000_0000;

/// The pattern of negative infinity.
pub const NEG_INFINITY: u64 = 0xfff0_0000_0000_0000;

/// Two to the power of fifty-two: the pattern in which only the lowest bit
/// of the exponent is set, and the weight of the leading one that the
/// fraction of a normal double leaves out.
pub const HIDDEN_BIT: u64 = 0x10_0000_0000_0000;

/// The pattern without its sign bit.
pub open spec fn magnitude(bits: u64) -> u64 {
    if bits >= SIGN_BIT {
        (bits - SIGN_BIT) as u64
    } else {
        bits
    }
}

/// Whether the pattern stands for no number.
pub open spec fn is_nan(bits: u64) -> bool {
    magnitude(bits) > INFINITY
}

/// Where the pattern's double lies among the doubles: patterns of smaller
/// doubles have a smaller rank, and the two zeros share rank zero.
pub open spec fn rank(bits: u64) -> int {
    if bits >= SIGN_BIT {
        -(magnitude(bits) as int)
    } else {
        magnitude(bits) as int
    }
}

/// Whether the double of pattern `a` is less than that of pattern `b`.  What
/// is not a number is neither less nor greater than anything.
pub open spec fn less(a: u64, b: u64) -> bool {
    !is_nan(a) && !is_nan(b) && rank(a) < rank(b)
}

/// Whether the pattern stands for a finite number.
pub open spec fn is_finite(bits: u64) -> bool {
    magnitude(bits) < INFINITY
}

/// The exponent bits of the pattern, read as a number.
pub open spec fn exponent(bits: u64) -> nat {
    (magnitude(bits) / HIDDEN_BIT) as nat
}

/// The fraction bits of the pattern, read as a number.
pub open spec fn fraction(bits: u64) -> nat {
    (magnitude(bits) % HIDDEN_BIT) as nat
}

/// The absolute value of a finite double, counted in units of the smallest
/// positive double, which is two to the power of -1074.  With exponent bits
/// `e` above zero and fraction bits `f` a double is `1 + f / 2^52` times two
/// to the power of `e - 1023`, and with exponent bits zero it is `f` units.
pub open spec fn units(bits: u64) -> nat {
    if exponent(bits) == 0 {
        fraction(bits)
    } else {
        ((HIDDEN_BIT + fraction(bits)) * pow2((exponent(bits) - 1) as nat)) as nat
    }
}

/// The value of a finite double, counted in units of the smallest positive
/// double.
pub open spec fn value(bits: u64) -> int {
    if bits >= SIGN_BIT {
        -(units(bits) as int)
    } else {
        units(bits) as int
    }
}

/// The eight bytes of the pattern, least significant first: its digits to
/// the base 256.
pub open spec fn le_bytes(bits: u64) -> Seq<u8> {
    seq![
        (bits % 0x100) as u8,
        (bits / 0x100 % 0x100) as u8,
        (bits / 0x1_0000 % 0x100) as u8,
        (bits / 0x100_0000 % 0x100) as u8,
        (bits / 0x1_0000_0000 % 0x100) as u8,
        (bits / 0x100_0000_0000 % 0x100) as u8,
        (bits / 0x1_0000_0000_0000 % 0x100) as u8,
        (bits / 0x100_0000_0000_0000 % 0x100) as u8,
    ]
}

/// `less` is a strict order: nothing is less than itself, no two doubles are
/// each less than the other, and less than less is less.
pub proof fn lemma_less_strict_order(a: u64, b: u64, c: u64)
    ensures
        !less(a, a),
        less(a, b) ==> !less(b, a),
        less(a, b) && less(b, c) ==> less(a, c),
{
}

/// Of two finite doubles the one with the smaller pattern, the sign bits left
/// out, has the smaller absolute value.
proof fn lemma_units_increase(a: u64, b: u64)
    requires
        magnitude(a) < magnitude(b) < INFINITY,
    ensures
        units(a) < units(b),
{
    let (ea, fa) = (exponent(a), fraction(a));
    let (eb, fb) = (exponent(b), fraction(b));
    let hidden = HIDDEN_BIT as nat;
    assert(ea <= eb && (ea == eb ==> fa < fb));
    if ea == eb {
        if ea > 0 {
            let p = pow2((ea - 1) as nat);
            lemma_pow2_pos((ea - 1) as nat);
            assert((hidden + fa) * p < (hidden + fb) * p) by (nonlinear_arith)
                requires
                    fa < fb,
                    p > 0,
            ;
        }
    } else {
        let pb = pow2((eb - 1) as nat);
        lemma_pow2_pos((eb - 1) as nat);
        assert((hidden + fb) * pb >= hidden * pb >= hidden) by (nonlinear_arith)
            requires
                pb > 0,
        ;
        if ea > 0 {
            let pa = pow2((ea - 1) as nat);
            lemma_pow2_pos((ea - 1) as nat);
            lemma_pow2_unfold(ea);
            if ea < eb - 1 {
                lemma_pow2_strictly_increases(ea, (eb - 1) as nat);
            }
            assert((hidden + fa) * pa < hidden * pb) by (nonlinear_arith)
                requires
                    fa < hidden,
                    pa > 0,
                    2 * pa <= pb,
            ;
        }
    }
}

/// Among finite doubles `less` is the order of the values.
pub proof fn lemma_less_orders_values(a: u64, b: u64)
    requires
        is_finite(a),
        is_finite(b),
    ensures
        less(a, b) <==> value(a) < value(b),
{
    if magnitude(a) < magnitude(b) {
        lemma_units_increase(a, b);
    }
    if magnitude(b) < magnitude(a) {
        lemma_units_increase(b, a);
    }
    if magnitude(a) > 0 {
        lemma_units_increase(0, a);
    }
    if magnitude(b) > 0 {
        lemma_units_increase(0, b);
    }
    assert(units(0) == 0);
}

/// Minus infinity is less than every other number, and every other number is
/// less than plus infinity.
pub proof fn lemma_less_orders_infinities(a: u64)
    requires
        !is_nan(a),
    ensures
        a != NEG_INFINITY ==> less(NEG_INFINITY, a),
        a != INFINITY ==> less(a, INFINITY),
{
}

/// The digits to the base 256 are what shifting and masking cut out of the
/// pattern.
proof fn lemma_digits(bits: u64)
    ensures
        bits & 0xff == bits % 0x100,
        (bits >> 8) & 0xff == bits / 0x100 % 0x100,
        (bits >> 16) & 0xff == bits / 0x1_0000 % 0x100,
        (bits >> 24) & 0xff == bits / 0x100_0000 % 0x100,
        (bits >> 32) & 0xff == bits / 0x1_0000_0000 % 0x100,
        (bits >> 40) & 0xff == bits / 0x100_0000_0000 % 0x100,
        (bits >> 48) & 0xff == bits / 0x1_0000_0000_0000 % 0x100,
        (bits >> 56) & 0xff == bits / 0x100_0000_0000_0000 % 0x100,
{
    assert(bits & 0xff == bits % 0x100) by (bit_vector);
    assert((bits >> 8) & 0xff == bits / 0x100 % 0x100) by (bit_vector);
    assert((bits >> 16) & 0xff == bits / 0x1_0000 % 0x100) by (bit_vector);
    assert((bits >> 24) & 0xff == bits / 0x100_0000 % 0x100) by (bit_vector);
    assert((bits >> 32) & 0xff == bits / 0x1_0000_0000 % 0x100) by (bit_vector);
    assert((bits >> 40) & 0xff == bits / 0x100_0000_0000 % 0x100) by (bit_vector);
    assert((bits >> 48) & 0xff == bits / 0x1_0000_0000_0000 % 0x100) by (bit_vector);
    assert((bits >> 56) & 0xff == bits / 0x100_0000_0000_0000 % 0x100) by (bit_vector);
}

/// Every pattern packs into eight bytes, the same that the usual conversion
/// to little-endian bytes gives, and is read back from them unchanged.
pub proof fn lemma_le_bytes_round_trip(bits: u64)
    ensures
        le_bytes(bits).len() == 8,
        le_bytes(bits) == spec_u64_to_le_bytes(bits),
        spec_u64_from_le_bytes(le_bytes(bits)) == bits,
{
    lemma_digits(bits);
    vstd::bytes::spec_u64_to_le_bytes_to_open(bits);
    vstd::bytes::lemma_auto_spec_u64_to_from_le_bytes();
    assert(le_bytes(bits) =~= spec_u64_to_le_bytes(bits));
}

/// Whether the double of pattern `a` is less than that of pattern `b`.
pub fn double_less(a: u64, b: u64) -> (r: bool)
    ensures
        r == less(a, b),
{
    let a_negative = a >= SIGN_BIT;
    let b_negative = b >= SIGN_BIT;
    let a_magnitude: u64 = if a_negative { a - SIGN_BIT } else { a };
    let b_magnitude: u64 = if b_negative { b - SIGN_BIT } else { b };
    if a_magnitude > INFINITY || b_magnitude > INFINITY {
        false
    } else if a_negative && b_negative {
        b_magnitude < a_magnitude
    } else if a_negative {
        a_magnitude > 0 || b_magnitude > 0
    } else if b_negative {
        false
    } else {
        a_magnitude < b_magnitude
    }
}

/// Appends the eight bytes of the pattern to `dst`, least significant first.
pub fn put_le(dst: &mut Vec<u8>, bits: u64)
    ensures
        final(dst)@ == old(dst)@ + le_bytes(bits),
{
    proof {
        lemma_digits(bits);
    }
    dst.push((bits & 0xff) as u8);
    dst.push(((bits >> 8) & 0xff) as u8);
    dst.push(((bits >> 16) & 0xff) as u8);
    dst.push(((bits >> 24) & 0xff) as u8);
    dst.push(((bits >> 32) & 0xff) as u8);
    dst.push(((bits >> 40) & 0xff) as u8);
    dst.push(((bits >> 48) & 0xff) as u8);
    dst.push(((bits >> 56) & 0xff) as u8);
    assert(dst@ =~= old(dst)@ + le_bytes(bits));
}

/// A number as a figure takes it for a directive: the pattern of its double,
/// by which it is ordered, and its decimal text, which the directive quotes.
/// The text is the caller's: it is written out as it stands.
#[derive(Debug, PartialEq, Eq)]
pub struct Number {
    pub bits: u64,
    pub text: String,
}

/// A `Number` as contracts see it.
pub struct NumberView {
    pub bits: u64,
    pub text: Seq<char>,
}

impl View for Number {
    type V = NumberView;

    open spec fn view(&self) -> NumberView {
        NumberView { bits: self.bits, text: self.text@ }
    }
}

impl Number {
    /// The number with the given pattern and text.
    pub fn new(bits: u64, text: &str) -> (n: Number)
        ensures
            n@ == (NumberView { bits, text: text@ }),
    {
        Number { bits, text: text.to_owned() }
    }

    /// Whether this number is less than `other`, as doubles compare.
    pub fn less_than(&self, other: &Number) -> (r: bool)
        ensures
            r == less(self@.bits, other@.bits),
    {
        double_less(self.bits, other.bits)
    }
}

} // verus!
