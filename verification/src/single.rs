//! IEEE-754 single-precision values, carried as their 32-bit patterns.
//!
//! The engine places numbers in GPU memory; it never adds or multiplies them.
//! A pattern is therefore all it needs, and whole numbers are the only values
//! it has to encode itself.

use vstd::prelude::*;

verus! {

/// Pattern of 0.0.
pub const ZERO: u32 = 0;

/// Pattern of 0.5.
pub const HALF: u32 = 0x3F00_0000;

/// Pattern of 1.0.
pub const ONE: u32 = 0x3F80_0000;

/// Two to the power `n`.
pub open spec fn two_to(n: nat) -> int
    decreases n,
{
    if n == 0 {
        1
    } else {
        2 * two_to((n - 1) as nat)
    }
}

/// The sign field of a pattern: 1 for a negative value.
pub open spec fn sign_of(bits: u32) -> int {
    bits as int / 0x8000_0000
}

/// The biased exponent field of a pattern.
pub open spec fn exponent_of(bits: u32) -> int {
    (bits as int / 0x80_0000) % 0x100
}

/// The fraction field of a pattern, without the hidden leading one.
pub open spec fn fraction_of(bits: u32) -> int {
    bits as int % 0x80_0000
}

/// The absolute value of `x`.
pub open spec fn magnitude(x: int) -> int {
    if x < 0 {
        -x
    } else {
        x
    }
}

/// `bits` is the single-precision pattern of the whole number `x`.
///
/// A normal single with sign `s`, biased exponent `e` and fraction `f` has the
/// value `(-1)^s * (2^23 + f) * 2^(e - 150)`. For a whole number the exponent is
/// at most 150 once the significand is normalised, so the equation can be
/// written without fractions. Zero is the all-zero pattern.
pub open spec fn encodes_integer(bits: u32, x: int) -> bool {
    if x == 0 {
        bits == 0
    } else {
        let e = exponent_of(bits);
        &&& sign_of(bits) == (if x < 0 { 1int } else { 0int })
        &&& 127 <= e <= 150
        &&& 0x80_0000 + fraction_of(bits) == magnitude(x) * two_to((150 - e) as nat)
    }
}

/// Powers of two grow with the exponent.
pub proof fn lemma_two_to_monotonic(a: nat, b: nat)
    requires
        a <= b,
    ensures
        0 < two_to(a) <= two_to(b),
    decreases b,
{
    if b == 0 {
    } else if a == b {
        lemma_two_to_monotonic((a - 1) as nat, (b - 1) as nat);
    } else {
        lemma_two_to_monotonic(a, (b - 1) as nat);
    }
}

/// The value of the power that separates normalised significands.
pub proof fn lemma_two_to_23()
    ensures
        two_to(23) == 0x80_0000,
{
    reveal_with_fuel(two_to, 24);
}

/// A whole number has one pattern only.
pub proof fn lemma_encoding_unique(a: u32, b: u32, x: int)
    requires
        encodes_integer(a, x),
        encodes_integer(b, x),
    ensures
        a == b,
{
    if x != 0 {
        let ea = exponent_of(a);
        let eb = exponent_of(b);
        let m = magnitude(x);
        lemma_two_to_23();
        if ea < eb {
            lemma_two_to_monotonic((150 - eb + 1) as nat, (150 - ea) as nat);
            assert(two_to((150 - eb + 1) as nat) == 2 * two_to((150 - eb) as nat));
            assert(m * two_to((150 - ea) as nat) >= m * (2 * two_to((150 - eb) as nat)))
                by (nonlinear_arith)
                requires
                    m > 0,
                    two_to((150 - ea) as nat) >= 2 * two_to((150 - eb) as nat),
            ;
            assert(m * (2 * two_to((150 - eb) as nat)) == 2 * (m * two_to((150 - eb) as nat)))
                by (nonlinear_arith);
            assert(false);
        }
        if eb < ea {
            lemma_two_to_monotonic((150 - ea + 1) as nat, (150 - eb) as nat);
            assert(two_to((150 - ea + 1) as nat) == 2 * two_to((150 - ea) as nat));
            assert(m * two_to((150 - eb) as nat) >= m * (2 * two_to((150 - ea) as nat)))
                by (nonlinear_arith)
                requires
                    m > 0,
                    two_to((150 - eb) as nat) >= 2 * two_to((150 - ea) as nat),
            ;
            assert(m * (2 * two_to((150 - ea) as nat)) == 2 * (m * two_to((150 - ea) as nat)))
                by (nonlinear_arith);
            assert(false);
        }
        assert(ea == eb);
        assert(fraction_of(a) == fraction_of(b));
        assert(sign_of(a) == sign_of(b));
    }
}

/// The single-precision pattern of a small whole number.
pub fn single_from_i8(x: i8) -> (bits: u32)
    ensures
        encodes_integer(bits, x as int),
{
    if x == 0 {
        return 0;
    }
    let negative: bool = x < 0;
    let wide: i32 = x as i32;
    let size: u32 = if negative {
        (-wide) as u32
    } else {
        wide as u32
    };
    let mut significand: u32 = size;
    let mut exponent: u32 = 150;
    proof {
        lemma_two_to_23();
    }
    while significand < 0x80_0000
        invariant
            1 <= size <= 128,
            127 <= exponent <= 150,
            significand as int == size as int * two_to((150 - exponent) as nat),
            significand < 0x100_0000,
            two_to(23) == 0x80_0000,
        decreases exponent,
    {
        proof {
            let k = (150 - exponent) as nat;
            if exponent == 127 {
                assert(size as int * two_to(k) >= two_to(k)) by (nonlinear_arith)
                    requires
                        size >= 1,
                        two_to(k) > 0,
                ;
                assert(false);
            }
            assert(two_to((k + 1) as nat) == 2 * two_to(k));
            assert(size as int * (2 * two_to(k)) == 2 * (size as int * two_to(k)))
                by (nonlinear_arith);
        }
        significand = significand * 2;
        exponent = exponent - 1;
    }
    let sign: u32 = if negative {
        0x8000_0000
    } else {
        0
    };
    let bits: u32 = sign + exponent * 0x80_0000 + (significand - 0x80_0000);
    proof {
        let f = significand as int - 0x80_0000;
        let e = exponent as int;
        let s = if negative { 1int } else { 0int };
        assert(bits as int == s * 0x8000_0000 + e * 0x80_0000 + f);
        assert(0 <= f < 0x80_0000);
        assert(bits as int / 0x80_0000 == s * 0x100 + e);
        assert(sign_of(bits) == s);
        assert(exponent_of(bits) == e);
        assert(fraction_of(bits) == f);
    }
    bits
}

} // verus!
