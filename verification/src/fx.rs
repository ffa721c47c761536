//! Fixed-point scalar arithmetic for normalized color channels.
//!
//! A channel value of 1.0 is represented by the integer `ONE`; byte channels
//! (0..=255) are mapped into that range so that converting a byte to fixed
//! point and back returns the byte it came from.

use vstd::prelude::*;

verus! {

/// Fixed-point representation of the normalized channel value 1.0.
pub const ONE: i64 = 65536;

/// One RGBA color with fixed-point channels; also used for noise samples
/// and accumulated quantization error, which may leave [0, `ONE`].
#[derive(Clone, Copy, Debug, PartialEq, Eq, Structural)]
pub struct Rgba {
    pub r: i64,
    pub g: i64,
    pub b: i64,
    pub a: i64,
}

/// Truncating division (rounds toward zero, as Rust's `/` does), for a
/// positive divisor.
pub open spec fn div_trunc(x: int, d: int) -> int
    recommends
        d > 0,
{
    if x >= 0 {
        x / d
    } else {
        -((-x) / d)
    }
}

/// Fixed-point value of a byte channel: the least value that converts back
/// to the same byte (ceiling division by 255).
pub open spec fn fx_of_byte(b: int) -> int {
    (b * (ONE as int) + 254) / 255
}

/// Byte channel of a fixed-point value: clamp into [0, `ONE`], then truncate.
pub open spec fn byte_of_fx(v: int) -> int {
    let c = if v < 0 {
        0
    } else if v > ONE as int {
        ONE as int
    } else {
        v
    };
    (c * 255) / (ONE as int)
}

/// Fixed-point value of a byte channel.
pub fn fx_from_byte(b: u8) -> (r: i64)
    ensures
        r == fx_of_byte(b as int),
        0 <= r <= ONE,
{
    ((b as i64) * ONE + 254) / 255
}

/// Byte channel of a fixed-point value.
pub fn byte_from_fx(v: i64) -> (r: u8)
    ensures
        r == byte_of_fx(v as int),
{
    let c: i64 = if v < 0 {
        0
    } else if v > ONE {
        ONE
    } else {
        v
    };
    ((c * 255) / ONE) as u8
}

/// Converting a byte to fixed point and back returns the byte.
pub proof fn lemma_byte_fx_round_trip(b: int)
    requires
        0 <= b <= 255,
    ensures
        byte_of_fx(fx_of_byte(b)) == b,
{
    let one = ONE as int;
    let v = (b * one + 254) / 255;
    assert(255 * v <= b * one + 254 && b * one <= 255 * v) by (nonlinear_arith)
        requires
            v == (b * one + 254) / 255,
            one == 65536,
            0 <= b <= 255,
    ;
    assert(0 <= v <= one) by (nonlinear_arith)
        requires
            255 * v <= b * one + 254,
            b * one <= 255 * v,
            one == 65536,
            0 <= b <= 255,
    ;
    assert((v * 255) / one == b) by (nonlinear_arith)
        requires
            255 * v <= b * one + 254,
            b * one <= 255 * v,
            one == 65536,
            0 <= b <= 255,
    ;
}

/// A channel perturbed multiplicatively by a fixed-point noise value:
/// `v + v * n`, the noise scaling the channel rather than offsetting it.
pub open spec fn perturb_chan(v: int, n: int) -> int {
    v + div_trunc(v * n, ONE as int)
}

/// The scaled term `v * n / ONE` never exceeds the channel itself in
/// magnitude, so a perturbed channel stays within [0, 2 * `ONE`].
pub proof fn lemma_perturb_range(v: int, n: int)
    requires
        0 <= v <= ONE,
        -ONE <= n <= ONE,
    ensures
        -v <= div_trunc(v * n, ONE as int) <= v,
        0 <= perturb_chan(v, n) <= 2 * ONE,
{
    let one = ONE as int;
    if n >= 0 {
        assert(0 <= v * n <= v * one) by (nonlinear_arith)
            requires
                0 <= v,
                0 <= n <= one,
        ;
        vstd::arithmetic::div_mod::lemma_div_is_ordered(0, v * n, one);
        vstd::arithmetic::div_mod::lemma_div_is_ordered(v * n, v * one, one);
        assert((v * one) / one == v) by (nonlinear_arith)
            requires
                one == 65536,
        ;
    } else {
        let m = -n;
        assert(0 <= v * m <= v * one) by (nonlinear_arith)
            requires
                0 <= v,
                0 <= m <= one,
        ;
        vstd::arithmetic::div_mod::lemma_div_is_ordered(0, v * m, one);
        vstd::arithmetic::div_mod::lemma_div_is_ordered(v * m, v * one, one);
        assert((v * one) / one == v) by (nonlinear_arith)
            requires
                one == 65536,
        ;
        assert(v * n == -(v * m)) by (nonlinear_arith)
            requires
                m == -n,
        ;
    }
}

/// Applies a fixed-point noise value to a channel.
pub fn perturb(v: i64, n: i64) -> (r: i64)
    requires
        0 <= v <= ONE,
        -ONE <= n <= ONE,
    ensures
        r == perturb_chan(v as int, n as int),
        0 <= r <= 2 * ONE,
{
    proof {
        lemma_perturb_range(v as int, n as int);
        assert(-(65536int * 65536) <= v * n <= 65536int * 65536) by (nonlinear_arith)
            requires
                0 <= v <= 65536,
                -65536 <= n <= 65536,
        ;
    }
    v + (v * n) / ONE
}

/// The byte-to-fixed-point map is strictly increasing, hence injective.
pub proof fn lemma_fx_of_byte_strictly_increasing(a: int, b: int)
    requires
        0 <= a < b <= 255,
    ensures
        fx_of_byte(a) < fx_of_byte(b),
{
    let one = ONE as int;
    assert((a * one + 254) / 255 < (b * one + 254) / 255) by (nonlinear_arith)
        requires
            0 <= a < b <= 255,
            one == 65536,
    ;
}

} // verus!
