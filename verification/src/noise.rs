//! Per-pixel noise sources.
//!
//! Three variants feed the noise dithering path: no perturbation, a
//! deterministic low-discrepancy additive-recurrence sequence (R2), and a
//! table of pseudorandom samples precomputed from a 64-bit seed (PCG).
//! Noise channels are fixed-point: RGB perturbations lie in [-`ONE`, `ONE`),
//! the alpha perturbation in [0, `ONE`).

use vstd::arithmetic::div_mod::{
    lemma_add_mod_noop, lemma_add_mod_noop_right, lemma_mod_bound, lemma_mul_mod_noop_right,
};
use vstd::prelude::*;

use crate::error::DitherError;
use crate::fx::{Rgba, ONE};

verus! {

/// Fifth power of an integer.
pub open spec fn pow5(y: int) -> int {
    y * y * y * y * y
}

/// `r` is the integer fifth root of `n`, rounded down.
pub open spec fn is_iroot5(n: int, r: int) -> bool {
    0 <= r && pow5(r) <= n < pow5(r + 1)
}

/// The integer fifth root of `n`, rounded down.
pub open spec fn iroot5_spec(n: int) -> int {
    choose|r: int| is_iroot5(n, r)
}

/// The fifth power is monotone over the nonnegative integers.
proof fn lemma_pow5_le(a: int, b: int)
    requires
        0 <= a <= b,
    ensures
        pow5(a) <= pow5(b),
{
    assert(a * a * a * a * a <= b * b * b * b * b) by (nonlinear_arith)
        requires
            0 <= a <= b,
    ;
}

/// Every nonnegative integer has a fifth root rounded down.
proof fn lemma_iroot5_exists(n: int)
    requires
        0 <= n,
    ensures
        exists|r: int| is_iroot5(n, r),
    decreases n,
{
    if n == 0 {
        assert(is_iroot5(0, 0));
    } else {
        lemma_iroot5_exists(n - 1);
        let r = choose|r: int| #[trigger] is_iroot5(n - 1, r);
        if n < pow5(r + 1) {
            assert(is_iroot5(n, r));
        } else {
            assert(pow5(r + 1) == n);
            assert(pow5(r + 1) < pow5(r + 2)) by (nonlinear_arith)
                requires
                    r >= 0,
            ;
            assert(is_iroot5(n, r + 1));
        }
    }
}

/// The fifth root rounded down is unique, so any witness equals
/// `iroot5_spec`.
proof fn lemma_iroot5_unique(n: int, r: int)
    requires
        is_iroot5(n, r),
    ensures
        iroot5_spec(n) == r,
{
    let c = iroot5_spec(n);
    assert(is_iroot5(n, c));
    if c < r {
        lemma_pow5_le(c + 1, r);
    }
    if r < c {
        lemma_pow5_le(r + 1, c);
    }
}

/// Fifth power, for fifth-root arguments small enough that it fits.
fn pow5_exec(y: u64) -> (r: u128)
    requires
        y <= 1048576,
    ensures
        r == pow5(y as int),
{
    let y1: u128 = y as u128;
    proof {
        assert(y1 * y1 <= 1048576 * 1048576) by (nonlinear_arith)
            requires
                0 <= y1 <= 1048576,
        ;
    }
    let y2: u128 = y1 * y1;
    proof {
        assert(y2 * y2 <= 1099511627776 * 1099511627776) by (nonlinear_arith)
            requires
                0 <= y2 <= 1099511627776,
        ;
    }
    let y4: u128 = y2 * y2;
    proof {
        assert(y4 * y1 <= 1208925819614629174706176 * 1048576) by (nonlinear_arith)
            requires
                0 <= y4 <= 1208925819614629174706176,
                0 <= y1 <= 1048576,
        ;
        assert(y4 * y1 == pow5(y1 as int)) by (nonlinear_arith)
            requires
                y2 == y1 * y1,
                y4 == y2 * y2,
        ;
    }
    y4 * y1
}

/// Integer fifth root, rounded down, by binary search.
fn iroot5(n: u128) -> (r: u64)
    requires
        n < pow5(1048576),
    ensures
        is_iroot5(n as int, r as int),
        r < 1048576,
{
    let mut lo: u64 = 0;
    let mut hi: u64 = 1048576;
    while lo + 1 < hi
        invariant
            0 <= lo < hi <= 1048576,
            pow5(lo as int) <= n < pow5(hi as int),
        decreases hi - lo,
    {
        let mid: u64 = lo + (hi - lo) / 2;
        if pow5_exec(mid) <= n {
            lo = mid;
        } else {
            hi = mid;
        }
    }
    lo
}

/// The fixed-point iteration for the R2 base constant, `k` steps of
/// x := fifth root of (1 + x), starting from 2, all at `ONE` scale.
pub open spec fn g_iter(k: nat) -> int
    decreases k,
{
    if k == 0 {
        131072int
    } else {
        iroot5_spec((65536 + g_iter((k - 1) as nat)) * 18446744073709551616)
    }
}

/// The R2 base constant in fixed point: ten iteration steps, enough for the
/// sequence to settle at this scale.
pub open spec fn g_fixed() -> int {
    g_iter(10)
}

/// Each iterate stays within [1, 2] at `ONE` scale.
proof fn lemma_g_iter_bounds(k: nat)
    ensures
        65536 <= g_iter(k) <= 2 * 65536,
    decreases k,
{
    if k > 0 {
        lemma_g_iter_bounds((k - 1) as nat);
        let x = g_iter((k - 1) as nat);
        let n = (65536 + x) * 18446744073709551616;
        assert(2 * pow5(65536) <= n <= 3 * pow5(65536)) by (nonlinear_arith)
            requires
                65536 <= x <= 2 * 65536,
                n == (65536 + x) * 18446744073709551616,
        ;
        lemma_iroot5_exists(n);
        let r = iroot5_spec(n);
        assert(is_iroot5(n, r));
        if r < 65536 {
            lemma_pow5_le(r + 1, 65536);
        }
        if r > 131072 {
            lemma_pow5_le(131072int, r);
            assert(pow5(131072int) == 32 * pow5(65536)) by (nonlinear_arith);
        }
    }
}

/// Runs the base-constant iteration.
fn compute_g() -> (g: u64)
    ensures
        g == g_fixed(),
        65536 <= g <= 131072,
{
    let mut x: u64 = 131072;
    let mut k: usize = 0;
    while k < 10
        invariant
            0 <= k <= 10,
            x == g_iter(k as nat),
            65536 <= x <= 131072,
        decreases 10 - k,
    {
        proof {
            lemma_g_iter_bounds(k as nat);
        }
        let n: u128 = (65536 + x as u128) * 18446744073709551616;
        proof {
            assert(2 * pow5(65536) <= n <= 3 * pow5(65536)) by (nonlinear_arith)
                requires
                    65536 <= x <= 131072,
                    n == (65536 + x as int) * 18446744073709551616,
            ;
            assert(pow5(1048576) > 3 * pow5(65536)) by (nonlinear_arith);
        }
        let r: u64 = iroot5(n);
        proof {
            lemma_iroot5_unique(n as int, r as int);
            lemma_g_iter_bounds((k + 1) as nat);
        }
        x = r;
        k = k + 1;
    }
    x
}

/// Fixed-point reciprocal of the base constant, at `ONE` scale.
pub open spec fn inv_g() -> int {
    (65536int * 65536) / g_fixed()
}

/// `k`-th power of the reciprocal, at `ONE` scale, truncating at each step.
pub open spec fn inv_pow(k: nat) -> int
    decreases k,
{
    if k <= 1 {
        inv_g()
    } else {
        (inv_pow((k - 1) as nat) * inv_g()) / 65536
    }
}

/// Per-channel step constant of the R2 sequence: the fractional part of the
/// `(i+1)`-th power of the reciprocal base constant.
pub open spec fn r2_alpha(i: nat) -> int {
    inv_pow((i + 1) as nat) % 65536
}

/// One channel of an R2 sample: the fractional part of
/// `seed + alpha[i] * k` for the 1-based pixel index `k`, at `ONE` scale.
pub open spec fn r2_chan(seed: u64, i: nat, index: int) -> int {
    (seed + r2_alpha(i) * (index + 1)) % 65536
}

/// One R2 noise sample: RGB channels rescaled to [-`ONE`, `ONE`), the alpha
/// channel kept in [0, `ONE`).
pub open spec fn r2_sample(seed: u64, index: int) -> Rgba {
    Rgba {
        r: (2 * r2_chan(seed, 0, index) - 65536) as i64,
        g: (2 * r2_chan(seed, 1, index) - 65536) as i64,
        b: (2 * r2_chan(seed, 2, index) - 65536) as i64,
        a: r2_chan(seed, 3, index) as i64,
    }
}

/// The deterministic low-discrepancy noise source. Holds only the seed and
/// the four per-channel step constants; a sample is a pure function of the
/// pixel index.
pub struct R2BlueNoiseGenerator {
    seed: u64,
    alpha: [u64; 4],
}

impl R2BlueNoiseGenerator {
    /// The step constants hold the fractional powers of the reciprocal base
    /// constant.
    pub closed spec fn wf(&self) -> bool {
        forall|i: int| 0 <= i < 4 ==> self.alpha@[i] == r2_alpha(i as nat)
    }

    /// The seed the generator was built with.
    pub closed spec fn seed_spec(&self) -> u64 {
        self.seed
    }

    /// Builds the generator: computes the base constant by fixed-point
    /// iteration and takes the four per-channel step constants from it.
    pub fn new(seed: u64) -> (r: R2BlueNoiseGenerator)
        ensures
            r.wf(),
            r.seed_spec() == seed,
    {
        let g: u64 = compute_g();
        proof {
            vstd::arithmetic::div_mod::lemma_mod_bound(4294967296int, g as int);
            vstd::arithmetic::div_mod::lemma_fundamental_div_mod(4294967296int, g as int);
            assert(4294967296int / (g as int) <= 65536) by (nonlinear_arith)
                requires
                    4294967296int == (g as int) * (4294967296int / (g as int)) + (4294967296int % (
                    g as int)),
                    0 <= 4294967296int % (g as int),
                    65536 <= g,
            ;
        }
        let inv: u64 = 4294967296 / g;
        proof {
            assert(inv * inv <= 65536 * 65536) by (nonlinear_arith)
                requires
                    0 <= inv <= 65536,
            ;
            vstd::arithmetic::div_mod::lemma_div_is_ordered(
                (inv as int) * (inv as int),
                65536int * 65536,
                65536int,
            );
        }
        let p2: u64 = (inv * inv) / 65536;
        proof {
            assert(p2 * inv <= 65536 * 65536) by (nonlinear_arith)
                requires
                    0 <= inv <= 65536,
                    0 <= p2 <= 65536,
            ;
            vstd::arithmetic::div_mod::lemma_div_is_ordered(
                (p2 as int) * (inv as int),
                65536int * 65536,
                65536int,
            );
        }
        let p3: u64 = (p2 * inv) / 65536;
        proof {
            assert(p3 * inv <= 65536 * 65536) by (nonlinear_arith)
                requires
                    0 <= inv <= 65536,
                    0 <= p3 <= 65536,
            ;
        }
        let p4: u64 = (p3 * inv) / 65536;
        let alpha: [u64; 4] = [inv % 65536, p2 % 65536, p3 % 65536, p4 % 65536];
        proof {
            reveal_with_fuel(inv_pow, 5);
            assert(inv == inv_g());
            assert(p2 == inv_pow(2));
            assert(p3 == inv_pow(3));
            assert(p4 == inv_pow(4));
            assert(alpha@[0] == r2_alpha(0));
            assert(alpha@[1] == r2_alpha(1));
            assert(alpha@[2] == r2_alpha(2));
            assert(alpha@[3] == r2_alpha(3));
        }
        R2BlueNoiseGenerator { seed, alpha }
    }

    /// The noise sample for a pixel index: a pure function of the seed, the
    /// step constants and the index.
    pub fn get(&self, index: usize) -> (r: Rgba)
        requires
            self.wf(),
        ensures
            r == r2_sample(self.seed_spec(), index as int),
    {
        let s: u64 = self.seed % 65536;
        let k: u64 = (index as u64) % 65536 + 1;
        proof {
            lemma_r2_chan_exec(self.seed, 0, index as int, self.alpha@[0] as int);
            lemma_r2_chan_exec(self.seed, 1, index as int, self.alpha@[1] as int);
            lemma_r2_chan_exec(self.seed, 2, index as int, self.alpha@[2] as int);
            lemma_r2_chan_exec(self.seed, 3, index as int, self.alpha@[3] as int);
            assert forall|a: int| 0 <= a < 65536 implies #[trigger] (a * (k as int)) <= 65535 * 65536 by {
                assert(a * (k as int) <= 65535 * 65536) by (nonlinear_arith)
                    requires
                        0 <= a < 65536,
                        0 < k <= 65536,
                ;
            }
        }
        let v0: u64 = (s + self.alpha[0] * k) % 65536;
        let v1: u64 = (s + self.alpha[1] * k) % 65536;
        let v2: u64 = (s + self.alpha[2] * k) % 65536;
        let v3: u64 = (s + self.alpha[3] * k) % 65536;
        Rgba {
            r: 2 * (v0 as i64) - ONE,
            g: 2 * (v1 as i64) - ONE,
            b: 2 * (v2 as i64) - ONE,
            a: v3 as i64,
        }
    }
}

/// The reduced sum computed by the executable sampler equals the defining
/// fractional-part expression of the R2 channel.
proof fn lemma_r2_chan_exec(seed: u64, i: nat, index: int, a: int)
    requires
        0 <= index,
        a == r2_alpha(i),
    ensures
        ((seed % 65536) + a * ((index % 65536) + 1)) % 65536 == r2_chan(seed, i, index),
        0 <= r2_chan(seed, i, index) < 65536,
        0 <= a < 65536,
{
    let m = 65536int;
    let s = (seed as int) % m;
    let k = (index % m) + 1;
    lemma_mod_bound(inv_pow((i + 1) as nat), m);
    lemma_mod_bound(index, m);
    lemma_mod_bound(seed as int, m);
    // (s + a * k) % m == (seed + a * k) % m
    lemma_add_mod_noop(seed as int, a * k, m);
    lemma_add_mod_noop(s, a * k, m);
    assert(s % m == s);
    // a * k and a * (index + 1) agree modulo m
    lemma_add_mod_noop(index, 1, m);
    assert((index + 1) % m == k % m);
    lemma_mul_mod_noop_right(a, k, m);
    lemma_mul_mod_noop_right(a, index + 1, m);
    assert((a * k) % m == (a * (index + 1)) % m);
    lemma_add_mod_noop_right(seed as int, a * k, m);
    lemma_add_mod_noop_right(seed as int, a * (index + 1), m);
    lemma_mod_bound(seed + a * (index + 1), m);
}

/// A noise sample's channels lie in the documented ranges: RGB in
/// [-`ONE`, `ONE`), alpha in [0, `ONE`).
pub open spec fn noise_in_range(s: Rgba) -> bool {
    &&& -ONE <= s.r < ONE
    &&& -ONE <= s.g < ONE
    &&& -ONE <= s.b < ONE
    &&& 0 <= s.a < ONE
}

/// Every R2 sample's channels lie in the documented ranges.
pub proof fn lemma_r2_sample_range(seed: u64, index: int)
    ensures
        noise_in_range(r2_sample(seed, index)),
{
    lemma_mod_bound(seed + r2_alpha(0) * (index + 1), 65536);
    lemma_mod_bound(seed + r2_alpha(1) * (index + 1), 65536);
    lemma_mod_bound(seed + r2_alpha(2) * (index + 1), 65536);
    lemma_mod_bound(seed + r2_alpha(3) * (index + 1), 65536);
}

/// Raw bytes drawn from a PCG-family generator freshly seeded from `seed`:
/// a pure function of the seed and the byte count.
pub uninterp spec fn pcg64_bytes(seed: u64, count: nat) -> Seq<u8>;

/// Relies on rand_pcg::Pcg64Mcg (via rand::SeedableRng::seed_from_u64 and
/// rand::RngCore::fill_bytes): the generator is a deterministic integer
/// state machine, so the bytes drawn from a fresh instance depend on the
/// seed and the byte count alone, in every process and on every machine.
#[verifier::external_body]
fn pcg64_fill(seed: u64, count: usize) -> (r: Vec<u8>)
    ensures
        r@ == pcg64_bytes(seed, count as nat),
        r@.len() == count,
{
    let mut rng = <rand_pcg::Pcg64Mcg as rand::SeedableRng>::seed_from_u64(seed);
    let mut out = vec![0u8; count];
    rand::RngCore::fill_bytes(&mut rng, &mut out);
    out
}

/// An unsigned 32-bit value read little-endian from four raw bytes.
pub open spec fn le32(b: Seq<u8>, off: int) -> int {
    b[off] + 256 * b[off + 1] + 65536 * b[off + 2] + 16777216 * b[off + 3]
}

/// An RGB noise channel drawn from a raw 32-bit value: uniform over
/// [-`ONE`, `ONE`), since the modulus divides 2^32 evenly.
pub open spec fn noise_rgb_of(v: int) -> int {
    v % 131072 - 65536
}

/// An alpha noise channel drawn from a raw 32-bit value: uniform over
/// [0, `ONE`).
pub open spec fn noise_alpha_of(v: int) -> int {
    v % 65536
}

/// The `i`-th precomputed PCG sample of a table of `count` samples built
/// from `seed`: sixteen consecutive raw bytes, four per channel.
pub open spec fn pcg_sample(seed: u64, count: nat, i: int) -> Rgba {
    let raw = pcg64_bytes(seed, 16 * count);
    Rgba {
        r: noise_rgb_of(le32(raw, 16 * i)) as i64,
        g: noise_rgb_of(le32(raw, 16 * i + 4)) as i64,
        b: noise_rgb_of(le32(raw, 16 * i + 8)) as i64,
        a: noise_alpha_of(le32(raw, 16 * i + 12)) as i64,
    }
}

/// Reads an unsigned 32-bit value little-endian from four raw bytes.
fn read_le32(raw: &Vec<u8>, off: usize) -> (r: u64)
    requires
        off + 3 < raw@.len(),
    ensures
        r == le32(raw@, off as int),
        r < 4294967296,
{
    let len: usize = raw.len();
    proof {
        assert(off + 3 < len);
    }
    raw[off] as u64 + 256 * (raw[off + 1] as u64) + 65536 * (raw[off + 2] as u64) + 16777216 * (
    raw[off + 3] as u64)
}

/// The precomputed pseudorandom noise source: one sample per pixel index,
/// generated once from a 64-bit seed.
pub struct PcgNoiseGenerator {
    samples: Vec<Rgba>,
}

impl View for PcgNoiseGenerator {
    type V = Seq<Rgba>;

    closed spec fn view(&self) -> Seq<Rgba> {
        self.samples@
    }
}

impl PcgNoiseGenerator {
    /// Every precomputed sample's channels lie in the documented ranges.
    pub open spec fn wf(&self) -> bool {
        forall|i: int| 0 <= i < self@.len() ==> noise_in_range(#[trigger] self@[i])
    }

    /// The table holds `count` samples drawn from `seed`.
    pub open spec fn seeded_with(&self, seed: u64, count: nat) -> bool {
        &&& self@.len() == count
        &&& forall|i: int| 0 <= i < count ==> self@[i] == pcg_sample(seed, count, i)
    }

    /// Precomputes one sample per pixel index from the seed.
    pub fn new(seed: u64, sample_count: usize) -> (r: PcgNoiseGenerator)
        requires
            sample_count <= usize::MAX / 16,
        ensures
            r.seeded_with(seed, sample_count as nat),
            r.wf(),
    {
        let raw: Vec<u8> = pcg64_fill(seed, 16 * sample_count);
        let mut samples: Vec<Rgba> = Vec::new();
        let mut i: usize = 0;
        while i < sample_count
            invariant
                0 <= i <= sample_count,
                sample_count <= usize::MAX / 16,
                raw@ == pcg64_bytes(seed, 16 * sample_count as nat),
                raw@.len() == 16 * sample_count,
                samples@.len() == i,
                forall|j: int|
                    0 <= j < i ==> samples@[j] == pcg_sample(seed, sample_count as nat, j),
                forall|j: int| 0 <= j < i ==> noise_in_range(#[trigger] samples@[j]),
            decreases sample_count - i,
        {
            proof {
                assert(16 * i + 15 < raw@.len());
            }
            let base: usize = 16 * i;
            let v0: u64 = read_le32(&raw, base);
            let v1: u64 = read_le32(&raw, base + 4);
            let v2: u64 = read_le32(&raw, base + 8);
            let v3: u64 = read_le32(&raw, base + 12);
            samples.push(
                Rgba {
                    r: (v0 % 131072) as i64 - 65536,
                    g: (v1 % 131072) as i64 - 65536,
                    b: (v2 % 131072) as i64 - 65536,
                    a: (v3 % 65536) as i64,
                },
            );
            i = i + 1;
        }
        PcgNoiseGenerator { samples }
    }

    /// How many samples were precomputed.
    pub fn sample_count(&self) -> (r: usize)
        ensures
            r == self@.len(),
    {
        self.samples.len()
    }

    /// The sample for a pixel index. Requesting an index at or beyond the
    /// precomputed table is refused, never served from a wrapped index.
    pub fn get(&self, index: usize) -> (r: Result<Rgba, DitherError>)
        ensures
            index < self@.len() ==> r == Result::<Rgba, DitherError>::Ok(self@[index as int]),
            index >= self@.len() ==> r == Result::<Rgba, DitherError>::Err(
                DitherError::IndexOutOfRange,
            ),
    {
        if index < self.samples.len() {
            Ok(self.samples[index])
        } else {
            Err(DitherError::IndexOutOfRange)
        }
    }
}

/// Two PCG noise sources built from the same seed and sample count hold the
/// same samples: the table is a pure function of its parameters.
pub proof fn lemma_pcg_same_seed_same_samples(
    a: &PcgNoiseGenerator,
    b: &PcgNoiseGenerator,
    seed: u64,
    count: nat,
)
    requires
        a.seeded_with(seed, count),
        b.seeded_with(seed, count),
    ensures
        a@ == b@,
{
    assert(a@ =~= b@);
}

} // verus!
