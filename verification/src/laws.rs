//! Laws of the engine, each proved from the contracts stated in the other
//! modules: idempotence on exact palette colors, the universal transparency
//! rule, determinism of the seeded noise strategies, and boundary safety of
//! error diffusion on a single-pixel image.

use vstd::prelude::*;

use crate::diffusion::{adjusted, diffuse_index, diffuse_upto, spec_diffuse, zero_rgba};
use crate::engine::{noise_pixel, spec_dither, DitherGenerator};
use crate::fx::{
    fx_of_byte, lemma_byte_fx_round_trip, lemma_fx_of_byte_strictly_increasing, Rgba, ONE,
};
use crate::palette::{
    closest_index, closest_upto, dist2, lemma_closest_upto_minimal, spec_palette,
    transparent_marker, Palette, Rgb, PALETTE_PACKED, TRANSPARENT_INDEX,
};
use crate::quantize::{is_clipped, rgb_of_fx};

verus! {

/// The fixed-point pixel that holds a byte color exactly, fully opaque.
pub open spec fn opaque_fx(c: Rgb) -> Rgba {
    Rgba {
        r: fx_of_byte(c.r as int) as i64,
        g: fx_of_byte(c.g as int) as i64,
        b: fx_of_byte(c.b as int) as i64,
        a: ONE,
    }
}

/// A squared distance is never negative, and vanishes exactly on equal
/// colors.
proof fn lemma_dist2_zero(a: Rgb, c: Rgb)
    ensures
        dist2(a, c) >= 0,
        dist2(a, c) == 0 <==> a == c,
{
    let dr = a.r - c.r;
    let dg = a.g - c.g;
    let db = a.b - c.b;
    assert(dr * dr >= 0 && dg * dg >= 0 && db * db >= 0) by (nonlinear_arith);
    assert(dr != 0 ==> dr * dr > 0) by (nonlinear_arith);
    assert(dg != 0 ==> dg * dg > 0) by (nonlinear_arith);
    assert(db != 0 ==> db * db > 0) by (nonlinear_arith);
}

/// Nearest-color lookup of a color the palette holds returns the lowest
/// index carrying that color.
proof fn lemma_closest_exact(pal: Seq<Rgb>, k: int, n: int)
    requires
        pal.len() == 256,
        0 <= k < n <= 256,
        k != TRANSPARENT_INDEX,
        forall|j: int|
            0 <= j < k && j != TRANSPARENT_INDEX ==> pal[j] != pal[k],
    ensures
        closest_upto(pal, pal[k], n) == k,
    decreases n,
{
    let c = pal[k];
    lemma_dist2_zero(c, c);
    if n == k + 1 {
        if k > 0 {
            lemma_closest_upto_minimal(pal, c, k);
            let prev = closest_upto(pal, c, k);
            lemma_dist2_zero(pal[prev], c);
        }
    } else {
        lemma_closest_exact(pal, k, n - 1);
        lemma_dist2_zero(pal[n - 1], c);
    }
}

/// Idempotence: a pixel holding exactly a palette color — opaque, not the
/// transparent marker, at the lowest index carrying that color — maps back
/// to that index under the plain (noise-free) strategy.
pub proof fn lemma_palette_idempotent(pal: Seq<Rgb>, k: int, clip: int)
    requires
        pal.len() == 256,
        0 <= k < 256,
        k != TRANSPARENT_INDEX,
        pal[k] != transparent_marker(),
        forall|j: int|
            0 <= j < k && j != TRANSPARENT_INDEX ==> pal[j] != pal[k],
        0 <= clip <= ONE,
    ensures
        noise_pixel(pal, opaque_fx(pal[k]), clip, zero_rgba()) == k,
{
    let c = pal[k];
    let p = opaque_fx(c);
    // Not transparent: alpha is full, and the color differs from the marker
    // in some channel, so its fixed-point image differs there too.
    assert(!(p.a < clip));
    if crate::quantize::rgb_is_marker(p) {
        let m = transparent_marker();
        assert(fx_of_byte(c.r as int) == fx_of_byte(0));
        assert(fx_of_byte(c.g as int) == fx_of_byte(255));
        assert(fx_of_byte(c.b as int) == fx_of_byte(255));
        if c.r != m.r {
            lemma_fx_of_byte_strictly_increasing(0, c.r as int);
        }
        if c.g != m.g {
            lemma_fx_of_byte_strictly_increasing(c.g as int, 255);
        }
        if c.b != m.b {
            lemma_fx_of_byte_strictly_increasing(c.b as int, 255);
        }
        assert(false);
    }
    // Zero noise leaves every channel unchanged.
    assert(crate::fx::perturb_chan(p.r as int, 0) == p.r);
    assert(crate::fx::perturb_chan(p.g as int, 0) == p.g);
    assert(crate::fx::perturb_chan(p.b as int, 0) == p.b);
    // Converting back to bytes recovers the palette color exactly.
    lemma_byte_fx_round_trip(c.r as int);
    lemma_byte_fx_round_trip(c.g as int);
    lemma_byte_fx_round_trip(c.b as int);
    assert(rgb_of_fx(p.r as int, p.g as int, p.b as int) == c);
    lemma_closest_exact(pal, k, 256);
}

/// Idempotence lifted to a whole conversion: under the plain strategy, a
/// pixel holding exactly a palette color (opaque, not the marker, at the
/// lowest index carrying that color) comes out as that index.
pub proof fn lemma_plain_dither_idempotent(
    gen: &DitherGenerator,
    pixels: Seq<Rgba>,
    w: int,
    h: int,
    clip: int,
    pal: Seq<Rgb>,
    i: int,
    k: int,
)
    requires
        gen is Off,
        0 <= i < pixels.len(),
        pixels[i] == opaque_fx(pal[k]),
        pal.len() == 256,
        0 <= k < 256,
        k != TRANSPARENT_INDEX,
        pal[k] != transparent_marker(),
        forall|j: int|
            0 <= j < k && j != TRANSPARENT_INDEX ==> pal[j] != pal[k],
        0 <= clip <= ONE,
    ensures
        spec_dither(gen, pixels, w, h, clip, pal)[i] == k as u8,
{
    lemma_palette_idempotent(pal, k, clip);
}

/// The fixed table holds black at its first slot, and looking black up
/// finds that slot.
pub proof fn lemma_lookup_black()
    ensures
        spec_palette()[0] == (Rgb { r: 0, g: 0, b: 0 }),
        closest_index(spec_palette(), Rgb { r: 0, g: 0, b: 0 }) == 0,
{
    lemma_closest_exact(spec_palette(), 0, 256);
}

/// The fixed table holds white only at its last slot, and looking white up
/// finds that slot.
#[verifier::rlimit(60)]
pub proof fn lemma_lookup_white()
    ensures
        spec_palette()[255] == (Rgb { r: 255, g: 255, b: 255 }),
        closest_index(spec_palette(), Rgb { r: 255, g: 255, b: 255 }) == 255,
{
    let white = Rgb { r: 255, g: 255, b: 255 };
    assert forall|j: int| 0 <= j < 255 implies spec_palette()[j] != white by {
        assert(PALETTE_PACKED@[j] != 0xffffff);
    }
    lemma_closest_exact(spec_palette(), 255, 256);
}

/// Repeated constructions hand back the identical fixed table.
pub proof fn lemma_palette_table_fixed(a: &Palette, b: &Palette)
    requires
        a@ == spec_palette(),
        b@ == spec_palette(),
    ensures
        a@ == b@,
{
}

/// The exact worked example: a pixel of an opaque black image, under the
/// plain strategy and the fixed palette, maps to index 0.
pub proof fn lemma_black_image_example(
    gen: &DitherGenerator,
    pixels: Seq<Rgba>,
    w: int,
    h: int,
    clip: int,
    i: int,
)
    requires
        gen is Off,
        0 <= i < pixels.len(),
        pixels[i] == (Rgba { r: 0, g: 0, b: 0, a: ONE }),
        0 <= clip <= ONE,
    ensures
        spec_dither(gen, pixels, w, h, clip, spec_palette())[i] == 0,
{
    lemma_lookup_black();
    assert(opaque_fx(spec_palette()[0]) == pixels[i]);
    lemma_plain_dither_idempotent(gen, pixels, w, h, clip, spec_palette(), i, 0);
}

/// The alpha value the transparency rule is decided on: the raw alpha for
/// the noise strategies, the error-adjusted alpha for the diffusion
/// strategies.
pub open spec fn effective_alpha(
    gen: &DitherGenerator,
    pixels: Seq<Rgba>,
    w: int,
    h: int,
    clip: int,
    pal: Seq<Rgb>,
    i: int,
) -> int {
    if gen.is_noise_strategy() {
        pixels[i].a as int
    } else {
        let kernel = gen.spec_kernel();
        adjusted(
            pixels[i],
            diffuse_upto(
                pal,
                kernel.spec_entries(),
                kernel.spec_den() as int,
                clip,
                pixels,
                w,
                h,
                i,
            ).1[i],
        ).a as int
    }
}

/// Universal transparency rule: under every strategy, a pixel whose
/// effective alpha falls below the clip threshold maps to the transparent
/// index.
pub proof fn lemma_universal_transparency(
    gen: &DitherGenerator,
    pixels: Seq<Rgba>,
    w: int,
    h: int,
    clip: int,
    pal: Seq<Rgb>,
    i: int,
)
    requires
        0 <= i < pixels.len(),
        0 <= w,
        0 <= h,
        effective_alpha(gen, pixels, w, h, clip, pal, i) < clip,
    ensures
        spec_dither(gen, pixels, w, h, clip, pal)[i] == TRANSPARENT_INDEX as u8,
{
    if gen.is_noise_strategy() {
        assert(is_clipped(pixels[i], clip));
    } else {
        let kernel = gen.spec_kernel();
        crate::diffusion::lemma_diffuse_char(
            pal,
            kernel.spec_entries(),
            kernel.spec_den() as int,
            clip,
            pixels,
            w,
            h,
            i,
            pixels.len() as int,
        );
        let adj = adjusted(
            pixels[i],
            diffuse_upto(
                pal,
                kernel.spec_entries(),
                kernel.spec_den() as int,
                clip,
                pixels,
                w,
                h,
                i,
            ).1[i],
        );
        assert(is_clipped(adj, clip));
    }
}

/// Determinism of the R2 strategy: two generators built from one seed give
/// byte-identical output on any image.
pub proof fn lemma_r2_deterministic(
    a: &DitherGenerator,
    b: &DitherGenerator,
    seed: u64,
    pixels: Seq<Rgba>,
    w: int,
    h: int,
    clip: int,
    pal: Seq<Rgb>,
)
    requires
        a matches DitherGenerator::R2(x) && x.seed_spec() == seed,
        b matches DitherGenerator::R2(y) && y.seed_spec() == seed,
    ensures
        spec_dither(a, pixels, w, h, clip, pal) == spec_dither(b, pixels, w, h, clip, pal),
{
    assert(spec_dither(a, pixels, w, h, clip, pal) =~= spec_dither(b, pixels, w, h, clip, pal));
}

/// Determinism of the PCG strategy: two generators built from one seed and
/// sample count give byte-identical output on any image.
pub proof fn lemma_pcg_deterministic(
    a: &DitherGenerator,
    b: &DitherGenerator,
    seed: u64,
    count: nat,
    pixels: Seq<Rgba>,
    w: int,
    h: int,
    clip: int,
    pal: Seq<Rgb>,
)
    requires
        a matches DitherGenerator::Pcg(x) && x.seeded_with(seed, count),
        b matches DitherGenerator::Pcg(y) && y.seeded_with(seed, count),
    ensures
        spec_dither(a, pixels, w, h, clip, pal) == spec_dither(b, pixels, w, h, clip, pal),
{
    let x = a->Pcg_0;
    let y = b->Pcg_0;
    crate::noise::lemma_pcg_same_seed_same_samples(&x, &y, seed, count);
    assert(spec_dither(a, pixels, w, h, clip, pal) =~= spec_dither(b, pixels, w, h, clip, pal));
}

/// Boundary safety: a single-pixel image under any diffusion kernel yields
/// exactly the decision on its raw color — every propagated share aims
/// outside the image and is dropped, and no error is possible.
pub proof fn lemma_single_pixel_diffusion(
    pal: Seq<Rgb>,
    kernel: crate::kernel::DiffusionKernel,
    clip: int,
    pixels: Seq<Rgba>,
)
    requires
        pixels.len() == 1,
    ensures
        spec_diffuse(pal, kernel, clip, pixels, 1, 1) =~= seq![
            diffuse_index(pal, pixels[0], clip) as u8,
        ],
{
    let entries = kernel.spec_entries();
    let den = kernel.spec_den() as int;
    let st0 = diffuse_upto(pal, entries, den, clip, pixels, 1, 1, 0);
    assert(st0.1[0] == zero_rgba());
    assert(adjusted(pixels[0], zero_rgba()) == pixels[0]);
}

} // verus!
