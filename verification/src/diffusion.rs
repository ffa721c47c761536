//! The strictly sequential error-diffusion path.
//!
//! Pixels are visited in row-major order, once. Each pixel's color is
//! adjusted by the error accumulated at its cell, the transparency rule is
//! decided on the adjusted color, the quantization error is split along the
//! kernel, and every share whose target lies strictly inside the image is
//! added into the accumulator; shares aimed outside are dropped. Because a
//! fixed-point accumulator, unlike a float one, must never overflow, each
//! cell saturates at `ERR_LIMIT` — far beyond any error a normalized image
//! accumulates in practice.

use vstd::prelude::*;

use crate::buffer::{chan_in_range, ImageBuffer};
use crate::fx::{div_trunc, fx_of_byte, Rgba, ONE};
use crate::kernel::{entry_ok, lemma_entries_in_bounds, DiffusionKernel, KernelEntry};
use crate::palette::{closest_index, Palette, Rgb, TRANSPARENT_INDEX};
use crate::quantize::{clipped, is_clipped, quantize_color_fx, rgb_of_fx};

verus! {

/// Largest magnitude an accumulated error channel can hold: 256 channel
/// units at `ONE` scale.
pub const ERR_LIMIT: i64 = 16777216;

/// The all-zero color, the initial content of every accumulator cell.
pub open spec fn zero_rgba() -> Rgba {
    Rgba { r: 0, g: 0, b: 0, a: 0 }
}

/// Every channel of an accumulator cell stays within the saturation bound.
pub open spec fn err_in_range(e: Rgba) -> bool {
    &&& -ERR_LIMIT <= e.r <= ERR_LIMIT
    &&& -ERR_LIMIT <= e.g <= ERR_LIMIT
    &&& -ERR_LIMIT <= e.b <= ERR_LIMIT
    &&& -ERR_LIMIT <= e.a <= ERR_LIMIT
}

/// Saturating clamp of an accumulated error channel.
pub open spec fn clamp_err(v: int) -> int {
    if v < -(ERR_LIMIT as int) {
        -(ERR_LIMIT as int)
    } else if v > ERR_LIMIT as int {
        ERR_LIMIT as int
    } else {
        v
    }
}

/// Saturating clamp of an accumulated error channel.
fn clamp_err_exec(v: i64) -> (r: i64)
    ensures
        r == clamp_err(v as int),
        -ERR_LIMIT <= r <= ERR_LIMIT,
{
    if v < -ERR_LIMIT {
        -ERR_LIMIT
    } else if v > ERR_LIMIT {
        ERR_LIMIT
    } else {
        v
    }
}

/// Every channel of a quantization error stays within the accumulator's
/// saturation bound plus two channel units.
pub open spec fn err_bounded(e: Rgba) -> bool {
    &&& -(ERR_LIMIT + 2 * ONE) <= e.r <= ERR_LIMIT + 2 * ONE
    &&& -(ERR_LIMIT + 2 * ONE) <= e.g <= ERR_LIMIT + 2 * ONE
    &&& -(ERR_LIMIT + 2 * ONE) <= e.b <= ERR_LIMIT + 2 * ONE
    &&& -(ERR_LIMIT + 2 * ONE) <= e.a <= ERR_LIMIT + 2 * ONE
}

/// One weighted share of an error channel: `e * num / den`, truncating
/// toward zero.
fn weighted_share(e: i64, num: i64, den: i64) -> (r: i64)
    requires
        -(ERR_LIMIT + 2 * ONE) <= e <= ERR_LIMIT + 2 * ONE,
        1 <= num <= 8,
        4 <= den <= 48,
    ensures
        r == div_trunc(e as int * num as int, den as int),
        -8 * (ERR_LIMIT as int + 2 * ONE as int) <= r <= 8 * (ERR_LIMIT as int + 2 * ONE as int),
{
    proof {
        let lim = ERR_LIMIT as int + 2 * ONE as int;
        assert(-(8 * lim) <= (e as int) * (num as int) <= 8 * lim) by (nonlinear_arith)
            requires
                -lim <= e as int <= lim,
                1 <= num as int <= 8,
        ;
        let x = (e as int) * (num as int);
        if x >= 0 {
            vstd::arithmetic::div_mod::lemma_div_is_ordered(0, x, den as int);
            vstd::arithmetic::div_mod::lemma_div_is_ordered_by_denominator(x, 1, den as int);
            vstd::arithmetic::div_mod::lemma_div_basics(x);
        } else {
            vstd::arithmetic::div_mod::lemma_div_is_ordered(0, -x, den as int);
            vstd::arithmetic::div_mod::lemma_div_is_ordered_by_denominator(-x, 1, den as int);
            vstd::arithmetic::div_mod::lemma_div_basics(-x);
        }
    }
    (e * num) / den
}

/// The error-adjusted color of a pixel: its source color plus the error
/// accumulated at its cell.
pub open spec fn adjusted(p: Rgba, e: Rgba) -> Rgba {
    Rgba {
        r: (p.r + e.r) as i64,
        g: (p.g + e.g) as i64,
        b: (p.b + e.b) as i64,
        a: (p.a + e.a) as i64,
    }
}

/// The output index for an error-adjusted color: the transparent index when
/// the transparency rule fires, else the nearest palette entry.
pub open spec fn diffuse_index(pal: Seq<Rgb>, adj: Rgba, clip: int) -> int {
    if is_clipped(adj, clip) {
        TRANSPARENT_INDEX as int
    } else {
        closest_index(pal, rgb_of_fx(adj.r as int, adj.g as int, adj.b as int))
    }
}

/// The quantization error of an error-adjusted color: adjusted color minus
/// chosen palette color, alpha measured against full opacity; zero when the
/// pixel went transparent.
pub open spec fn diffuse_error(pal: Seq<Rgb>, adj: Rgba, clip: int) -> Rgba {
    if is_clipped(adj, clip) {
        zero_rgba()
    } else {
        let q = pal[closest_index(pal, rgb_of_fx(adj.r as int, adj.g as int, adj.b as int))];
        Rgba {
            r: (adj.r - fx_of_byte(q.r as int)) as i64,
            g: (adj.g - fx_of_byte(q.g as int)) as i64,
            b: (adj.b - fx_of_byte(q.b as int)) as i64,
            a: (adj.a - ONE) as i64,
        }
    }
}

/// One kernel entry's share of the error added into the accumulator — only
/// if its target lies strictly inside the image bounds; a share aimed
/// outside is dropped.
pub open spec fn propagate_entry(
    acc: Seq<Rgba>,
    e: KernelEntry,
    den: int,
    diff: Rgba,
    x: int,
    y: int,
    w: int,
    h: int,
) -> Seq<Rgba> {
    let px = x + e.dx;
    let py = y + e.dy;
    if px <= 0 || py <= 0 || px >= w || py >= h {
        acc
    } else {
        let idx = py * w + px;
        let old = acc[idx];
        acc.update(
            idx,
            Rgba {
                r: clamp_err(old.r + div_trunc(diff.r * e.num, den)) as i64,
                g: clamp_err(old.g + div_trunc(diff.g * e.num, den)) as i64,
                b: clamp_err(old.b + div_trunc(diff.b * e.num, den)) as i64,
                a: clamp_err(old.a + div_trunc(diff.a * e.num, den)) as i64,
            },
        )
    }
}

/// The first `k` kernel entries applied in order.
pub open spec fn propagate_upto(
    acc: Seq<Rgba>,
    entries: Seq<KernelEntry>,
    k: int,
    den: int,
    diff: Rgba,
    x: int,
    y: int,
    w: int,
    h: int,
) -> Seq<Rgba>
    decreases k,
{
    if k <= 0 {
        acc
    } else {
        propagate_entry(
            propagate_upto(acc, entries, k - 1, den, diff, x, y, w, h),
            entries[k - 1],
            den,
            diff,
            x,
            y,
            w,
            h,
        )
    }
}

/// Propagation preserves the accumulator's length and keeps every cell
/// within the saturation bound.
pub proof fn lemma_propagate_wf(
    acc: Seq<Rgba>,
    entries: Seq<KernelEntry>,
    k: int,
    den: int,
    diff: Rgba,
    x: int,
    y: int,
    w: int,
    h: int,
)
    requires
        acc.len() == w * h,
        0 <= w,
        0 <= h,
        forall|i: int| 0 <= i < acc.len() ==> err_in_range(#[trigger] acc[i]),
    ensures
        propagate_upto(acc, entries, k, den, diff, x, y, w, h).len() == w * h,
        forall|i: int|
            0 <= i < acc.len() ==> err_in_range(
                #[trigger] propagate_upto(acc, entries, k, den, diff, x, y, w, h)[i],
            ),
    decreases k,
{
    if k > 0 {
        lemma_propagate_wf(acc, entries, k - 1, den, diff, x, y, w, h);
        let prev = propagate_upto(acc, entries, k - 1, den, diff, x, y, w, h);
        let e = entries[k - 1];
        let px = x + e.dx;
        let py = y + e.dy;
        if !(px <= 0 || py <= 0 || px >= w || py >= h) {
            assert(py * w + px < w * h && 0 <= py * w + px) by (nonlinear_arith)
                requires
                    0 < px < w,
                    0 < py < h,
            ;
        }
    }
}

/// The state after the first `n` pixels: the output indices produced so far
/// and the error accumulator.
pub open spec fn diffuse_upto(
    pal: Seq<Rgb>,
    entries: Seq<KernelEntry>,
    den: int,
    clip: int,
    pixels: Seq<Rgba>,
    w: int,
    h: int,
    n: int,
) -> (Seq<u8>, Seq<Rgba>)
    decreases n,
{
    if n <= 0 {
        (Seq::empty(), Seq::new((w * h) as nat, |i: int| zero_rgba()))
    } else {
        let prev = diffuse_upto(pal, entries, den, clip, pixels, w, h, n - 1);
        let adj = adjusted(pixels[n - 1], prev.1[n - 1]);
        let idx = diffuse_index(pal, adj, clip);
        let err = diffuse_error(pal, adj, clip);
        let acc2 = propagate_upto(
            prev.1,
            entries,
            entries.len() as int,
            den,
            err,
            (n - 1) % w,
            (n - 1) / w,
            w,
            h,
        );
        (prev.0.push(idx as u8), acc2)
    }
}

/// The whole image under one kernel.
pub open spec fn spec_diffuse(
    pal: Seq<Rgb>,
    kernel: DiffusionKernel,
    clip: int,
    pixels: Seq<Rgba>,
    w: int,
    h: int,
) -> Seq<u8> {
    diffuse_upto(
        pal,
        kernel.spec_entries(),
        kernel.spec_den() as int,
        clip,
        pixels,
        w,
        h,
        pixels.len() as int,
    ).0
}

/// After `n` pixels the output holds `n` indices and the accumulator is
/// still one bounded cell per pixel.
pub proof fn lemma_diffuse_wf(
    pal: Seq<Rgb>,
    entries: Seq<KernelEntry>,
    den: int,
    clip: int,
    pixels: Seq<Rgba>,
    w: int,
    h: int,
    n: int,
)
    requires
        0 <= w,
        0 <= h,
        0 <= n,
    ensures
        diffuse_upto(pal, entries, den, clip, pixels, w, h, n).0.len() == n,
        diffuse_upto(pal, entries, den, clip, pixels, w, h, n).1.len() == w * h,
        forall|i: int|
            0 <= i < w * h ==> err_in_range(
                #[trigger] diffuse_upto(pal, entries, den, clip, pixels, w, h, n).1[i],
            ),
    decreases n,
{
    if n > 0 {
        lemma_diffuse_wf(pal, entries, den, clip, pixels, w, h, n - 1);
        let prev = diffuse_upto(pal, entries, den, clip, pixels, w, h, n - 1);
        let adj = adjusted(pixels[n - 1], prev.1[n - 1]);
        let err = diffuse_error(pal, adj, clip);
        lemma_propagate_wf(
            prev.1,
            entries,
            entries.len() as int,
            den,
            err,
            (n - 1) % w,
            (n - 1) / w,
            w,
            h,
        );
    }
}

/// An output index is settled the moment its pixel is processed: later
/// pixels never change it.
pub proof fn lemma_diffuse_prefix(
    pal: Seq<Rgb>,
    entries: Seq<KernelEntry>,
    den: int,
    clip: int,
    pixels: Seq<Rgba>,
    w: int,
    h: int,
    i: int,
    n: int,
)
    requires
        0 <= w,
        0 <= h,
        0 <= i < n,
    ensures
        diffuse_upto(pal, entries, den, clip, pixels, w, h, n).0[i] == diffuse_upto(
            pal,
            entries,
            den,
            clip,
            pixels,
            w,
            h,
            i + 1,
        ).0[i],
    decreases n,
{
    lemma_diffuse_wf(pal, entries, den, clip, pixels, w, h, n - 1);
    if i < n - 1 {
        lemma_diffuse_prefix(pal, entries, den, clip, pixels, w, h, i, n - 1);
    }
}

/// What the settled output index of pixel `i` is: the per-pixel decision on
/// its error-adjusted color.
pub proof fn lemma_diffuse_char(
    pal: Seq<Rgb>,
    entries: Seq<KernelEntry>,
    den: int,
    clip: int,
    pixels: Seq<Rgba>,
    w: int,
    h: int,
    i: int,
    n: int,
)
    requires
        0 <= w,
        0 <= h,
        0 <= i < n,
    ensures
        diffuse_upto(pal, entries, den, clip, pixels, w, h, n).0[i] == diffuse_index(
            pal,
            adjusted(pixels[i], diffuse_upto(pal, entries, den, clip, pixels, w, h, i).1[i]),
            clip,
        ) as u8,
{
    lemma_diffuse_prefix(pal, entries, den, clip, pixels, w, h, i, n);
    lemma_diffuse_wf(pal, entries, den, clip, pixels, w, h, i);
}

/// Runs one kernel over the whole image, strictly sequentially.
pub fn dither_from_error_diffusion(
    image: &ImageBuffer,
    clip: i64,
    palette: &Palette,
    kernel: &DiffusionKernel,
) -> (r: Vec<u8>)
    requires
        image.wf(),
        palette.wf(),
    ensures
        r@ == spec_diffuse(
            palette@,
            *kernel,
            clip as int,
            image.pixels@,
            image.width as int,
            image.height as int,
        ),
        r@.len() == image.width * image.height,
{
    let n: usize = image.pixels.len();
    let w: usize = image.width;
    let h: usize = image.height;
    let den: u64 = kernel.den();
    let entries: Vec<KernelEntry> = kernel.entries();
    proof {
        lemma_entries_in_bounds(*kernel);
    }

    let mut acc: Vec<Rgba> = Vec::new();
    let mut z: usize = 0;
    while z < n
        invariant
            0 <= z <= n,
            acc@.len() == z,
            forall|j: int| 0 <= j < z ==> acc@[j] == zero_rgba(),
        decreases n - z,
    {
        acc.push(Rgba { r: 0, g: 0, b: 0, a: 0 });
        z = z + 1;
    }
    proof {
        assert(acc@ =~= Seq::new((w * h) as nat, |i: int| zero_rgba()));
    }

    let ghost pal = palette@;
    let ghost sentries = kernel.spec_entries();
    let ghost sden = kernel.spec_den() as int;
    let ghost sclip = clip as int;
    let ghost pixels = image.pixels@;

    let mut out: Vec<u8> = Vec::new();
    let mut i: usize = 0;
    while i < n
        invariant
            0 <= i <= n,
            image.wf(),
            palette.wf(),
            pal == palette@,
            sentries == kernel.spec_entries(),
            sden == kernel.spec_den() as int,
            sclip == clip as int,
            pixels == image.pixels@,
            n == image.pixels@.len(),
            w == image.width,
            h == image.height,
            den == kernel.spec_den(),
            entries@ == sentries,
            out@.len() == i,
            out@ == diffuse_upto(pal, sentries, sden, sclip, pixels, w as int, h as int, i as int).0,
            acc@ == diffuse_upto(pal, sentries, sden, sclip, pixels, w as int, h as int, i as int).1,
            acc@.len() == n,
            forall|j: int| 0 <= j < n ==> err_in_range(#[trigger] acc@[j]),
            forall|j: int| 0 <= j < sentries.len() ==> entry_ok(#[trigger] sentries[j]),
            4 <= den <= 48,
        decreases n - i,
    {
        let p: Rgba = image.pixels[i];
        let e: Rgba = acc[i];
        let adj = Rgba { r: p.r + e.r, g: p.g + e.g, b: p.b + e.b, a: p.a + e.a };
        proof {
            assert(chan_in_range(pixels[i as int]));
            assert(adj == adjusted(pixels[i as int], acc@[i as int]));
        }
        let (idx, err): (u8, Rgba) = if clipped(&adj, clip) {
            (TRANSPARENT_INDEX as u8, Rgba { r: 0, g: 0, b: 0, a: 0 })
        } else {
            let (ci, q) = quantize_color_fx(palette, adj.r, adj.g, adj.b);
            (
                ci as u8,
                Rgba { r: adj.r - q.r, g: adj.g - q.g, b: adj.b - q.b, a: adj.a - ONE },
            )
        };
        proof {
            assert(idx as int == diffuse_index(pal, adjusted(pixels[i as int], acc@[i as int]), sclip));
            assert(err == diffuse_error(pal, adjusted(pixels[i as int], acc@[i as int]), sclip));
            assert(err_bounded(err));
        }

        // Split the quantization error along the kernel.
        proof {
            assert(w > 0 && h > 0) by (nonlinear_arith)
                requires
                    (w as int) * (h as int) == n,
                    0 <= i < n,
            ;
            assert((h as int - 1) * (w as int) + (w as int - 1) == (w as int) * (h as int) - 1)
                by (nonlinear_arith);
            vstd::arithmetic::div_mod::lemma_fundamental_div_mod_converse_div(
                (w as int) * (h as int) - 1,
                w as int,
                h as int - 1,
                w as int - 1,
            );
            vstd::arithmetic::div_mod::lemma_div_is_ordered(
                i as int,
                (w as int) * (h as int) - 1,
                w as int,
            );
            vstd::arithmetic::div_mod::lemma_mod_bound(i as int, w as int);
        }
        let x: usize = i % w;
        let y: usize = i / w;
        let ghost acc0 = acc@;
        let mut j: usize = 0;
        while j < entries.len()
            invariant
                0 <= j <= entries@.len(),
                entries@ == sentries,
                forall|t: int| 0 <= t < sentries.len() ==> entry_ok(#[trigger] sentries[t]),
                4 <= den <= 48,
                w == image.width,
                h == image.height,
                image.wf(),
                n == image.pixels@.len(),
                x == i as int % w as int,
                y == i as int / w as int,
                x < w,
                y < h,
                i < n,
                err_bounded(err),
                acc@ == propagate_upto(
                    acc0,
                    sentries,
                    j as int,
                    sden,
                    err,
                    x as int,
                    y as int,
                    w as int,
                    h as int,
                ),
                sden == den as int,
                acc@.len() == n,
                forall|t: int| 0 <= t < n ==> err_in_range(#[trigger] acc@[t]),
            decreases entries@.len() - j,
        {
            let en: KernelEntry = entries[j];
            let px: i64 = x as i64 + en.dx;
            let py: i64 = y as i64 + en.dy;
            if px > 0 && py > 0 && px < w as i64 && py < h as i64 {
                proof {
                    assert(((py as int) * (w as int) + (px as int) < (w as int) * (h as int)) && (0
                        <= (py as int) * (w as int) + (px as int))) by (nonlinear_arith)
                        requires
                            0 < (px as int) < (w as int),
                            0 < (py as int) < (h as int),
                    ;
                    assert((w as int) * (h as int) == n);
                }
                let t: usize = (py as usize) * w + (px as usize);
                let old_cell: Rgba = acc[t];
                let num: i64 = en.num as i64;
                let d: i64 = den as i64;
                let cell = Rgba {
                    r: clamp_err_exec(old_cell.r + weighted_share(err.r, num, d)),
                    g: clamp_err_exec(old_cell.g + weighted_share(err.g, num, d)),
                    b: clamp_err_exec(old_cell.b + weighted_share(err.b, num, d)),
                    a: clamp_err_exec(old_cell.a + weighted_share(err.a, num, d)),
                };
                acc[t] = cell;
            }
            j = j + 1;
        }
        proof {
            assert(acc@ == propagate_upto(
                acc0,
                sentries,
                sentries.len() as int,
                sden,
                err,
                x as int,
                y as int,
                w as int,
                h as int,
            ));
        }
        out.push(idx);
        i = i + 1;
        proof {
            assert(out@ == diffuse_upto(
                pal,
                sentries,
                sden,
                sclip,
                pixels,
                w as int,
                h as int,
                i as int,
            ).0);
        }
    }
    proof {
        assert((w as int) * (h as int) == n);
    }
    out
}

} // verus!
