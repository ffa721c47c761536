//! The dithering engine: strategy selection and the two conversion paths.
//!
//! The noise strategies decide each pixel independently of every other, so
//! the result is a pure function of the pixel alone — identical however the
//! work is sharded. The diffusion strategies run strictly sequentially.

use vstd::prelude::*;

use crate::buffer::{chan_in_range, ImageBuffer};
use crate::data::BitmapDataCompression;
use crate::diffusion::{dither_from_error_diffusion, spec_diffuse};
use crate::error::DitherError;
use crate::fx::{perturb, perturb_chan, Rgba, ONE};
use crate::kernel::DiffusionKernel;
use crate::noise::{
    lemma_r2_sample_range, noise_in_range, r2_sample, PcgNoiseGenerator, R2BlueNoiseGenerator,
};
use crate::palette::{closest_index, Palette, Rgb, TRANSPARENT_INDEX};
use crate::quantize::{clipped, is_clipped, quantize_fx, rgb_of_fx};

verus! {

/// Which dithering strategy a conversion uses.
#[derive(Clone, Copy, Debug, PartialEq, Eq, Structural)]
pub enum DitherOptions {
    Off,
    R2,
    Pcg,
    FloydSteinberg,
    JavisJudiceNinke,
    Stucki,
    Atkinson,
    Burkes,
    Sierra,
    TwoRowSierra,
    SierraLite,
}

impl Default for DitherOptions {
    fn default() -> (r: Self)
        ensures
            r is Off,
    {
        DitherOptions::Off
    }
}

/// Configuration of one conversion: how the indexed buffer is stored, the
/// alpha threshold below which a pixel goes transparent (fixed point, in
/// [0, `ONE`]), and the strategy.
pub struct BitmapImageOptions {
    pub compression: BitmapDataCompression,
    pub transparency_clip: i64,
    pub dither: DitherOptions,
}

/// A strategy together with whatever precomputed state it carries.
pub enum DitherGenerator {
    Off,
    R2(R2BlueNoiseGenerator),
    Pcg(PcgNoiseGenerator),
    FloydSteinberg,
    JavisJudiceNinke,
    Stucki,
    Atkinson,
    Burkes,
    Sierra,
    TwoRowSierra,
    SierraLite,
}

/// The per-pixel decision of the noise path: the transparency rule on the
/// unperturbed color first; otherwise quantize the noise-perturbed color.
pub open spec fn noise_pixel(pal: Seq<Rgb>, p: Rgba, clip: int, n: Rgba) -> int {
    if is_clipped(p, clip) {
        TRANSPARENT_INDEX as int
    } else {
        closest_index(
            pal,
            rgb_of_fx(
                perturb_chan(p.r as int, n.r as int),
                perturb_chan(p.g as int, n.g as int),
                perturb_chan(p.b as int, n.b as int),
            ),
        )
    }
}

impl DitherGenerator {
    /// Whatever precomputed state the strategy carries is consistent.
    pub open spec fn wf(&self) -> bool {
        match self {
            DitherGenerator::R2(g) => g.wf(),
            DitherGenerator::Pcg(g) => g.wf(),
            _ => true,
        }
    }

    /// The strategy decides each pixel independently (no error diffusion).
    pub open spec fn is_noise_strategy(&self) -> bool {
        self is Off || self is R2 || self is Pcg
    }

    /// The noise sample a noise strategy applies at a pixel index.
    pub open spec fn spec_sample(&self, i: int) -> Rgba {
        match self {
            DitherGenerator::R2(g) => r2_sample(g.seed_spec(), i),
            DitherGenerator::Pcg(g) => g@[i],
            _ => Rgba { r: 0, g: 0, b: 0, a: 0 },
        }
    }

    /// The kernel a diffusion strategy runs.
    pub open spec fn spec_kernel(&self) -> DiffusionKernel {
        match self {
            DitherGenerator::JavisJudiceNinke => DiffusionKernel::JavisJudiceNinke,
            DitherGenerator::Stucki => DiffusionKernel::Stucki,
            DitherGenerator::Atkinson => DiffusionKernel::Atkinson,
            DitherGenerator::Burkes => DiffusionKernel::Burkes,
            DitherGenerator::Sierra => DiffusionKernel::Sierra,
            DitherGenerator::TwoRowSierra => DiffusionKernel::TwoRowSierra,
            DitherGenerator::SierraLite => DiffusionKernel::SierraLite,
            _ => DiffusionKernel::FloydSteinberg,
        }
    }

    /// The PCG strategy was given fewer precomputed samples than the image
    /// has pixels — the one configuration the engine refuses.
    pub open spec fn pcg_short(&self, pixel_count: int) -> bool {
        match self {
            DitherGenerator::Pcg(g) => g@.len() < pixel_count,
            _ => false,
        }
    }

    /// The strategy that leaves every color untouched.
    pub fn new_none() -> (r: Self)
        ensures
            r is Off,
            r.wf(),
    {
        Self::Off
    }

    /// The R2 low-discrepancy noise strategy.
    pub fn new_r2(seed: u64) -> (r: Self)
        ensures
            r matches DitherGenerator::R2(g) && g.wf() && g.seed_spec() == seed,
    {
        Self::R2(R2BlueNoiseGenerator::new(seed))
    }

    /// The precomputed pseudorandom noise strategy.
    pub fn new_pcg(seed: u64, sample_count: usize) -> (r: Self)
        requires
            sample_count <= usize::MAX / 16,
        ensures
            r matches DitherGenerator::Pcg(g) && g.seeded_with(seed, sample_count as nat),
            r.wf(),
    {
        Self::Pcg(PcgNoiseGenerator::new(seed, sample_count))
    }

    /// The Floyd–Steinberg diffusion strategy.
    pub fn new_floyd_steinberg() -> (r: Self)
        ensures
            r is FloydSteinberg,
    {
        Self::FloydSteinberg
    }

    /// The Jarvis, Judice & Ninke diffusion strategy.
    pub fn new_javis_judice_ninke() -> (r: Self)
        ensures
            r is JavisJudiceNinke,
    {
        Self::JavisJudiceNinke
    }

    /// The Stucki diffusion strategy.
    pub fn new_stucki() -> (r: Self)
        ensures
            r is Stucki,
    {
        Self::Stucki
    }

    /// The Atkinson diffusion strategy.
    pub fn new_atkinson() -> (r: Self)
        ensures
            r is Atkinson,
    {
        Self::Atkinson
    }

    /// The Burkes diffusion strategy.
    pub fn new_burkes() -> (r: Self)
        ensures
            r is Burkes,
    {
        Self::Burkes
    }

    /// The Sierra diffusion strategy.
    pub fn new_sierra() -> (r: Self)
        ensures
            r is Sierra,
    {
        Self::Sierra
    }

    /// The two-row Sierra diffusion strategy.
    pub fn new_two_row_sierra() -> (r: Self)
        ensures
            r is TwoRowSierra,
    {
        Self::TwoRowSierra
    }

    /// The Sierra Lite diffusion strategy.
    pub fn new_sierra_lite() -> (r: Self)
        ensures
            r is SierraLite,
    {
        Self::SierraLite
    }

    /// Converts the continuous image into an indexed byte buffer of exactly
    /// width * height entries, row-major. The engine fails fast: the only
    /// refused input is a PCG sample table smaller than the image, and then
    /// no partial output is produced.
    pub fn dither(
        &self,
        image: &ImageBuffer,
        options: &BitmapImageOptions,
        palette: &Palette,
    ) -> (r: Result<Vec<u8>, DitherError>)
        requires
            image.wf(),
            palette.wf(),
            self.wf(),
            0 <= options.transparency_clip <= ONE,
        ensures
            match r {
                Ok(out) => {
                    &&& out@ == spec_dither(
                        self,
                        image.pixels@,
                        image.width as int,
                        image.height as int,
                        options.transparency_clip as int,
                        palette@,
                    )
                    &&& out@.len() == image.width * image.height
                },
                Err(e) => e is ConfigurationError,
            },
            r is Err <==> self.pcg_short((image.width * image.height) as int),
    {
        let pixel_count: usize = image.pixels.len();
        if let DitherGenerator::Pcg(g) = self {
            if g.sample_count() < pixel_count {
                return Err(DitherError::ConfigurationError);
            }
        }
        let out: Vec<u8> = match self {
            DitherGenerator::Off => dither_from_noise(
                image,
                options.transparency_clip,
                palette,
                self,
            ),
            DitherGenerator::R2(_) => dither_from_noise(
                image,
                options.transparency_clip,
                palette,
                self,
            ),
            DitherGenerator::Pcg(_) => dither_from_noise(
                image,
                options.transparency_clip,
                palette,
                self,
            ),
            DitherGenerator::FloydSteinberg => dither_from_error_diffusion(
                image,
                options.transparency_clip,
                palette,
                &DiffusionKernel::FloydSteinberg,
            ),
            DitherGenerator::JavisJudiceNinke => dither_from_error_diffusion(
                image,
                options.transparency_clip,
                palette,
                &DiffusionKernel::JavisJudiceNinke,
            ),
            DitherGenerator::Stucki => dither_from_error_diffusion(
                image,
                options.transparency_clip,
                palette,
                &DiffusionKernel::Stucki,
            ),
            DitherGenerator::Atkinson => dither_from_error_diffusion(
                image,
                options.transparency_clip,
                palette,
                &DiffusionKernel::Atkinson,
            ),
            DitherGenerator::Burkes => dither_from_error_diffusion(
                image,
                options.transparency_clip,
                palette,
                &DiffusionKernel::Burkes,
            ),
            DitherGenerator::Sierra => dither_from_error_diffusion(
                image,
                options.transparency_clip,
                palette,
                &DiffusionKernel::Sierra,
            ),
            DitherGenerator::TwoRowSierra => dither_from_error_diffusion(
                image,
                options.transparency_clip,
                palette,
                &DiffusionKernel::TwoRowSierra,
            ),
            DitherGenerator::SierraLite => dither_from_error_diffusion(
                image,
                options.transparency_clip,
                palette,
                &DiffusionKernel::SierraLite,
            ),
        };
        proof {
            if self.is_noise_strategy() {
                assert(out@ =~= spec_dither(
                    self,
                    image.pixels@,
                    image.width as int,
                    image.height as int,
                    options.transparency_clip as int,
                    palette@,
                ));
            }
        }
        Ok(out)
    }
}

/// What a conversion produces: one byte per pixel, row-major; the noise
/// strategies decide each pixel independently, the diffusion strategies run
/// the sequential recurrence.
pub open spec fn spec_dither(
    gen: &DitherGenerator,
    pixels: Seq<Rgba>,
    w: int,
    h: int,
    clip: int,
    pal: Seq<Rgb>,
) -> Seq<u8> {
    if gen.is_noise_strategy() {
        Seq::new(pixels.len(), |i: int| noise_pixel(pal, pixels[i], clip, gen.spec_sample(i)) as u8)
    } else {
        spec_diffuse(pal, gen.spec_kernel(), clip, pixels, w, h)
    }
}

/// Runs a noise strategy over the image: each pixel decided independently
/// from read-only state, in index order.
fn dither_from_noise(
    image: &ImageBuffer,
    clip: i64,
    palette: &Palette,
    gen: &DitherGenerator,
) -> (r: Vec<u8>)
    requires
        image.wf(),
        palette.wf(),
        gen.wf(),
        gen.is_noise_strategy(),
        gen matches DitherGenerator::Pcg(g) ==> g@.len() >= image.pixels@.len(),
    ensures
        r@.len() == image.pixels@.len(),
        forall|i: int|
            0 <= i < r@.len() ==> r@[i] == noise_pixel(
                palette@,
                image.pixels@[i],
                clip as int,
                gen.spec_sample(i),
            ) as u8,
{
    let n: usize = image.pixels.len();
    let mut out: Vec<u8> = Vec::new();
    let mut i: usize = 0;
    while i < n
        invariant
            0 <= i <= n,
            image.wf(),
            palette.wf(),
            gen.wf(),
            gen.is_noise_strategy(),
            gen matches DitherGenerator::Pcg(g) ==> g@.len() >= image.pixels@.len(),
            n == image.pixels@.len(),
            out@.len() == i,
            forall|j: int|
                0 <= j < i ==> out@[j] == noise_pixel(
                    palette@,
                    image.pixels@[j],
                    clip as int,
                    gen.spec_sample(j),
                ) as u8,
        decreases n - i,
    {
        let p: Rgba = image.pixels[i];
        proof {
            assert(chan_in_range(image.pixels@[i as int]));
        }
        if clipped(&p, clip) {
            out.push(TRANSPARENT_INDEX as u8);
        } else {
            let sample: Rgba = match gen {
                DitherGenerator::R2(g) => g.get(i),
                DitherGenerator::Pcg(g) => match g.get(i) {
                    Ok(s) => s,
                    Err(_) => vstd::pervasive::unreached(),
                },
                _ => Rgba { r: 0, g: 0, b: 0, a: 0 },
            };
            proof {
                match gen {
                    DitherGenerator::R2(g) => lemma_r2_sample_range(g.seed_spec(), i as int),
                    DitherGenerator::Pcg(g) => assert(noise_in_range(g@[i as int])),
                    _ => (),
                }
                assert(sample == gen.spec_sample(i as int));
            }
            let pr: i64 = perturb(p.r, sample.r);
            let pg: i64 = perturb(p.g, sample.g);
            let pb: i64 = perturb(p.b, sample.b);
            let idx: usize = quantize_fx(palette, pr, pg, pb);
            out.push(idx as u8);
        }
        i = i + 1;
    }
    out
}

} // verus!
