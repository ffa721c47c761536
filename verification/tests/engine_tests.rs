use bgftool::buffer::ImageBuffer;
use bgftool::data::{BitmapData, BitmapDataCompression};
use bgftool::engine::{BitmapImageOptions, DitherGenerator, DitherOptions};
use bgftool::error::DitherError;
use bgftool::fx::{Rgba, ONE};
use bgftool::palette::Palette;

fn opaque(r: i64, g: i64, b: i64) -> Rgba {
    Rgba { r, g, b, a: ONE }
}

fn options(clip: i64) -> BitmapImageOptions {
    BitmapImageOptions {
        compression: BitmapDataCompression::Uncompressed,
        transparency_clip: clip,
        dither: DitherOptions::Off,
    }
}

fn image(width: usize, height: usize, pixels: Vec<Rgba>) -> ImageBuffer {
    ImageBuffer::new(width, height, pixels).unwrap()
}

fn all_generators() -> Vec<DitherGenerator> {
    vec![
        DitherGenerator::new_none(),
        DitherGenerator::new_r2(0),
        DitherGenerator::new_pcg(0, 64),
        DitherGenerator::new_floyd_steinberg(),
        DitherGenerator::new_javis_judice_ninke(),
        DitherGenerator::new_stucki(),
        DitherGenerator::new_atkinson(),
        DitherGenerator::new_burkes(),
        DitherGenerator::new_sierra(),
        DitherGenerator::new_two_row_sierra(),
        DitherGenerator::new_sierra_lite(),
    ]
}

#[test]
fn two_by_two_black_plain_strategy() {
    let palette = Palette::new();
    let black = opaque(0, 0, 0);
    let img = image(2, 2, vec![black, black, black, black]);
    let out = DitherGenerator::new_none().dither(&img, &options(ONE / 2), &palette).unwrap();
    assert_eq!(out, vec![0, 0, 0, 0]);
}

#[test]
fn output_length_is_pixel_count_for_every_strategy() {
    let palette = Palette::new();
    let pixels: Vec<Rgba> = (0..12).map(|i| opaque(i * 5000, 40000, 65536 - i * 5000)).collect();
    let img = image(4, 3, pixels);
    for generator in all_generators() {
        let out = generator.dither(&img, &options(ONE / 2), &palette).unwrap();
        assert_eq!(out.len(), 12);
    }
}

#[test]
fn degenerate_image_yields_empty_buffer() {
    let palette = Palette::new();
    let img = image(0, 7, Vec::new());
    for generator in all_generators() {
        let out = generator.dither(&img, &options(ONE / 2), &palette).unwrap();
        assert!(out.is_empty());
    }
}

#[test]
fn transparent_alpha_maps_to_254_for_every_strategy() {
    let palette = Palette::new();
    let faint = Rgba { r: 30000, g: 30000, b: 30000, a: ONE / 4 };
    let solid = opaque(30000, 30000, 30000);
    let img = image(2, 1, vec![faint, solid]);
    for generator in all_generators() {
        let out = generator.dither(&img, &options(ONE / 2), &palette).unwrap();
        assert_eq!(out[0], 254);
        assert_ne!(out[1], 254);
    }
}

#[test]
fn marker_color_maps_to_254() {
    let palette = Palette::new();
    let marker = opaque(0, ONE, ONE);
    let img = image(1, 1, vec![marker]);
    for generator in [DitherGenerator::new_none(), DitherGenerator::new_floyd_steinberg()] {
        let out = generator.dither(&img, &options(0), &palette).unwrap();
        assert_eq!(out, vec![254]);
    }
}

#[test]
fn single_pixel_image_under_every_diffusion_kernel() {
    let palette = Palette::new();
    let gray = opaque(32768, 32768, 32768);
    let img = image(1, 1, vec![gray]);
    let expected = palette.index_of(&bgftool::palette::Rgb { r: 127, g: 127, b: 127 });
    for generator in all_generators() {
        let out = generator.dither(&img, &options(ONE / 2), &palette).unwrap();
        assert_eq!(out.len(), 1);
        if !matches!(
            generator,
            DitherGenerator::R2(_) | DitherGenerator::Pcg(_)
        ) {
            assert_eq!(out[0] as usize, expected);
        }
    }
}

#[test]
fn pcg_with_too_few_samples_is_a_configuration_error() {
    let palette = Palette::new();
    let pixels: Vec<Rgba> = (0..4).map(|_| opaque(0, 0, 0)).collect();
    let img = image(2, 2, pixels);
    let generator = DitherGenerator::new_pcg(0, 3);
    let result = generator.dither(&img, &options(ONE / 2), &palette);
    assert_eq!(result, Err(DitherError::ConfigurationError));
    assert_eq!(
        DitherError::ConfigurationError.message(),
        "noise sample table is smaller than the image"
    );
}

#[test]
fn r2_identical_seeds_identical_output() {
    let palette = Palette::new();
    let pixels: Vec<Rgba> = (0..30).map(|i| opaque(i * 2000, 30000, 60000 - i * 2000)).collect();
    let img = image(6, 5, pixels);
    let a = DitherGenerator::new_r2(12345).dither(&img, &options(ONE / 2), &palette).unwrap();
    let b = DitherGenerator::new_r2(12345).dither(&img, &options(ONE / 2), &palette).unwrap();
    assert_eq!(a, b);
}

#[test]
fn pcg_identical_seeds_identical_output() {
    let palette = Palette::new();
    let pixels: Vec<Rgba> = (0..30).map(|i| opaque(i * 2000, 30000, 60000 - i * 2000)).collect();
    let img = image(6, 5, pixels);
    let a = DitherGenerator::new_pcg(99, 30).dither(&img, &options(ONE / 2), &palette).unwrap();
    let b = DitherGenerator::new_pcg(99, 30).dither(&img, &options(ONE / 2), &palette).unwrap();
    assert_eq!(a, b);
    let c = DitherGenerator::new_pcg(100, 30).dither(&img, &options(ONE / 2), &palette).unwrap();
    assert_ne!(a, c);
}

#[test]
fn palette_color_image_is_idempotent_under_plain_strategy() {
    let palette = Palette::new();
    // Entries 16..32 are a run of distinct colors, each first at its index.
    let colors: Vec<bgftool::palette::Rgb> = (16..32).map(|i| palette.values()[i]).collect();
    let pixels: Vec<Rgba> = colors
        .iter()
        .map(|c| {
            opaque(
                bgftool::fx::fx_from_byte(c.r),
                bgftool::fx::fx_from_byte(c.g),
                bgftool::fx::fx_from_byte(c.b),
            )
        })
        .collect();
    let img = image(4, 4, pixels);
    let out = DitherGenerator::new_none().dither(&img, &options(ONE / 2), &palette).unwrap();
    let expected: Vec<u8> = (16..32).map(|i| i as u8).collect();
    assert_eq!(out, expected);
}

#[test]
fn diffusion_spreads_error_to_later_pixels() {
    let palette = Palette::new();
    // A color midway between palette grays: without diffusion every pixel
    // quantizes alike; with Floyd–Steinberg the propagated error changes at
    // least one later pixel.
    let c = opaque(47000, 47000, 47000);
    let pixels: Vec<Rgba> = (0..16).map(|_| c).collect();
    let img = image(4, 4, pixels);
    let plain = DitherGenerator::new_none().dither(&img, &options(ONE / 2), &palette).unwrap();
    let dithered =
        DitherGenerator::new_floyd_steinberg().dither(&img, &options(ONE / 2), &palette).unwrap();
    assert_eq!(plain.len(), dithered.len());
    assert!(plain.iter().all(|&v| v == plain[0]));
    assert_ne!(plain, dithered);
}

#[test]
fn diffusion_on_exact_palette_colors_leaves_no_error() {
    let palette = Palette::new();
    // Opaque pixels that hold palette colors exactly produce zero
    // quantization error, so every kernel gives the plain result.
    let colors = [16usize, 48, 96, 112];
    let pixels: Vec<Rgba> = colors
        .iter()
        .map(|&i| {
            let c = palette.values()[i];
            opaque(
                bgftool::fx::fx_from_byte(c.r),
                bgftool::fx::fx_from_byte(c.g),
                bgftool::fx::fx_from_byte(c.b),
            )
        })
        .collect();
    let img = image(2, 2, pixels);
    let expected: Vec<u8> = colors.iter().map(|&i| i as u8).collect();
    for generator in all_generators() {
        if matches!(generator, DitherGenerator::R2(_) | DitherGenerator::Pcg(_)) {
            continue;
        }
        let out = generator.dither(&img, &options(ONE / 2), &palette).unwrap();
        assert_eq!(out, expected);
    }
}

#[test]
fn image_buffer_rejects_bad_inputs() {
    assert!(ImageBuffer::new(2, 2, vec![opaque(0, 0, 0); 3]).is_none());
    assert!(ImageBuffer::new(1, 1, vec![Rgba { r: -1, g: 0, b: 0, a: ONE }]).is_none());
    assert!(ImageBuffer::new(1, 1, vec![Rgba { r: 0, g: 0, b: ONE + 1, a: ONE }]).is_none());
    assert!(ImageBuffer::new(1, 1, vec![opaque(0, 0, 0)]).is_some());
    assert_eq!(
        DitherError::InvalidColorValue.message(),
        "color channel is not a finite value"
    );
}

#[test]
fn bitmap_data_round_trips() {
    let buf: Vec<u8> = (0..200u8).cycle().take(5000).collect();
    let plain = BitmapData::encode(buf.clone(), &BitmapDataCompression::Uncompressed);
    assert_eq!(plain.decode().unwrap(), buf);
    let packed = BitmapData::encode(buf.clone(), &BitmapDataCompression::ZlibCompressed);
    match &packed {
        BitmapData::ZlibCompressed(stream) => {
            // Compression really ran: the stored stream is not the input.
            assert_ne!(stream, &buf);
            assert!(stream.len() < buf.len());
        }
        BitmapData::Uncompressed(_) => panic!("expected a zlib stream"),
    }
    assert_eq!(packed.decode().unwrap(), buf);
}

#[test]
fn damaged_zlib_stream_is_refused() {
    let bogus = BitmapData::ZlibCompressed(vec![1, 2, 3, 4, 5]);
    assert!(bogus.decode().is_none());
}

#[test]
fn defaults() {
    assert!(matches!(DitherOptions::default(), DitherOptions::Off));
    assert!(matches!(
        BitmapDataCompression::default(),
        BitmapDataCompression::Uncompressed
    ));
}
