use bgftool::fx::{byte_from_fx, fx_from_byte, Rgba, ONE};
use bgftool::kernel::DiffusionKernel;
use bgftool::palette::{Palette, Rgb, TRANSPARENT_INDEX};

#[test]
fn byte_fx_round_trip_all_bytes() {
    let mut b: u16 = 0;
    while b <= 255 {
        let v = fx_from_byte(b as u8);
        assert!(0 <= v && v <= ONE);
        assert_eq!(byte_from_fx(v), b as u8);
        b += 1;
    }
}

#[test]
fn fx_extremes() {
    assert_eq!(fx_from_byte(0), 0);
    assert_eq!(fx_from_byte(255), ONE);
    assert_eq!(byte_from_fx(-5), 0);
    assert_eq!(byte_from_fx(ONE + 17), 255);
}

#[test]
fn palette_has_256_entries() {
    let palette = Palette::new();
    assert_eq!(palette.values().len(), 256);
    assert_eq!(palette.values()[0], Rgb { r: 0, g: 0, b: 0 });
    assert_eq!(palette.values()[254], Rgb { r: 0, g: 255, b: 255 });
}

#[test]
fn transparent_color_is_fixed() {
    let palette = Palette::new();
    let (idx, color) = palette.transparent_color();
    assert_eq!(idx, 254);
    assert_eq!(idx, TRANSPARENT_INDEX);
    assert_eq!(color, Rgb { r: 0, g: 255, b: 255 });
}

#[test]
fn find_closest_exact_match() {
    let palette = Palette::new();
    let (idx, color) = palette.find_closest(&Rgb { r: 0, g: 0, b: 0 });
    assert_eq!(idx, 0);
    assert_eq!(color, Rgb { r: 0, g: 0, b: 0 });
    // Entry 16 is the first (194, 1, 1); an exact query returns it.
    let (idx16, _) = palette.find_closest(&Rgb { r: 194, g: 1, b: 1 });
    assert_eq!(idx16, 16);
}

#[test]
fn find_closest_white_is_last_entry() {
    let palette = Palette::new();
    let (idx, color) = palette.find_closest(&Rgb { r: 255, g: 255, b: 255 });
    assert_eq!(idx, 255);
    assert_eq!(color, Rgb { r: 255, g: 255, b: 255 });
}

#[test]
fn repeated_construction_gives_the_identical_table() {
    let a = Palette::new();
    let b = Palette::new();
    assert_eq!(a.values(), b.values());
}

#[test]
fn find_closest_tie_breaks_to_lowest_index() {
    let palette = Palette::new();
    // (128, 0, 0) appears at several indices; the lowest one wins.
    let (idx, _) = palette.find_closest(&Rgb { r: 128, g: 0, b: 0 });
    assert_eq!(idx, 1);
}

#[test]
fn find_closest_never_returns_transparent_slot() {
    let palette = Palette::new();
    // The stored color at the transparent slot matches the query exactly,
    // yet the slot is excluded from the search.
    let (idx, _) = palette.find_closest(&Rgb { r: 0, g: 255, b: 255 });
    assert_ne!(idx, 254);
}

#[test]
fn index_of_and_map_color_agree_with_find_closest() {
    let palette = Palette::new();
    let query = Rgb { r: 100, g: 150, b: 200 };
    let (idx, color) = palette.find_closest(&query);
    assert_eq!(palette.index_of(&query), idx);
    let mut mapped = query;
    palette.map_color(&mut mapped);
    assert_eq!(mapped, color);
}

#[test]
fn kernel_weights_sum_to_denominator() {
    let kernels = [
        DiffusionKernel::FloydSteinberg,
        DiffusionKernel::JavisJudiceNinke,
        DiffusionKernel::Stucki,
        DiffusionKernel::Burkes,
        DiffusionKernel::Sierra,
        DiffusionKernel::TwoRowSierra,
        DiffusionKernel::SierraLite,
    ];
    for kernel in kernels {
        let total: u64 = kernel.entries().iter().map(|e| e.num).sum();
        assert_eq!(total, kernel.den());
    }
}

#[test]
fn atkinson_diffuses_six_eighths() {
    let kernel = DiffusionKernel::Atkinson;
    let total: u64 = kernel.entries().iter().map(|e| e.num).sum();
    assert_eq!(total, 6);
    assert_eq!(kernel.den(), 8);
}

#[test]
fn floyd_steinberg_table_is_exact() {
    let entries = DiffusionKernel::FloydSteinberg.entries();
    let listed: Vec<(u64, i64, i64)> = entries.iter().map(|e| (e.num, e.dx, e.dy)).collect();
    assert_eq!(listed, vec![(7, 1, 0), (3, -1, 1), (5, 0, 1), (1, 1, 1)]);
    assert_eq!(DiffusionKernel::FloydSteinberg.den(), 16);
}

#[test]
fn noise_samples_are_in_range() {
    let r2 = bgftool::noise::R2BlueNoiseGenerator::new(0);
    for index in 0..1000usize {
        let s: Rgba = r2.get(index);
        assert!(-ONE <= s.r && s.r < ONE);
        assert!(-ONE <= s.g && s.g < ONE);
        assert!(-ONE <= s.b && s.b < ONE);
        assert!(0 <= s.a && s.a < ONE);
    }
    let pcg = bgftool::noise::PcgNoiseGenerator::new(7, 1000);
    assert_eq!(pcg.sample_count(), 1000);
    for index in 0..1000usize {
        let s: Rgba = pcg.get(index).unwrap();
        assert!(-ONE <= s.r && s.r < ONE);
        assert!(-ONE <= s.g && s.g < ONE);
        assert!(-ONE <= s.b && s.b < ONE);
        assert!(0 <= s.a && s.a < ONE);
    }
}

#[test]
fn r2_first_samples_are_exact() {
    // The fixed-point iteration settles on the base constant 76500/65536
    // (the positive root of (1+x)^(1/5) = x at this scale), whose reciprocal
    // powers give the four step constants 56143, 48096, 41202, 35296.
    // With seed 0, the sample at index 0 is those constants themselves,
    // RGB rescaled to [-ONE, ONE).
    let r2 = bgftool::noise::R2BlueNoiseGenerator::new(0);
    assert_eq!(r2.get(0), Rgba { r: 46750, g: 30656, b: 16868, a: 35296 });
    assert_eq!(r2.get(1), Rgba { r: 27964, g: -4224, b: -31800, a: 5056 });
}

#[test]
fn r2_sequence_is_not_constant() {
    let r2 = bgftool::noise::R2BlueNoiseGenerator::new(0);
    let first = r2.get(0);
    let second = r2.get(1);
    assert_ne!(first, second);
}

#[test]
fn pcg_get_out_of_range_is_refused() {
    let pcg = bgftool::noise::PcgNoiseGenerator::new(1, 4);
    assert!(pcg.get(3).is_ok());
    assert_eq!(pcg.get(4), Err(bgftool::error::DitherError::IndexOutOfRange));
    assert_eq!(
        bgftool::error::DitherError::IndexOutOfRange.message(),
        "noise sample index is out of range"
    );
}

#[test]
fn pcg_stream_is_not_the_seed_repeated() {
    // Different seeds give different sample tables, and one table is not a
    // single value repeated — this would fail if the generator ignored its
    // seed or handed constants back.
    let a = bgftool::noise::PcgNoiseGenerator::new(1, 64);
    let b = bgftool::noise::PcgNoiseGenerator::new(2, 64);
    let first_a: Vec<Rgba> = (0..64).map(|i| a.get(i).unwrap()).collect();
    let first_b: Vec<Rgba> = (0..64).map(|i| b.get(i).unwrap()).collect();
    assert_ne!(first_a, first_b);
    assert!(first_a.iter().any(|s| *s != first_a[0]));
}
