//! The fixed 256-entry color table and its nearest-color lookup.
//!
//! Lookup minimizes squared Euclidean distance in RGB space, never returns
//! the transparent slot, and breaks ties by choosing the lowest index, so a
//! lookup is a pure function of the color — safe to run from any number of
//! workers.

use vstd::prelude::*;

verus! {

/// One palette color with byte channels.
#[derive(Clone, Copy, Debug, PartialEq, Eq, Structural)]
pub struct Rgb {
    pub r: u8,
    pub g: u8,
    pub b: u8,
}

/// Index of the palette slot that stands for transparency; it is never
/// returned by nearest-color lookup.
pub const TRANSPARENT_INDEX: usize = 254;

/// The fixed marker color that forces a pixel to the transparent slot when a
/// source color matches it exactly. It is a constant of the format, compared
/// against independently of what the table stores at the transparent slot.
pub open spec fn transparent_marker() -> Rgb {
    Rgb { r: 0, g: 255, b: 255 }
}

/// Squared Euclidean distance between two byte colors. Squaring preserves
/// the ordering of distances, so no square root is taken.
pub open spec fn dist2(a: Rgb, c: Rgb) -> int {
    (a.r - c.r) * (a.r - c.r) + (a.g - c.g) * (a.g - c.g) + (a.b - c.b) * (a.b - c.b)
}

/// Index of the entry of `pal` closest to `c` among indices below `n`,
/// skipping the transparent slot, ties going to the lowest index.
pub open spec fn closest_upto(pal: Seq<Rgb>, c: Rgb, n: int) -> int
    decreases n,
{
    if n <= 1 {
        0
    } else {
        let prev = closest_upto(pal, c, n - 1);
        if n - 1 == TRANSPARENT_INDEX {
            prev
        } else if dist2(pal[n - 1], c) < dist2(pal[prev], c) {
            n - 1
        } else {
            prev
        }
    }
}

/// Index of the palette entry closest to `c`: the lowest index, other than
/// the transparent slot, at minimal squared distance.
pub open spec fn closest_index(pal: Seq<Rgb>, c: Rgb) -> int {
    closest_upto(pal, c, 256)
}

/// `closest_upto` returns an in-range, non-transparent index at minimal
/// distance, and every lower non-transparent index is strictly farther.
pub proof fn lemma_closest_upto_minimal(pal: Seq<Rgb>, c: Rgb, n: int)
    requires
        1 <= n,
    ensures
        0 <= closest_upto(pal, c, n) < n,
        closest_upto(pal, c, n) != TRANSPARENT_INDEX,
        forall|j: int|
            0 <= j < n && j != TRANSPARENT_INDEX ==> #[trigger] dist2(pal[j], c) >= dist2(
                pal[closest_upto(pal, c, n)],
                c,
            ),
        forall|j: int|
            0 <= j < closest_upto(pal, c, n) && j != TRANSPARENT_INDEX ==> #[trigger] dist2(
                pal[j],
                c,
            ) > dist2(pal[closest_upto(pal, c, n)], c),
    decreases n,
{
    if n > 1 {
        lemma_closest_upto_minimal(pal, c, n - 1);
    }
}

/// The fixed color table, one entry per slot, each packed as 0xRRGGBB.
pub const PALETTE_PACKED: [u32; 256] = [
    0x000000, 0x800000, 0x008000, 0x808000, 0x000080, 0x800080, 0x008080, 0xc0c0c0,
    0x800000, 0x008000, 0x800000, 0x008000, 0x800000, 0x008000, 0x800000, 0x008000,
    0xc20101, 0xb40101, 0xab0202, 0xa60101, 0x9a0202, 0x910200, 0x890200, 0x7f0000,
    0x780200, 0x6d0100, 0x560000, 0x4c0000, 0x400000, 0x380000, 0x260000, 0x110000,
    0xfec294, 0xebb892, 0xdba983, 0xcb9d7c, 0xc69475, 0xb58769, 0xb18866, 0xa88060,
    0x9d7356, 0x916b51, 0x886048, 0x7a5844, 0x755440, 0x684d3b, 0x604631, 0x4a3b2d,
    0xffb580, 0xf3a872, 0xdc9968, 0xca8d61, 0xc48257, 0xb97a51, 0xab7347, 0xa56e44,
    0x935c36, 0x855231, 0x7b4626, 0x6b3d22, 0x63381c, 0x552f18, 0x4b280d, 0x321c0b,
    0xb95f2b, 0x91461a, 0x833f18, 0x793b16, 0x773412, 0x722f10, 0x69300c, 0x662d0c,
    0x5e250c, 0x54220c, 0x4b1b0b, 0x41190b, 0x3c170b, 0x33140b, 0x2a140b, 0x1b0f0a,
    0xffb233, 0xffa91b, 0xffa511, 0xfa9c00, 0xee9400, 0xd88700, 0xcc7f00, 0xc27900,
    0xaa6a00, 0xa06400, 0x885500, 0x7e4f00, 0x684100, 0x5c3900, 0x442a00, 0x301e00,
    0x89b174, 0x82a96e, 0x78a164, 0x70955c, 0x678b53, 0x5f814c, 0x587c49, 0x507042,
    0x476537, 0x3e5a31, 0x304f26, 0x29441f, 0x253e16, 0x1c3010, 0x101e08, 0x070e03,
    0x00c432, 0x00b82f, 0x00aa2b, 0x009e27, 0x009a27, 0x008c24, 0x008a23, 0x007e20,
    0x00721d, 0x006219, 0x005014, 0x004511, 0x003e10, 0x00300c, 0x001a07, 0x000e04,
    0xabd5de, 0xa5ced7, 0x89bcc5, 0x7facb3, 0x709aa3, 0x6a919a, 0x4e8189, 0x48757d,
    0x345f67, 0x2e555d, 0x1b464e, 0x173d46, 0x0a343d, 0x062930, 0x031b21, 0x00090b,
    0x344ede, 0x324ad3, 0x2b3ec7, 0x2a3abc, 0x2434ab, 0x2230a1, 0x1b2c92, 0x172684,
    0x0a1b78, 0x08186b, 0x021256, 0x010f4b, 0x000a46, 0x00073b, 0x000329, 0x000018,
    0xa042c2, 0x993fb9, 0x9438b2, 0x862ea2, 0x7a2ca1, 0x6e2893, 0x66248b, 0x5e2081,
    0x56186f, 0x4e1263, 0x3f0355, 0x36004c, 0x2d003e, 0x21002f, 0x170020, 0x0a0010,
    0xf4f0ce, 0xede7b0, 0xebe4a3, 0xe5dc89, 0xd8d7f6, 0xbbbaf0, 0xafaded, 0x9491e7,
    0x9ce99c, 0x84e484, 0x5ad75a, 0x28b828, 0xf2c5c5, 0xe89898, 0xe17777, 0xdc6262,
    0xffea6e, 0xfade37, 0xf7d51b, 0xf0d019, 0xeeca1a, 0xdebd19, 0xdcc413, 0xcfb910,
    0xc5b40a, 0xb9a708, 0x9a8902, 0x877a00, 0x807300, 0x777100, 0x706a00, 0x555100,
    0xe7e7e7, 0xd5d5d5, 0xcdcdcd, 0xbcbcbc, 0xb4b4b4, 0xa3a3a3, 0x9a9a9a, 0x929292,
    0x818181, 0x787878, 0x676767, 0x5f5f5f, 0x4e4e4e, 0x464646, 0x343434, 0x242424,
    0x7cbfff, 0x67abef, 0x5fa3e7, 0x5f9ad5, 0x4e89c5, 0x4678ab, 0x3d70a3, 0x3c6b9a,
    0x345f89, 0x2c5277, 0x1b4167, 0x112f4d, 0x0a243d, 0x05182b, 0x010e1b, 0x000b16,
    0xe0b494, 0xd0b084, 0xcca87c, 0xc4a074, 0x800000, 0x008000, 0x800000, 0x008000,
    0x808080, 0xff0000, 0x00ff00, 0xffff00, 0x0000ff, 0xff00ff, 0x00ffff, 0xffffff,
];

/// The byte color a packed 0xRRGGBB table entry stands for.
pub open spec fn color_of_packed(v: u32) -> Rgb {
    Rgb { r: (v / 65536 % 256) as u8, g: (v / 256 % 256) as u8, b: (v % 256) as u8 }
}

/// The palette as a sequence of byte colors: the one fixed table every
/// `Palette` holds.
pub open spec fn spec_palette() -> Seq<Rgb> {
    Seq::new(256, |i: int| color_of_packed(PALETTE_PACKED@[i]))
}

/// The immutable 256-entry palette.
pub struct Palette {
    values: Vec<Rgb>,
}

impl View for Palette {
    type V = Seq<Rgb>;

    closed spec fn view(&self) -> Seq<Rgb> {
        self.values@
    }
}

impl Palette {
    /// The palette always holds exactly 256 entries.
    pub open spec fn wf(&self) -> bool {
        self@.len() == 256
    }

    /// Squared distance between two byte colors.
    pub fn distance2(a: &Rgb, c: &Rgb) -> (r: i64)
        ensures
            r == dist2(*a, *c),
    {
        let dr: i64 = a.r as i64 - c.r as i64;
        let dg: i64 = a.g as i64 - c.g as i64;
        let db: i64 = a.b as i64 - c.b as i64;
        proof {
            assert(0 <= dr * dr <= 65025 && 0 <= dg * dg <= 65025 && 0 <= db * db <= 65025)
                by (nonlinear_arith)
                requires
                    -255 <= dr <= 255,
                    -255 <= dg <= 255,
                    -255 <= db <= 255,
            ;
        }
        dr * dr + dg * dg + db * db
    }

    /// The fixed transparent slot: its index and the marker color. These are
    /// constants of the format, independent of the stored table entry.
    pub fn transparent_color(&self) -> (r: (usize, Rgb))
        ensures
            r.0 == TRANSPARENT_INDEX,
            r.1 == transparent_marker(),
    {
        (TRANSPARENT_INDEX, Rgb { r: 0, g: 255, b: 255 })
    }

    /// The color table itself.
    pub fn values(&self) -> (r: &Vec<Rgb>)
        ensures
            r@ == self@,
    {
        &self.values
    }

    /// The index and color of the palette entry nearest to `color`,
    /// excluding the transparent slot, ties going to the lowest index.
    pub fn find_closest(&self, color: &Rgb) -> (r: (usize, Rgb))
        requires
            self.wf(),
        ensures
            r.0 == closest_index(self@, *color),
            r.0 < 256,
            r.0 != TRANSPARENT_INDEX,
            r.1 == self@[r.0 as int],
            forall|j: int|
                0 <= j < 256 && j != TRANSPARENT_INDEX ==> #[trigger] dist2(self@[j], *color)
                    >= dist2(self@[r.0 as int], *color),
            forall|j: int|
                0 <= j < r.0 && j != TRANSPARENT_INDEX ==> #[trigger] dist2(self@[j], *color)
                    > dist2(self@[r.0 as int], *color),
    {
        let mut best: usize = 0;
        let mut best_d: i64 = Self::distance2(&self.values[0], color);
        let mut i: usize = 1;
        while i < 256
            invariant
                self.wf(),
                1 <= i <= 256,
                best == closest_upto(self@, *color, i as int),
                0 <= best < i,
                best != TRANSPARENT_INDEX,
                best_d == dist2(self@[best as int], *color),
            decreases 256 - i,
        {
            if i != TRANSPARENT_INDEX {
                let d: i64 = Self::distance2(&self.values[i], color);
                if d < best_d {
                    best = i;
                    best_d = d;
                }
            }
            i = i + 1;
        }
        proof {
            lemma_closest_upto_minimal(self@, *color, 256);
        }
        (best, self.values[best])
    }

    /// The index of the palette entry nearest to `color`.
    pub fn index_of(&self, color: &Rgb) -> (r: usize)
        requires
            self.wf(),
        ensures
            r == closest_index(self@, *color),
            r < 256,
            r != TRANSPARENT_INDEX,
    {
        let (index, _) = self.find_closest(color);
        index
    }

    /// Replaces `color` with the palette entry nearest to it.
    pub fn map_color(&self, color: &mut Rgb)
        requires
            self.wf(),
        ensures
            *final(color) == self@[closest_index(self@, *old(color))],
    {
        let (_, closest) = self.find_closest(color);
        *color = closest;
    }

    /// Builds the fixed table.
    pub fn new() -> (p: Palette)
        ensures
            p.wf(),
            p@ == spec_palette(),
    {
        let mut values: Vec<Rgb> = Vec::new();
        let mut i: usize = 0;
        while i < 256
            invariant
                0 <= i <= 256,
                values@.len() == i,
                forall|j: int| 0 <= j < i ==> values@[j] == spec_palette()[j],
            decreases 256 - i,
        {
            let packed: u32 = PALETTE_PACKED[i];
            values.push(
                Rgb {
                    r: (packed / 65536 % 256) as u8,
                    g: (packed / 256 % 256) as u8,
                    b: (packed % 256) as u8,
                },
            );
            i = i + 1;
        }
        proof {
            assert(values@ =~= spec_palette());
        }
        Palette { values }
    }
}

} // verus!
