//! The eight named error-diffusion kernels.
//!
//! Each kernel is a literal table of weighted relative offsets; a weight is
//! an exact fraction `num / den` with one common denominator per kernel, so
//! diffusing an error needs only integer arithmetic.

use vstd::prelude::*;

verus! {

/// One kernel entry: the numerator of its weight and the offset, relative to
/// the pixel being quantized, of the neighbor that receives the share.
#[derive(Clone, Copy, Debug, PartialEq, Eq, Structural)]
pub struct KernelEntry {
    pub num: u64,
    pub dx: i64,
    pub dy: i64,
}

/// The eight error-diffusion kernels.
#[derive(Clone, Copy, Debug, PartialEq, Eq, Structural)]
pub enum DiffusionKernel {
    FloydSteinberg,
    JavisJudiceNinke,
    Stucki,
    Atkinson,
    Burkes,
    Sierra,
    TwoRowSierra,
    SierraLite,
}

/// Sum of the weight numerators of a table.
pub open spec fn weight_sum(entries: Seq<KernelEntry>) -> int
    decreases entries.len(),
{
    if entries.len() == 0 {
        0
    } else {
        entries[0].num + weight_sum(entries.skip(1))
    }
}

impl DiffusionKernel {
    /// The common denominator of the kernel's weights.
    pub open spec fn spec_den(self) -> u64 {
        match self {
            DiffusionKernel::FloydSteinberg => 16,
            DiffusionKernel::JavisJudiceNinke => 48,
            DiffusionKernel::Stucki => 42,
            DiffusionKernel::Atkinson => 8,
            DiffusionKernel::Burkes => 32,
            DiffusionKernel::Sierra => 32,
            DiffusionKernel::TwoRowSierra => 16,
            DiffusionKernel::SierraLite => 4,
        }
    }

    /// The kernel's table of weighted offsets.
    pub open spec fn spec_entries(self) -> Seq<KernelEntry> {
        match self {
            DiffusionKernel::FloydSteinberg => seq![
                KernelEntry { num: 7, dx: 1, dy: 0 },
                KernelEntry { num: 3, dx: -1i64, dy: 1 },
                KernelEntry { num: 5, dx: 0, dy: 1 },
                KernelEntry { num: 1, dx: 1, dy: 1 },
            ],
            DiffusionKernel::JavisJudiceNinke => seq![
                KernelEntry { num: 7, dx: 1, dy: 0 },
                KernelEntry { num: 5, dx: 2, dy: 0 },
                KernelEntry { num: 3, dx: -2i64, dy: 1 },
                KernelEntry { num: 5, dx: -1i64, dy: 1 },
                KernelEntry { num: 7, dx: 0, dy: 1 },
                KernelEntry { num: 5, dx: 1, dy: 1 },
                KernelEntry { num: 3, dx: 2, dy: 1 },
                KernelEntry { num: 1, dx: -2i64, dy: 2 },
                KernelEntry { num: 3, dx: -1i64, dy: 2 },
                KernelEntry { num: 5, dx: 0, dy: 2 },
                KernelEntry { num: 3, dx: 1, dy: 2 },
                KernelEntry { num: 1, dx: 2, dy: 2 },
            ],
            DiffusionKernel::Stucki => seq![
                KernelEntry { num: 8, dx: 1, dy: 0 },
                KernelEntry { num: 4, dx: 2, dy: 0 },
                KernelEntry { num: 2, dx: -2i64, dy: 1 },
                KernelEntry { num: 4, dx: -1i64, dy: 1 },
                KernelEntry { num: 8, dx: 0, dy: 1 },
                KernelEntry { num: 4, dx: 1, dy: 1 },
                KernelEntry { num: 2, dx: 2, dy: 1 },
                KernelEntry { num: 1, dx: -2i64, dy: 2 },
                KernelEntry { num: 2, dx: -1i64, dy: 2 },
                KernelEntry { num: 4, dx: 0, dy: 2 },
                KernelEntry { num: 2, dx: 1, dy: 2 },
                KernelEntry { num: 1, dx: 2, dy: 2 },
            ],
            DiffusionKernel::Atkinson => seq![
                KernelEntry { num: 1, dx: 1, dy: 0 },
                KernelEntry { num: 1, dx: 2, dy: 0 },
                KernelEntry { num: 1, dx: -1i64, dy: 1 },
                KernelEntry { num: 1, dx: 0, dy: 1 },
                KernelEntry { num: 1, dx: 1, dy: 1 },
                KernelEntry { num: 1, dx: 0, dy: 2 },
            ],
            DiffusionKernel::Burkes => seq![
                KernelEntry { num: 8, dx: 1, dy: 0 },
                KernelEntry { num: 4, dx: 2, dy: 0 },
                KernelEntry { num: 2, dx: -2i64, dy: 1 },
                KernelEntry { num: 4, dx: -1i64, dy: 1 },
                KernelEntry { num: 8, dx: 0, dy: 1 },
                KernelEntry { num: 4, dx: 1, dy: 1 },
                KernelEntry { num: 2, dx: 2, dy: 1 },
            ],
            DiffusionKernel::Sierra => seq![
                KernelEntry { num: 5, dx: 1, dy: 0 },
                KernelEntry { num: 3, dx: 2, dy: 0 },
                KernelEntry { num: 2, dx: -2i64, dy: 1 },
                KernelEntry { num: 4, dx: -1i64, dy: 1 },
                KernelEntry { num: 5, dx: 0, dy: 1 },
                KernelEntry { num: 4, dx: 1, dy: 1 },
                KernelEntry { num: 2, dx: 2, dy: 1 },
                KernelEntry { num: 2, dx: -1i64, dy: 2 },
                KernelEntry { num: 3, dx: 0, dy: 2 },
                KernelEntry { num: 2, dx: 1, dy: 2 },
            ],
            // The two-row Sierra table hands both of its first two shares to
            // the right-hand neighbor at (1, 0); that is the table as this
            // format defines it.
            DiffusionKernel::TwoRowSierra => seq![
                KernelEntry { num: 4, dx: 1, dy: 0 },
                KernelEntry { num: 3, dx: 1, dy: 0 },
                KernelEntry { num: 1, dx: -2i64, dy: 1 },
                KernelEntry { num: 2, dx: -1i64, dy: 1 },
                KernelEntry { num: 3, dx: 0, dy: 1 },
                KernelEntry { num: 2, dx: 1, dy: 1 },
                KernelEntry { num: 1, dx: 2, dy: 1 },
            ],
            DiffusionKernel::SierraLite => seq![
                KernelEntry { num: 2, dx: 1, dy: 0 },
                KernelEntry { num: 1, dx: -1i64, dy: 1 },
                KernelEntry { num: 1, dx: 0, dy: 1 },
            ],
        }
    }

    /// The common denominator of the kernel's weights.
    pub fn den(&self) -> (r: u64)
        ensures
            r == self.spec_den(),
    {
        match self {
            DiffusionKernel::FloydSteinberg => 16,
            DiffusionKernel::JavisJudiceNinke => 48,
            DiffusionKernel::Stucki => 42,
            DiffusionKernel::Atkinson => 8,
            DiffusionKernel::Burkes => 32,
            DiffusionKernel::Sierra => 32,
            DiffusionKernel::TwoRowSierra => 16,
            DiffusionKernel::SierraLite => 4,
        }
    }

    /// The kernel's table of weighted offsets.
    pub fn entries(&self) -> (r: Vec<KernelEntry>)
        ensures
            r@ == self.spec_entries(),
    {
        let r: Vec<KernelEntry> = match self {
            DiffusionKernel::FloydSteinberg => vec![
                KernelEntry { num: 7, dx: 1, dy: 0 },
                KernelEntry { num: 3, dx: -1i64, dy: 1 },
                KernelEntry { num: 5, dx: 0, dy: 1 },
                KernelEntry { num: 1, dx: 1, dy: 1 },
            ],
            DiffusionKernel::JavisJudiceNinke => vec![
                KernelEntry { num: 7, dx: 1, dy: 0 },
                KernelEntry { num: 5, dx: 2, dy: 0 },
                KernelEntry { num: 3, dx: -2i64, dy: 1 },
                KernelEntry { num: 5, dx: -1i64, dy: 1 },
                KernelEntry { num: 7, dx: 0, dy: 1 },
                KernelEntry { num: 5, dx: 1, dy: 1 },
                KernelEntry { num: 3, dx: 2, dy: 1 },
                KernelEntry { num: 1, dx: -2i64, dy: 2 },
                KernelEntry { num: 3, dx: -1i64, dy: 2 },
                KernelEntry { num: 5, dx: 0, dy: 2 },
                KernelEntry { num: 3, dx: 1, dy: 2 },
                KernelEntry { num: 1, dx: 2, dy: 2 },
            ],
            DiffusionKernel::Stucki => vec![
                KernelEntry { num: 8, dx: 1, dy: 0 },
                KernelEntry { num: 4, dx: 2, dy: 0 },
                KernelEntry { num: 2, dx: -2i64, dy: 1 },
                KernelEntry { num: 4, dx: -1i64, dy: 1 },
                KernelEntry { num: 8, dx: 0, dy: 1 },
                KernelEntry { num: 4, dx: 1, dy: 1 },
                KernelEntry { num: 2, dx: 2, dy: 1 },
                KernelEntry { num: 1, dx: -2i64, dy: 2 },
                KernelEntry { num: 2, dx: -1i64, dy: 2 },
                KernelEntry { num: 4, dx: 0, dy: 2 },
                KernelEntry { num: 2, dx: 1, dy: 2 },
                KernelEntry { num: 1, dx: 2, dy: 2 },
            ],
            DiffusionKernel::Atkinson => vec![
                KernelEntry { num: 1, dx: 1, dy: 0 },
                KernelEntry { num: 1, dx: 2, dy: 0 },
                KernelEntry { num: 1, dx: -1i64, dy: 1 },
                KernelEntry { num: 1, dx: 0, dy: 1 },
                KernelEntry { num: 1, dx: 1, dy: 1 },
                KernelEntry { num: 1, dx: 0, dy: 2 },
            ],
            DiffusionKernel::Burkes => vec![
                KernelEntry { num: 8, dx: 1, dy: 0 },
                KernelEntry { num: 4, dx: 2, dy: 0 },
                KernelEntry { num: 2, dx: -2i64, dy: 1 },
                KernelEntry { num: 4, dx: -1i64, dy: 1 },
                KernelEntry { num: 8, dx: 0, dy: 1 },
                KernelEntry { num: 4, dx: 1, dy: 1 },
                KernelEntry { num: 2, dx: 2, dy: 1 },
            ],
            DiffusionKernel::Sierra => vec![
                KernelEntry { num: 5, dx: 1, dy: 0 },
                KernelEntry { num: 3, dx: 2, dy: 0 },
                KernelEntry { num: 2, dx: -2i64, dy: 1 },
                KernelEntry { num: 4, dx: -1i64, dy: 1 },
                KernelEntry { num: 5, dx: 0, dy: 1 },
                KernelEntry { num: 4, dx: 1, dy: 1 },
                KernelEntry { num: 2, dx: 2, dy: 1 },
                KernelEntry { num: 2, dx: -1i64, dy: 2 },
                KernelEntry { num: 3, dx: 0, dy: 2 },
                KernelEntry { num: 2, dx: 1, dy: 2 },
            ],
            DiffusionKernel::TwoRowSierra => vec![
                KernelEntry { num: 4, dx: 1, dy: 0 },
                KernelEntry { num: 3, dx: 1, dy: 0 },
                KernelEntry { num: 1, dx: -2i64, dy: 1 },
                KernelEntry { num: 2, dx: -1i64, dy: 1 },
                KernelEntry { num: 3, dx: 0, dy: 1 },
                KernelEntry { num: 2, dx: 1, dy: 1 },
                KernelEntry { num: 1, dx: 2, dy: 1 },
            ],
            DiffusionKernel::SierraLite => vec![
                KernelEntry { num: 2, dx: 1, dy: 0 },
                KernelEntry { num: 1, dx: -1i64, dy: 1 },
                KernelEntry { num: 1, dx: 0, dy: 1 },
            ],
        };
        proof {
            assert(r@ =~= self.spec_entries());
        }
        r
    }
}

/// The ranges every kernel entry stays within: offsets reach at most two
/// cells away, weight numerators are small.
pub open spec fn entry_ok(e: KernelEntry) -> bool {
    &&& -2 <= e.dx <= 2
    &&& 0 <= e.dy <= 2
    &&& 1 <= e.num <= 8
}

/// Every entry of every kernel stays within the `entry_ok` ranges, and the
/// denominators lie between 4 and 48.
pub proof fn lemma_entries_in_bounds(k: DiffusionKernel)
    ensures
        forall|i: int|
            0 <= i < k.spec_entries().len() ==> entry_ok(#[trigger] k.spec_entries()[i]),
        4 <= k.spec_den() <= 48,
{
    let s = k.spec_entries();
    assert forall|i: int| 0 <= i < s.len() implies entry_ok(#[trigger] s[i]) by {
        match k {
            DiffusionKernel::FloydSteinberg => {
                assert(s.len() == 4);
            },
            DiffusionKernel::JavisJudiceNinke => {
                assert(s.len() == 12);
            },
            DiffusionKernel::Stucki => {
                assert(s.len() == 12);
            },
            DiffusionKernel::Atkinson => {
                assert(s.len() == 6);
            },
            DiffusionKernel::Burkes => {
                assert(s.len() == 7);
            },
            DiffusionKernel::Sierra => {
                assert(s.len() == 10);
            },
            DiffusionKernel::TwoRowSierra => {
                assert(s.len() == 7);
            },
            DiffusionKernel::SierraLite => {
                assert(s.len() == 3);
            },
        }
    }
}

/// Weight conservation: for every kernel but Atkinson's, the listed weights
/// sum to the kernel's denominator, so the whole quantization error of a
/// pixel is handed on to its neighbors.
pub proof fn lemma_kernel_weight_conservation(k: DiffusionKernel)
    requires
        k != DiffusionKernel::Atkinson,
    ensures
        weight_sum(k.spec_entries()) == k.spec_den(),
{
    reveal_with_fuel(weight_sum, 13);
}

/// Atkinson's kernel deliberately diffuses only six eighths of the error.
pub proof fn lemma_atkinson_weight_sum()
    ensures
        weight_sum(DiffusionKernel::Atkinson.spec_entries()) == 6,
        DiffusionKernel::Atkinson.spec_den() == 8,
{
    reveal_with_fuel(weight_sum, 13);
}

} // verus!
