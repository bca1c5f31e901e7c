use vstd::prelude::*;

verus! {

/// Fixed-point unit of a noise value: `NOISE_ONE` stands for 1.0, so a
/// coherent-noise value in [-1, 1] arrives as an integer in
/// `[-NOISE_ONE, NOISE_ONE]`.
pub const NOISE_ONE: i64 = 65536;

/// Where a column's terrain surface sits and how bright its pixels are.
#[derive(Clone, Copy, Debug, PartialEq, Eq, Structural)]
pub struct Sample {
    /// Row of the surface pixel, in `[0, viewport_height)`.
    pub row: u32,
    /// Gray level of every pixel the column fills.
    pub color: u8,
}

/// The surface row for a noise value `n` (in units of `1 / NOISE_ONE`) in a
/// viewport `h` rows tall: the floor of `n * (h / 2) + h / 2`, kept inside
/// `[0, h - 1]`.
pub open spec fn sample_row(n: int, h: int) -> int {
    if n <= -NOISE_ONE {
        0
    } else if n >= NOISE_ONE {
        h - 1
    } else {
        ((n + NOISE_ONE) * h) / (2 * NOISE_ONE)
    }
}

/// The gray level for a noise value `n` in a viewport `h` rows tall: the floor
/// of `height / h * 255`, where `height` is the unclamped surface height
/// `n * (h / 2) + h / 2`, or `h - 1` where that reaches `h`.
pub open spec fn sample_color(n: int, h: int) -> int {
    if n <= -NOISE_ONE {
        0
    } else if n >= NOISE_ONE {
        (255 * (h - 1)) / h
    } else {
        ((n + NOISE_ONE) * 255) / (2 * NOISE_ONE)
    }
}

/// The exact value of `sample` on a noise value and a viewport height.
pub open spec fn sample_spec(n: int, h: int) -> Sample {
    Sample { row: sample_row(n, h) as u32, color: sample_color(n, h) as u8 }
}

/// Maps a noise value to the surface row and gray level of its column.
pub fn sample(noise: i64, viewport_height: u32) -> (r: Sample)
    requires
        viewport_height > 0,
    ensures
        r == sample_spec(noise as int, viewport_height as int),
        r.row as int == sample_row(noise as int, viewport_height as int),
        r.color as int == sample_color(noise as int, viewport_height as int),
        r.row < viewport_height,
{
    let h = viewport_height as u64;
    if noise <= -NOISE_ONE {
        Sample { row: 0, color: 0 }
    } else if noise >= NOISE_ONE {
        let c = (255 * (h - 1)) / h;
        assert((255 * (h as int - 1)) / (h as int) <= 255) by (nonlinear_arith)
            requires h > 0;
        Sample { row: viewport_height - 1, color: c as u8 }
    } else {
        let shifted = (noise + NOISE_ONE) as u64;
        assert((shifted as int) * (h as int) < 2 * 65536 * (h as int) <= 2 * 65536 * 0xffff_ffff)
            by (nonlinear_arith)
            requires shifted < 2 * 65536, 0 < h <= 0xffff_ffff;
        let row = (shifted * h) / (2 * NOISE_ONE as u64);
        assert(((shifted as int) * (h as int)) / 131072int < h as int) by (nonlinear_arith)
            requires (shifted as int) * (h as int) < 2 * 65536 * (h as int);
        let c = (shifted * 255) / (2 * NOISE_ONE as u64);
        assert(((shifted as int) * 255) / 131072int <= 255) by (nonlinear_arith)
            requires shifted < 2 * 65536;
        Sample { row: row as u32, color: c as u8 }
    }
}

/// The sampler is a function of its inputs: two results for the same noise
/// value and viewport height are the same, and both lie inside the viewport.
pub proof fn lemma_sample_deterministic(first: Sample, second: Sample, n: int, h: int)
    requires
        h > 0,
        first == sample_spec(n, h),
        second == sample_spec(n, h),
    ensures
        first == second,
        0 <= first.row < h,
{
    if -NOISE_ONE < n < NOISE_ONE {
        assert(((n + NOISE_ONE) * h) / (2 * NOISE_ONE) < h) by (nonlinear_arith)
            requires -NOISE_ONE < n < NOISE_ONE, h > 0, NOISE_ONE == 65536;
        assert(0 <= ((n + NOISE_ONE) * h) / (2 * NOISE_ONE)) by (nonlinear_arith)
            requires -NOISE_ONE < n, h > 0, NOISE_ONE == 65536;
    }
}

} // verus!
