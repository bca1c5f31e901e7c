use vstd::prelude::*;
use crate::offset::{Location, MOVESPEED, Intent, pan_n, lemma_pan_additive, lemma_pan_cancels};
use crate::pixels::{
    PixelBuffer, Rgba, blank_pixel, buffer_dims, buffer_pixels, byte_index, in_grid, is_raw_layout,
};
use crate::sampler::{sample, sample_spec};

verus! {

/// Noise coordinates are kept in units of `1 / NOISE_SCALE`.
pub const NOISE_SCALE: i64 = 1024;

/// Fixed shift of the second noise coordinate, which does not scroll.
pub const NOISE_Y_SHIFT: i64 = 10;

/// Where the noise field is queried for one column, in units of
/// `1 / NOISE_SCALE` on each axis.
#[derive(Clone, Copy, Debug, PartialEq, Eq, Structural)]
pub struct NoisePoint {
    pub x: i64,
    pub y: i64,
}

impl View for NoisePoint {
    type V = (int, int);

    open spec fn view(&self) -> (int, int) {
        (self.x as int, self.y as int)
    }
}

/// The noise query point of `column` under scroll offset `offset`: the first
/// coordinate scrolls with the offset's `x`, the second is the column shifted
/// by a constant and ignores the offset.
pub open spec fn noise_point_spec(column: int, offset: (int, int)) -> (int, int) {
    (column + offset.0, column + NOISE_Y_SHIFT)
}

/// The noise query points of columns `0 .. width`, in order.
pub fn noise_points(width: u32, offset: Location) -> (r: Vec<NoisePoint>)
    requires
        offset.x + width <= i64::MAX,
    ensures
        r@.len() == width,
        forall|c: int| 0 <= c < width ==> #[trigger] r@[c]@ == noise_point_spec(c, offset@),
{
    let mut points: Vec<NoisePoint> = Vec::new();
    let mut c: u32 = 0;
    while c < width
        invariant
            c <= width,
            offset.x + width <= i64::MAX,
            points@.len() == c,
            forall|k: int| 0 <= k < c ==> #[trigger] points@[k]@ == noise_point_spec(k, offset@),
        decreases width - c,
    {
        points.push(NoisePoint { x: offset.x + c as i64, y: c as i64 + NOISE_Y_SHIFT });
        c = c + 1;
    }
    points
}

/// Scrolling is a pure shift of the first noise coordinate: after `n` ticks
/// of panning right every column is queried at the point it would be queried
/// at under an offset moved by `n * MOVESPEED` at once, `n * MOVESPEED` below
/// where it was, with the second coordinate unchanged.
pub proof fn lemma_scroll_shifts_queries(column: int, v: (int, int), n: nat)
    ensures
        noise_point_spec(column, pan_n(v, Intent::Right, n)) == noise_point_spec(
            column,
            (v.0 - n * MOVESPEED, v.1),
        ),
        noise_point_spec(column, pan_n(v, Intent::Right, n)).0 == noise_point_spec(column, v).0
            - n * MOVESPEED,
        noise_point_spec(column, pan_n(v, Intent::Right, n)).1 == noise_point_spec(column, v).1,
{
    lemma_pan_additive(v, n);
}

/// Panning left for `n` ticks and then right for `n` ticks leaves every
/// column's noise query point where it was, so the frame composed afterwards
/// is the frame composed before.
pub proof fn lemma_pan_round_trip_queries(column: int, v: (int, int), n: nat)
    ensures
        noise_point_spec(column, pan_n(pan_n(v, Intent::Left, n), Intent::Right, n))
            == noise_point_spec(column, v),
{
    lemma_pan_cancels(v, n);
}

/// A fully opaque gray pixel of level `c`.
pub open spec fn gray(c: u8) -> Rgba {
    [c, c, c, 255u8]
}

/// The pixel at row `y` of a column whose noise value is `n`, in a viewport
/// `h` rows tall: the column's gray from row 0 up to and including its
/// surface row, blank above it.
pub open spec fn column_pixel(n: int, h: int, y: int) -> Rgba {
    if y <= sample_spec(n, h).row {
        gray(sample_spec(n, h).color)
    } else {
        blank_pixel()
    }
}

/// The whole frame for the noise values of columns `0 .. width`.
pub open spec fn frame_spec(noise: Seq<i64>, width: u32, height: u32) -> Map<(u32, u32), Rgba> {
    Map::new(
        |p: (u32, u32)| in_grid(p, width, height),
        |p: (u32, u32)| column_pixel(noise[p.0 as int] as int, height as int, p.1 as int),
    )
}

/// Builds a fresh `width` by `height` frame: for each column, its surface
/// pixel and every row below it in the column's gray, the rest blank.
/// `noise[x]` is the noise value at column `x`'s query point, in units of
/// `1 / NOISE_ONE`.
pub fn composite(width: u32, height: u32, noise: &Vec<i64>) -> (r: PixelBuffer)
    requires
        noise@.len() == width,
        4 * width * height <= usize::MAX,
    ensures
        buffer_dims(r) == (width, height),
        buffer_pixels(r) == frame_spec(noise@, width, height),
{
    let mut buffer = PixelBuffer::new(width, height);
    if height > 0 {
        let mut x: u32 = 0;
        while x < width
            invariant
                x <= width,
                height > 0,
                noise@.len() == width,
                buffer_dims(buffer) == (width, height),
                buffer_pixels(buffer).dom() == Set::new(|p: (u32, u32)| in_grid(p, width, height)),
                forall|p: (u32, u32)|
                    #![trigger buffer_pixels(buffer)[p]]
                    in_grid(p, width, height) ==> buffer_pixels(buffer)[p] == if p.0 < x {
                        column_pixel(noise@[p.0 as int] as int, height as int, p.1 as int)
                    } else {
                        blank_pixel()
                    },
            decreases width - x,
        {
            let s = sample(noise[x as usize], height);
            let color: Rgba = [s.color, s.color, s.color, 255];
            buffer.put_pixel(x, s.row, color);
            let mut y: u32 = 0;
            while y < s.row
                invariant
                    x < width,
                    y <= s.row < height,
                    noise@.len() == width,
                    s == sample_spec(noise@[x as int] as int, height as int),
                    color == gray(s.color),
                    buffer_dims(buffer) == (width, height),
                    buffer_pixels(buffer).dom() == Set::new(
                        |p: (u32, u32)| in_grid(p, width, height),
                    ),
                    forall|p: (u32, u32)|
                        #![trigger buffer_pixels(buffer)[p]]
                        in_grid(p, width, height) ==> buffer_pixels(buffer)[p] == if p.0 < x {
                            column_pixel(noise@[p.0 as int] as int, height as int, p.1 as int)
                        } else if p.0 == x && (p.1 < y || p.1 == s.row) {
                            color
                        } else {
                            blank_pixel()
                        },
                decreases s.row - y,
            {
                buffer.put_pixel(x, y, color);
                y = y + 1;
            }
            x = x + 1;
        }
    }
    assert(buffer_pixels(buffer) =~= frame_spec(noise@, width, height));
    buffer
}

/// In a composed frame, column `x` holds its gray at every row below its
/// surface row and at the surface row itself, and is blank at every row above.
pub proof fn lemma_fill_coverage(noise: Seq<i64>, width: u32, height: u32, x: u32, y: u32)
    requires
        x < width,
        y < height,
        noise.len() == width,
    ensures
        ({
            let s = sample_spec(noise[x as int] as int, height as int);
            let frame = frame_spec(noise, width, height);
            &&& frame.dom().contains((x, y))
            &&& y < s.row ==> frame[(x, y)] == gray(s.color)
            &&& y == s.row ==> frame[(x, y)] == gray(s.color)
            &&& y > s.row ==> frame[(x, y)] == blank_pixel()
        }),
{
}

/// Composing twice with the same viewport size and the same noise values
/// gives the same pixels, and byte-identical raw buffers.
pub proof fn lemma_recomposition_identical(
    first: PixelBuffer,
    second: PixelBuffer,
    first_bytes: Seq<u8>,
    second_bytes: Seq<u8>,
    width: u32,
    height: u32,
    noise: Seq<i64>,
)
    requires
        buffer_dims(first) == (width, height),
        buffer_dims(second) == (width, height),
        buffer_pixels(first) == frame_spec(noise, width, height),
        buffer_pixels(second) == frame_spec(noise, width, height),
        is_raw_layout(first_bytes, buffer_pixels(first), width, height),
        is_raw_layout(second_bytes, buffer_pixels(second), width, height),
    ensures
        buffer_pixels(first) == buffer_pixels(second),
        first_bytes == second_bytes,
{
    let w = width as int;
    let h = height as int;
    assert forall|i: int| 0 <= i < first_bytes.len() implies first_bytes[i] == second_bytes[i] by {
        let q = i / 4;
        let c = i % 4;
        assert(w > 0 && h > 0 && q < w * h) by (nonlinear_arith)
            requires 0 <= i < 4 * w * h, q == i / 4, w >= 0, h >= 0;
        let x = q % w;
        let y = q / w;
        assert(0 <= x < w && 0 <= y < h && q == y * w + x) by (nonlinear_arith)
            requires 0 <= q < w * h, w > 0, x == q % w, y == q / w;
        assert(i == byte_index(w, x, y) + c);
        let p = (x as u32, y as u32);
        assert(first_bytes[byte_index(w, p.0 as int, p.1 as int) + c] == buffer_pixels(first)[p][c]);
        assert(second_bytes[byte_index(w, p.0 as int, p.1 as int) + c] == buffer_pixels(second)[p][c]);
    }
    assert(first_bytes =~= second_bytes);
}

} // verus!
