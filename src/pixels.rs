use vstd::prelude::*;

verus! {

/// One RGBA8 pixel, channels in the order red, green, blue, alpha.
pub type Rgba = [u8; 4];

/// The value every pixel of a fresh buffer holds.
pub open spec fn blank_pixel() -> Rgba {
    [0u8, 0u8, 0u8, 0u8]
}

/// A `width` by `height` grid of RGBA8 pixels, kept in an `image::RgbaImage`.
#[verifier::external_body]
pub struct PixelBuffer {
    image: image::RgbaImage,
}

/// What the buffer holds: the pixel at each `(x, y)` with `x < width` and `y < height`.
pub uninterp spec fn buffer_pixels(b: PixelBuffer) -> Map<(u32, u32), Rgba>;

/// The buffer's `(width, height)`.
pub uninterp spec fn buffer_dims(b: PixelBuffer) -> (u32, u32);

/// Every position of a `width` by `height` grid.
pub open spec fn in_grid(p: (u32, u32), width: u32, height: u32) -> bool {
    p.0 < width && p.1 < height
}

/// A `width` by `height` grid in which every pixel is blank.
pub open spec fn blank_grid(width: u32, height: u32) -> Map<(u32, u32), Rgba> {
    Map::new(|p: (u32, u32)| in_grid(p, width, height), |p: (u32, u32)| blank_pixel())
}

/// Index of the first byte of pixel `(x, y)` in a row-major RGBA8 byte layout.
pub open spec fn byte_index(width: int, x: int, y: int) -> int {
    (y * width + x) * 4
}

/// `bytes` lays out `pixels` row by row, four bytes per pixel.
pub open spec fn is_raw_layout(bytes: Seq<u8>, pixels: Map<(u32, u32), Rgba>, width: u32, height: u32) -> bool {
    &&& bytes.len() == 4 * width * height
    &&& forall|x: u32, y: u32, c: int|
        #![trigger pixels[(x, y)][c], byte_index(width as int, x as int, y as int)]
        x < width && y < height && 0 <= c < 4 ==> bytes[byte_index(width as int, x as int, y as int) + c]
            == pixels[(x, y)][c]
}

impl PixelBuffer {
    /// Relies on `image::ImageBuffer::new`: a zero-filled buffer of the given size,
    /// which panics when `4 * width * height` overflows `usize`.
    #[verifier::external_body]
    pub fn new(width: u32, height: u32) -> (r: PixelBuffer)
        requires
            4 * width * height <= usize::MAX,
        ensures
            buffer_dims(r) == (width, height),
            buffer_pixels(r) == blank_grid(width, height),
    {
        PixelBuffer { image: image::RgbaImage::new(width, height) }
    }

    /// Relies on `image::ImageBuffer::put_pixel`: overwrites the one pixel at `(x, y)`,
    /// and panics when `(x, y)` lies outside the buffer.
    #[verifier::external_body]
    pub fn put_pixel(&mut self, x: u32, y: u32, pixel: Rgba)
        requires
            x < buffer_dims(*old(self)).0,
            y < buffer_dims(*old(self)).1,
        ensures
            buffer_dims(*final(self)) == buffer_dims(*old(self)),
            buffer_pixels(*final(self)) == buffer_pixels(*old(self)).insert((x, y), pixel),
    {
        self.image.put_pixel(x, y, image::Rgba(pixel))
    }

    /// Relies on `image::ImageBuffer::as_raw`: the samples, row by row, four per pixel.
    #[verifier::external_body]
    pub fn to_raw(&self) -> (r: Vec<u8>)
        ensures
            is_raw_layout(r@, buffer_pixels(*self), buffer_dims(*self).0, buffer_dims(*self).1),
    {
        self.image.as_raw().clone()
    }
}

} // verus!
