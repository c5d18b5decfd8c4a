//! The pixel canvas: an `image::RgbImage` behind a few trusted calls, and the
//! model that the contracts of this crate use for it.

use vstd::prelude::*;

verus! {

/// An RGB colour, one byte per channel.
#[derive(Clone, Copy, PartialEq, Eq, Structural, Debug)]
pub struct Color {
    pub red: u8,
    pub green: u8,
    pub blue: u8,
}

impl Color {
    /// The colour as the triple that a pixel of the model holds.
    pub open spec fn rgb(self) -> (u8, u8, u8) {
        (self.red, self.green, self.blue)
    }
}

/// A fixed-size RGB raster. The pixels live in an `image::RgbImage`; Verus
/// sees them only through `pixels_of` and `dims_of`.
#[verifier::external_body]
pub struct PixelCanvas {
    img: image::RgbImage,
}

/// What each in-bounds pixel `(x, y)` of a canvas holds, as the image's
/// `get_pixel(x, y)` reads it.
pub uninterp spec fn pixels_of(c: PixelCanvas) -> Map<(u32, u32), (u8, u8, u8)>;

/// The `(width, height)` that a canvas was made with.
pub uninterp spec fn dims_of(c: PixelCanvas) -> (u32, u32);

/// The abstract value of a canvas: its size and the colour of every pixel.
pub struct CanvasModel {
    pub width: u32,
    pub height: u32,
    pub pixels: Map<(u32, u32), (u8, u8, u8)>,
}

/// The pixel coordinates of a `width` × `height` raster.
pub open spec fn rect(width: u32, height: u32) -> Set<(u32, u32)> {
    Set::new(|k: (u32, u32)| k.0 < width && k.1 < height)
}

/// A raster of the given size with every pixel set to `c`.
pub open spec fn uniform(width: u32, height: u32, c: (u8, u8, u8)) -> Map<(u32, u32), (u8, u8, u8)> {
    Map::new(|k: (u32, u32)| rect(width, height).contains(k), |k: (u32, u32)| c)
}

/// Whether pixel `(x, y)` lies in the filled disc of radius `r` around
/// `(cx, cy)`: inclusive squared distance, and a disc of radius 0 is empty.
pub open spec fn in_disc(cx: int, cy: int, r: int, x: int, y: int) -> bool {
    r > 0 && (x - cx) * (x - cx) + (y - cy) * (y - cy) <= r * r
}

impl CanvasModel {
    /// This canvas with the disc of radius `r` around `(cx, cy)` painted `c`:
    /// every in-bounds pixel of the disc takes `c`, every other pixel keeps
    /// its colour, and the size stays.
    pub open spec fn stamped(self, cx: int, cy: int, r: int, c: (u8, u8, u8)) -> CanvasModel {
        CanvasModel {
            width: self.width,
            height: self.height,
            pixels: Map::new(
                |k: (u32, u32)| self.pixels.dom().contains(k),
                |k: (u32, u32)| if in_disc(cx, cy, r, k.0 as int, k.1 as int) { c } else { self.pixels[k] },
            ),
        }
    }

    /// The model holds exactly one colour per pixel of its size.
    pub open spec fn wf(self) -> bool {
        self.pixels.dom() == rect(self.width, self.height)
    }
}

/// `bytes` lays out the pixels of `m` row by row, three bytes (red, green,
/// blue) per pixel.
pub open spec fn row_major_rgb(bytes: Seq<u8>, m: CanvasModel) -> bool {
    &&& bytes.len() == 3 * (m.width as int) * (m.height as int)
    &&& forall|x: u32, y: u32|
        #![trigger m.pixels[(x, y)]]
        x < m.width && y < m.height ==> {
            let i = 3 * ((y as int) * (m.width as int) + (x as int));
            &&& bytes[i] == m.pixels[(x, y)].0
            &&& bytes[i + 1] == m.pixels[(x, y)].1
            &&& bytes[i + 2] == m.pixels[(x, y)].2
        }
}

impl View for PixelCanvas {
    type V = CanvasModel;

    open spec fn view(&self) -> CanvasModel {
        CanvasModel { width: dims_of(*self).0, height: dims_of(*self).1, pixels: pixels_of(*self) }
    }
}

impl PixelCanvas {
    /// Relies on `ImageBuffer::from_pixel`: a `width` × `height` image whose
    /// every pixel is `fill`. It panics when `3 * width * height` overflows a
    /// vector's length.
    #[verifier::external_body]
    fn image_from_pixel(width: u32, height: u32, fill: Color) -> (r: PixelCanvas)
        requires
            3 * (width as int) * (height as int) <= isize::MAX,
        ensures
            dims_of(r) == (width, height),
            pixels_of(r) == uniform(width, height, fill.rgb()),
    {
        PixelCanvas {
            img: image::RgbImage::from_pixel(width, height, image::Rgb([fill.red, fill.green, fill.blue])),
        }
    }

    /// Relies on `ImageBuffer::dimensions`: the width and height of the image.
    #[verifier::external_body]
    fn image_dims(&self) -> (r: (u32, u32))
        ensures
            r == dims_of(*self),
    {
        self.img.dimensions()
    }

    /// Relies on `ImageBuffer::get_pixel`: the pixel at `(x, y)`; it panics
    /// out of bounds.
    #[verifier::external_body]
    fn image_get(&self, x: u32, y: u32) -> (r: Color)
        requires
            x < dims_of(*self).0,
            y < dims_of(*self).1,
        ensures
            r.rgb() == pixels_of(*self)[(x, y)],
    {
        let p = self.img.get_pixel(x, y);
        Color { red: p.0[0], green: p.0[1], blue: p.0[2] }
    }

    /// Relies on `ImageBuffer::put_pixel`: the pixel at `(x, y)` becomes `c`
    /// and every other pixel keeps its value; it panics out of bounds.
    #[verifier::external_body]
    fn image_put(&mut self, x: u32, y: u32, c: Color)
        requires
            x < dims_of(*old(self)).0,
            y < dims_of(*old(self)).1,
        ensures
            dims_of(*final(self)) == dims_of(*old(self)),
            pixels_of(*final(self)) == pixels_of(*old(self)).insert((x, y), c.rgb()),
    {
        self.img.put_pixel(x, y, image::Rgb([c.red, c.green, c.blue]))
    }

    /// Relies on `ImageBuffer::clone`: an independent copy with the same size
    /// and pixel values.
    #[verifier::external_body]
    fn image_clone(&self) -> (r: PixelCanvas)
        ensures
            r@ == self@,
    {
        PixelCanvas { img: self.img.clone() }
    }

    /// Relies on `ImageBuffer::as_raw`, copied: the pixel bytes, row by row,
    /// three per pixel. The buffer of an image made by `from_pixel` holds
    /// exactly `3 * width * height` bytes.
    #[verifier::external_body]
    fn image_raw(&self) -> (r: Vec<u8>)
        ensures
            row_major_rgb(r@, self@),
    {
        self.img.as_raw().clone()
    }

    /// A `width` × `height` canvas filled with `fill`.
    pub fn new(width: u32, height: u32, fill: Color) -> (r: PixelCanvas)
        requires
            3 * (width as int) * (height as int) <= isize::MAX,
        ensures
            r@.width == width,
            r@.height == height,
            r@.pixels == uniform(width, height, fill.rgb()),
            r@.wf(),
    {
        let r = Self::image_from_pixel(width, height, fill);
        assert(r@.pixels.dom() =~= rect(width, height));
        r
    }

    pub fn width(&self) -> (r: u32)
        ensures
            r == self@.width,
    {
        self.image_dims().0
    }

    pub fn height(&self) -> (r: u32)
        ensures
            r == self@.height,
    {
        self.image_dims().1
    }

    /// The colour of the pixel at `(x, y)`.
    pub fn pixel(&self, x: u32, y: u32) -> (r: Color)
        requires
            x < self@.width,
            y < self@.height,
        ensures
            r.rgb() == self@.pixels[(x, y)],
    {
        self.image_get(x, y)
    }

    /// Paints the filled disc of radius `radius` around `(cx, cy)` with
    /// `color`. The center may lie anywhere; pixels outside the canvas are
    /// clipped, and a radius of 0 paints nothing.
    pub fn stamp_circle(&mut self, cx: i32, cy: i32, radius: u64, color: Color)
        requires
            old(self)@.wf(),
        ensures
            final(self)@ == old(self)@.stamped(cx as int, cy as int, radius as int, color.rgb()),
            final(self)@.wf(),
            final(self)@.width == old(self)@.width,
            final(self)@.height == old(self)@.height,
            radius == 0 ==> final(self)@ == old(self)@,
    {
        let ghost m0 = self@;
        let ghost goal = m0.stamped(cx as int, cy as int, radius as int, color.rgb());
        if radius == 0 {
            assert(self@.pixels =~= goal.pixels);
            return;
        }
        let (w, h) = self.image_dims();
        let r = radius as i128;
        let x_lo: i128 = if (cx as i128) - r < 0 { 0 } else { (cx as i128) - r };
        let x_hi: i128 = if (cx as i128) + r + 1 > w as i128 { w as i128 } else { (cx as i128) + r + 1 };
        let y_lo: i128 = if (cy as i128) - r < 0 { 0 } else { (cy as i128) - r };
        let y_hi: i128 = if (cy as i128) + r + 1 > h as i128 { h as i128 } else { (cy as i128) + r + 1 };
        proof {
            assert forall|k: (u32, u32)| #[trigger] m0.pixels.dom().contains(k) && in_disc(cx as int, cy as int, r as int, k.0 as int, k.1 as int)
                implies x_lo <= k.0 < x_hi && y_lo <= k.1 < y_hi by {
                lemma_disc_within_radius(cx as int, cy as int, r as int, k.0 as int, k.1 as int);
            }
        }
        if x_lo >= x_hi || y_lo >= y_hi {
            assert(self@.pixels =~= goal.pixels);
            return;
        }
        let x0 = x_lo as u32;
        let x1 = x_hi as u32;
        let y0 = y_lo as u32;
        let y1 = y_hi as u32;
        assert((radius as int) * (radius as int) <= u128::MAX) by (nonlinear_arith)
            requires
                radius <= u64::MAX,
        ;
        let r_sq: u128 = (radius as u128) * (radius as u128);
        let mut y: u32 = y0;
        while y < y1
            invariant
                y0 <= y <= y1 <= h,
                x0 < x1 <= w,
                x0 == x_lo,
                x1 == x_hi,
                y0 == y_lo,
                y1 == y_hi,
                r == radius,
                radius > 0,
                r_sq == radius * radius,
                (w, h) == dims_of(*self),
                m0.width == w,
                m0.height == h,
                m0.wf(),
                self@.pixels.dom() == m0.pixels.dom(),
                forall|k: (u32, u32)| #[trigger] self@.pixels.dom().contains(k) ==> self@.pixels[k] == (
                    if y0 <= k.1 < y && x0 <= k.0 < x1 && in_disc(cx as int, cy as int, r as int, k.0 as int, k.1 as int) {
                        color.rgb()
                    } else {
                        m0.pixels[k]
                    }),
            decreases y1 - y,
        {
            let mut x: u32 = x0;
            while x < x1
                invariant
                    y0 <= y < y1 <= h,
                    x0 <= x <= x1 <= w,
                    r == radius,
                    radius > 0,
                    r_sq == radius * radius,
                    (w, h) == dims_of(*self),
                    m0.width == w,
                    m0.height == h,
                    m0.wf(),
                    self@.pixels.dom() == m0.pixels.dom(),
                    forall|k: (u32, u32)| #[trigger] self@.pixels.dom().contains(k) ==> self@.pixels[k] == (
                        if ((y0 <= k.1 < y && x0 <= k.0 < x1) || (k.1 == y && x0 <= k.0 < x)) && in_disc(cx as int, cy as int, r as int, k.0 as int, k.1 as int) {
                            color.rgb()
                        } else {
                            m0.pixels[k]
                        }),
                decreases x1 - x,
            {
                let dx: i128 = x as i128 - cx as i128;
                let dy: i128 = y as i128 - cy as i128;
                proof {
                    lemma_square_bound(dx as int);
                    lemma_square_bound(dy as int);
                }
                let d: u128 = (dx * dx + dy * dy) as u128;
                if d <= r_sq {
                    self.image_put(x, y, color);
                }
                proof {
                    assert(d == dx * dx + dy * dy);
                    assert((d <= r_sq) == in_disc(cx as int, cy as int, r as int, x as int, y as int));
                    assert(m0.pixels.dom().contains((x, y)));
                }
                x = x + 1;
            }
            y = y + 1;
        }
        assert(self@.pixels =~= goal.pixels);
    }

    /// The raw pixel buffer for display: row by row, three bytes per pixel.
    pub fn to_rgb_bytes(&self) -> (r: Vec<u8>)
        ensures
            row_major_rgb(r@, self@),
    {
        self.image_raw()
    }

    /// An independent deep copy.
    pub fn snapshot(&self) -> (r: PixelCanvas)
        ensures
            r@ == self@,
    {
        self.image_clone()
    }
}

/// A pixel of a disc lies within `r` of the center along each axis.
proof fn lemma_disc_within_radius(cx: int, cy: int, r: int, x: int, y: int)
    requires
        in_disc(cx, cy, r, x, y),
    ensures
        cx - r <= x <= cx + r,
        cy - r <= y <= cy + r,
{
    let dx = x - cx;
    let dy = y - cy;
    assert(dx * dx >= 0 && dy * dy >= 0) by (nonlinear_arith);
    assert(-r <= dx <= r) by (nonlinear_arith)
        requires
            dx * dx <= r * r,
            r > 0,
    ;
    assert(-r <= dy <= r) by (nonlinear_arith)
        requires
            dy * dy <= r * r,
            r > 0,
    ;
}

/// The square of an offset between a canvas coordinate and an `i32` center
/// stays far inside `i128`.
proof fn lemma_square_bound(d: int)
    requires
        -0x2_0000_0000 <= d <= 0x2_0000_0000,
    ensures
        0 <= d * d <= 0x4_0000_0000_0000_0000,
{
    assert(0 <= d * d <= 0x4_0000_0000_0000_0000) by (nonlinear_arith)
        requires
            -0x2_0000_0000 <= d <= 0x2_0000_0000,
    ;
}

} // verus!
