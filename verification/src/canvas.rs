//! The canvas: a fixed-size raster of four channels per pixel.
//!
//! Pixels are stored row by row from the top, each as red, green, blue and
//! alpha. A canvas starts fully white and owns its buffer for the whole of one
//! render.

use vstd::prelude::*;
use crate::error::ReceiptError;
use crate::geometry::CanvasGeometry;

verus! {

/// Largest width or height of a canvas, in pixels.
pub const MAX_DIMENSION: u32 = 32767;

/// Number of channels of a pixel.
pub const CHANNELS: usize = 4;

/// Value of every channel of the background.
pub const BACKGROUND: u8 = 255;

/// Colour of text and rules: opaque black.
pub const INK: [u8; 4] = [0, 0, 0, 255];

/// A mutable raster of `width` by `height` pixels.
#[derive(Debug, PartialEq, Eq)]
pub struct Canvas {
    width: u32,
    height: u32,
    pixels: Vec<u8>,
}

/// A canvas as a value: its dimensions and its channel values in storage order.
pub struct CanvasModel {
    pub width: int,
    pub height: int,
    pub pixels: Seq<u8>,
}

impl View for Canvas {
    type V = CanvasModel;

    closed spec fn view(&self) -> CanvasModel {
        CanvasModel {
            width: self.width as int,
            height: self.height as int,
            pixels: self.pixels@,
        }
    }
}

/// Whether a raster of these dimensions can be a canvas, with `len` channel values.
pub open spec fn canvas_shape(width: int, height: int, len: int) -> bool {
    &&& 0 <= width <= MAX_DIMENSION
    &&& 0 <= height <= MAX_DIMENSION
    &&& len == CHANNELS * width * height
}

/// The fully white canvas of the given dimensions.
pub open spec fn blank_model(width: int, height: int) -> CanvasModel {
    CanvasModel {
        width,
        height,
        pixels: Seq::new((CHANNELS * width * height) as nat, |k: int| BACKGROUND),
    }
}

/// Column of the pixel that channel value number `k` belongs to.
pub open spec fn column_of(k: int, width: int) -> int {
    (k / (CHANNELS as int)) % width
}

/// Row of the pixel that channel value number `k` belongs to.
pub open spec fn row_of(k: int, width: int) -> int {
    (k / (CHANNELS as int)) / width
}

/// Whether the pixel at (`column`, `row`) lies on the horizontal segment
/// between (`from_x`, `y`) and (`to_x`, `y`), ends included, in either direction.
pub open spec fn on_segment(column: int, row: int, from_x: int, to_x: int, y: int) -> bool {
    row == y && (from_x <= column <= to_x || to_x <= column <= from_x)
}

/// The pixels of a raster `width` wide after a horizontal line in `color`:
/// every pixel on the segment takes the colour, all others keep theirs.
pub open spec fn with_horizontal_line(
    pixels: Seq<u8>,
    width: int,
    from_x: int,
    to_x: int,
    y: int,
    color: Seq<u8>,
) -> Seq<u8> {
    Seq::new(
        pixels.len(),
        |k: int|
            if on_segment(column_of(k, width), row_of(k, width), from_x, to_x, y) {
                color[k % (CHANNELS as int)]
            } else {
                pixels[k]
            },
    )
}

/// Draws the horizontal segment from (`from_x`, `y`) to (`to_x`, `y`) into a
/// raster given by its channel values.
///
/// Calls `imageproc::drawing::draw_line_segment_mut` on an `image::RgbaImage`
/// made of the values by `ImageBuffer::from_raw`, and returns the values that
/// `into_raw` gives. For a segment that lies inside the image, with whole-number
/// ends on one row, that function sets every pixel from the left end to the
/// right end to the colour and touches no other.
#[verifier::external_body]
fn draw_segment(
    pixels: Vec<u8>,
    width: u16,
    height: u16,
    from_x: u16,
    to_x: u16,
    y: u16,
    color: [u8; 4],
) -> (painted: Vec<u8>)
    requires
        pixels.len() == CHANNELS * width * height,
        from_x <= to_x < width,
        y < height,
    ensures
        painted@ == with_horizontal_line(
            pixels@,
            width as int,
            from_x as int,
            to_x as int,
            y as int,
            color@,
        ),
{
    let mut image = image::RgbaImage::from_raw(width.into(), height.into(), pixels)
        .unwrap_or_default();
    imageproc::drawing::draw_line_segment_mut(
        &mut image,
        (from_x.into(), y.into()),
        (to_x.into(), y.into()),
        image::Rgba(color),
    );
    image.into_raw()
}

/// Position in storage order of channel 0 of the pixel at (`column`, `row`).
pub open spec fn pixel_offset(column: int, row: int, width: int) -> int {
    (CHANNELS as int) * (row * width + column)
}

/// Every channel value of a raster belongs to a pixel inside it.
pub proof fn lemma_channel_position(k: int, width: int, height: int)
    requires
        0 <= width,
        0 <= height,
        0 <= k < CHANNELS * width * height,
    ensures
        0 <= column_of(k, width) < width,
        0 <= row_of(k, width) < height,
        k == pixel_offset(column_of(k, width), row_of(k, width), width) + k % (CHANNELS as int),
{
    let p = k / 4;
    assert(width > 0 && height > 0 && p < width * height) by (nonlinear_arith)
        requires
            0 <= width,
            0 <= height,
            0 <= k < 4 * width * height,
            p == k / 4,
    ;
    assert(0 <= p % width < width && p == width * (p / width) + p % width && 0 <= p / width
        < height) by (nonlinear_arith)
        requires
            width > 0,
            0 <= p < width * height,
    ;
    assert((p / width) * width == width * (p / width)) by (nonlinear_arith);
}

/// The channel values of the pixel at (`column`, `row`) stand at its offset.
pub proof fn lemma_pixel_position(column: int, row: int, channel: int, width: int, height: int)
    requires
        0 <= column < width,
        0 <= row < height,
        0 <= channel < CHANNELS,
    ensures
        0 <= pixel_offset(column, row, width) + channel < CHANNELS * width * height,
        column_of(pixel_offset(column, row, width) + channel, width) == column,
        row_of(pixel_offset(column, row, width) + channel, width) == row,
        (pixel_offset(column, row, width) + channel) % (CHANNELS as int) == channel,
{
    let p = row * width + column;
    let k = 4 * p + channel;
    assert(0 <= p < width * height) by (nonlinear_arith)
        requires
            0 <= column < width,
            0 <= row < height,
            p == row * width + column,
    ;
    assert(k / 4 == p && k % 4 == channel) by (nonlinear_arith)
        requires
            k == 4 * p + channel,
            0 <= channel < 4,
    ;
    assert(p / width == row && p % width == column) by (nonlinear_arith)
        requires
            p == row * width + column,
            0 <= column < width,
    ;
    assert(4 * (width * height) == 4 * width * height) by (nonlinear_arith);
}

/// After a horizontal line every pixel on the segment has the colour, and
/// every other pixel of the raster is as it was.
pub proof fn lemma_line_pixels(
    pixels: Seq<u8>,
    width: int,
    height: int,
    from_x: int,
    to_x: int,
    y: int,
    color: Seq<u8>,
    column: int,
    row: int,
    channel: int,
)
    requires
        0 <= width,
        0 <= height,
        pixels.len() == CHANNELS * width * height,
        0 <= column < width,
        0 <= row < height,
        0 <= channel < CHANNELS,
    ensures
        with_horizontal_line(pixels, width, from_x, to_x, y, color)[pixel_offset(
            column,
            row,
            width,
        ) + channel] == if on_segment(column, row, from_x, to_x, y) {
            color[channel]
        } else {
            pixels[pixel_offset(column, row, width) + channel]
        },
{
    lemma_pixel_position(column, row, channel, width, height);
}

impl Canvas {
    /// The buffer matches the dimensions, and both are in range.
    #[verifier::type_invariant]
    spec fn well_formed(&self) -> bool {
        canvas_shape(self.width as int, self.height as int, self.pixels.len() as int)
    }

    /// A fully white canvas of `width` by `height` pixels.
    ///
    /// Fails when a dimension is larger than `MAX_DIMENSION`.
    pub fn new(width: u32, height: u32) -> (canvas: Result<Canvas, ReceiptError>)
        ensures
            match canvas {
                Ok(c) => width <= MAX_DIMENSION && height <= MAX_DIMENSION && c@ == blank_model(
                    width as int,
                    height as int,
                ),
                Err(e) => (width > MAX_DIMENSION || height > MAX_DIMENSION) && e
                    == ReceiptError::InvalidLayoutParameter,
            },
    {
        if width > MAX_DIMENSION || height > MAX_DIMENSION {
            return Err(ReceiptError::InvalidLayoutParameter);
        }
        assert(4 * (width as int) * (height as int) <= 4 * 32767 * 32767) by (nonlinear_arith)
            requires
                0 <= width <= 32767,
                0 <= height <= 32767,
        ;
        let len: usize = CHANNELS * (width as usize) * (height as usize);
        let pixels: Vec<u8> = vec![BACKGROUND; len];
        let canvas = Canvas { width, height, pixels };
        assert(canvas@.pixels =~= blank_model(width as int, height as int).pixels);
        Ok(canvas)
    }

    /// A fully white canvas of the dimensions of `geometry`.
    pub fn blank(geometry: &CanvasGeometry) -> (canvas: Result<Canvas, ReceiptError>)
        ensures
            match canvas {
                Ok(c) => geometry.width_px <= MAX_DIMENSION && geometry.height_px <= MAX_DIMENSION
                    && c@ == blank_model(
                    geometry.width_px as int,
                    geometry.height_px as int,
                ),
                Err(e) => (geometry.width_px > MAX_DIMENSION || geometry.height_px
                    > MAX_DIMENSION) && e == ReceiptError::InvalidLayoutParameter,
            },
    {
        Canvas::new(geometry.width_px, geometry.height_px)
    }

    /// A canvas of the given dimensions over the channel values `pixels`.
    ///
    /// Fails when a dimension is larger than `MAX_DIMENSION` or the number of
    /// values is not four per pixel.
    pub fn from_pixels(width: u32, height: u32, pixels: Vec<u8>) -> (canvas: Result<
        Canvas,
        ReceiptError,
    >)
        ensures
            match canvas {
                Ok(c) => canvas_shape(width as int, height as int, pixels.len() as int) && c@
                    == (CanvasModel {
                    width: width as int,
                    height: height as int,
                    pixels: pixels@,
                }),
                Err(e) => !canvas_shape(width as int, height as int, pixels.len() as int) && e
                    == ReceiptError::InvalidLayoutParameter,
            },
    {
        if width > MAX_DIMENSION || height > MAX_DIMENSION {
            return Err(ReceiptError::InvalidLayoutParameter);
        }
        assert(4 * (width as int) * (height as int) <= 4 * 32767 * 32767) by (nonlinear_arith)
            requires
                0 <= width <= 32767,
                0 <= height <= 32767,
        ;
        let len: usize = CHANNELS * (width as usize) * (height as usize);
        if pixels.len() != len {
            return Err(ReceiptError::InvalidLayoutParameter);
        }
        Ok(Canvas { width, height, pixels })
    }

    /// Width in pixels.
    pub fn width(&self) -> (w: u32)
        ensures
            w == self@.width,
            w <= MAX_DIMENSION,
    {
        proof {
            use_type_invariant(self);
        }
        self.width
    }

    /// Height in pixels.
    pub fn height(&self) -> (h: u32)
        ensures
            h == self@.height,
            h <= MAX_DIMENSION,
    {
        proof {
            use_type_invariant(self);
        }
        self.height
    }

    /// The channel values in storage order.
    pub fn pixels(&self) -> (p: &Vec<u8>)
        ensures
            p@ == self@.pixels,
            p@.len() == CHANNELS * self@.width * self@.height,
    {
        proof {
            use_type_invariant(self);
        }
        &self.pixels
    }

    /// Gives up the canvas for its channel values.
    pub fn into_pixels(self) -> (p: Vec<u8>)
        ensures
            p@ == self@.pixels,
            p@.len() == CHANNELS * self@.width * self@.height,
    {
        proof {
            use_type_invariant(&self);
        }
        self.pixels
    }

    /// The four channel values of the pixel at (`x`, `y`), if it is on the canvas.
    pub fn pixel(&self, x: u32, y: u32) -> (p: Option<[u8; 4]>)
        ensures
            p is Some <==> x < self@.width && y < self@.height,
            p matches Some(channels) ==> channels@ == self@.pixels.subrange(
                pixel_offset(x as int, y as int, self@.width),
                pixel_offset(x as int, y as int, self@.width) + CHANNELS,
            ),
    {
        if x >= self.width || y >= self.height {
            return None;
        }
        proof {
            use_type_invariant(self);
            lemma_pixel_position(x as int, y as int, 0, self.width as int, self.height as int);
            lemma_pixel_position(x as int, y as int, 3, self.width as int, self.height as int);
            assert((y as int) * (self.width as int) + (x as int) < 32767 * 32767)
                by (nonlinear_arith)
                requires
                    0 <= x < self.width <= 32767,
                    0 <= y < self.height <= 32767,
            ;
            assert(0 <= (y as int) * (self.width as int)) by (nonlinear_arith)
                requires
                    0 <= y,
                    0 <= self.width,
            ;
        }
        let at: usize = CHANNELS * ((y as usize) * (self.width as usize) + (x as usize));
        let channels: [u8; 4] = [
            self.pixels[at],
            self.pixels[at + 1],
            self.pixels[at + 2],
            self.pixels[at + 3],
        ];
        assert(channels@ =~= self@.pixels.subrange(at as int, at as int + 4));
        Some(channels)
    }

    /// Draws a line one pixel thick from (`from_x`, `y`) to (`to_x`, `y`), both
    /// ends included. What lies beyond the canvas is clipped.
    pub fn draw_horizontal_line(&mut self, from_x: i32, to_x: i32, y: i32, color: [u8; 4])
        ensures
            final(self)@ == (CanvasModel {
                width: old(self)@.width,
                height: old(self)@.height,
                pixels: with_horizontal_line(
                    old(self)@.pixels,
                    old(self)@.width,
                    from_x as int,
                    to_x as int,
                    y as int,
                    color@,
                ),
            }),
    {
        proof {
            use_type_invariant(&*self);
        }
        let ghost before = self.pixels@;
        let ghost w = self.width as int;
        let ghost h = self.height as int;
        let left: i32 = if from_x <= to_x {
            from_x
        } else {
            to_x
        };
        let right: i32 = if from_x <= to_x {
            to_x
        } else {
            from_x
        };
        if self.width == 0 || y < 0 || y as i64 >= self.height as i64 || right < 0 || left as i64
            >= self.width as i64 {
            proof {
                assert forall|k: int| 0 <= k < before.len() implies !on_segment(
                    column_of(k, w),
                    row_of(k, w),
                    from_x as int,
                    to_x as int,
                    y as int,
                ) by {
                    lemma_channel_position(k, w, h);
                }
                assert(before =~= with_horizontal_line(
                    before,
                    w,
                    from_x as int,
                    to_x as int,
                    y as int,
                    color@,
                ));
            }
            return ;
        }
        let first: u16 = if left < 0 {
            0
        } else {
            left as u16
        };
        let last: u16 = if right as i64 >= self.width as i64 {
            (self.width - 1) as u16
        } else {
            right as u16
        };
        let width: u16 = self.width as u16;
        let height: u16 = self.height as u16;
        let mut taken = Canvas { width: 0, height: 0, pixels: Vec::new() };
        core::mem::swap(self, &mut taken);
        let painted = draw_segment(taken.pixels, width, height, first, last, y as u16, color);
        *self = Canvas { width: taken.width, height: taken.height, pixels: painted };
        proof {
            assert forall|k: int| 0 <= k < before.len() implies on_segment(
                column_of(k, w),
                row_of(k, w),
                from_x as int,
                to_x as int,
                y as int,
            ) == on_segment(column_of(k, w), row_of(k, w), first as int, last as int, y as int) by {
                lemma_channel_position(k, w, h);
            }
            assert(self.pixels@ =~= with_horizontal_line(
                before,
                w,
                from_x as int,
                to_x as int,
                y as int,
                color@,
            ));
        }
    }
}

} // verus!
