//! The parameters of the bitmap transfer to the printing device.
//!
//! The canvas is handed over as it is, 32 bits per pixel and top row first.
//! Where the device cannot print the full canvas width, only the destination
//! rectangle is scaled down; the pixel data is never resampled here.

use vstd::prelude::*;
use crate::canvas::{CHANNELS, Canvas};
use crate::error::ReceiptError;
use crate::geometry::CanvasGeometry;
use crate::units::{pixels_per_meter, pixels_per_meter_spec};

verus! {

/// Number of bits that one pixel takes in the transfer.
pub const BITS_PER_PIXEL: u16 = 32;

/// Number of colour planes of the transfer.
pub const PLANES: u16 = 1;

/// The ratio by which the destination rectangle is scaled.
#[derive(Clone, Copy, Debug, PartialEq, Eq, Structural)]
pub struct PrintScale {
    pub numerator: u32,
    pub denominator: u32,
}

/// The header that describes the pixel data to the device.
#[derive(Clone, Copy, Debug, PartialEq, Eq, Structural)]
pub struct BitmapHeader {
    /// Width of the bitmap in pixels.
    pub width: i32,
    /// Height of the bitmap in pixels, negated: the first row is the top row.
    pub height: i32,
    /// Number of colour planes.
    pub planes: u16,
    /// Number of bits per pixel.
    pub bit_count: u16,
    /// Compression; 0 is none.
    pub compression: u32,
    /// Horizontal resolution in pixels per metre.
    pub x_pixels_per_meter: i32,
    /// Vertical resolution in pixels per metre.
    pub y_pixels_per_meter: i32,
}

/// All that a transfer of one canvas needs beside the pixel data.
#[derive(Clone, Copy, Debug, PartialEq, Eq, Structural)]
pub struct TransferRequest {
    /// Description of the pixel data.
    pub header: BitmapHeader,
    /// Number of bytes from one row to the next.
    pub row_stride: u32,
    /// Number of rows to send.
    pub scan_lines: u32,
    /// Width of the rectangle on the device.
    pub destination_width: u32,
    /// Height of the rectangle on the device.
    pub destination_height: u32,
}

/// The extent that `extent` pixels take on the device under `scale`, in whole pixels.
pub open spec fn scaled_extent(extent: int, scale: PrintScale) -> int
    recommends
        scale.denominator > 0,
{
    (extent * scale.numerator) / (scale.denominator as int)
}

/// Whether a canvas of `width` by `height` pixels can be described to a device of `dpi`
/// dots per inch: the scale is a ratio, and the resolution fits its header field.
pub open spec fn transferable(dpi: u32, scale: PrintScale) -> bool {
    &&& scale.denominator > 0
    &&& pixels_per_meter_spec(dpi as int) <= i32::MAX
}

/// The transfer request for a canvas of `width` by `height` pixels.
pub open spec fn transfer_request_spec(
    width: int,
    height: int,
    dpi: u32,
    scale: PrintScale,
) -> TransferRequest {
    TransferRequest {
        header: BitmapHeader {
            width: width as i32,
            height: (-height) as i32,
            planes: PLANES,
            bit_count: BITS_PER_PIXEL,
            compression: 0,
            x_pixels_per_meter: pixels_per_meter_spec(dpi as int) as i32,
            y_pixels_per_meter: pixels_per_meter_spec(dpi as int) as i32,
        },
        row_stride: (CHANNELS * width) as u32,
        scan_lines: height as u32,
        destination_width: scaled_extent(width, scale) as u32,
        destination_height: scaled_extent(height, scale) as u32,
    }
}

/// The ratio of the printable width of `geometry` to its full width.
pub fn print_scale(geometry: &CanvasGeometry) -> (scale: PrintScale)
    ensures
        scale == (PrintScale {
            numerator: geometry.printable_width_px,
            denominator: geometry.width_px,
        }),
{
    PrintScale { numerator: geometry.printable_width_px, denominator: geometry.width_px }
}

/// The extent that `extent` pixels take on the device under `scale`.
fn scale_extent(extent: u32, scale: PrintScale) -> (scaled: u64)
    requires
        scale.denominator > 0,
    ensures
        scaled == scaled_extent(extent as int, scale),
{
    assert(0 <= (extent as int) * (scale.numerator as int) <= 0xffff_ffff * 0xffff_ffff)
        by (nonlinear_arith)
        requires
            0 <= extent <= 0xffff_ffff,
            0 <= scale.numerator <= 0xffff_ffff,
    ;
    (extent as u64 * scale.numerator as u64) / (scale.denominator as u64)
}

/// Works out the transfer request for `canvas` on a device of `dpi` dots per inch.
///
/// Fails with `TransferFailure` when the scale has no denominator, when the
/// resolution does not fit the header, or when the scaled rectangle is larger
/// than a device extent can say.
pub fn transfer_request(canvas: &Canvas, dpi: u32, scale: PrintScale) -> (request: Result<
    TransferRequest,
    ReceiptError,
>)
    ensures
        match request {
            Ok(r) => {
                &&& transferable(dpi, scale)
                &&& scaled_extent(canvas@.width, scale) <= u32::MAX
                &&& scaled_extent(canvas@.height, scale) <= u32::MAX
                &&& r == transfer_request_spec(canvas@.width, canvas@.height, dpi, scale)
            },
            Err(e) => {
                &&& e == ReceiptError::TransferFailure
                &&& !transferable(dpi, scale) || scaled_extent(canvas@.width, scale) > u32::MAX
                    || scaled_extent(canvas@.height, scale) > u32::MAX
            },
        },
{
    if scale.denominator == 0 {
        return Err(ReceiptError::TransferFailure);
    }
    let resolution: u64 = pixels_per_meter(dpi);
    if resolution > i32::MAX as u64 {
        return Err(ReceiptError::TransferFailure);
    }
    let destination_width: u64 = scale_extent(canvas.width(), scale);
    let destination_height: u64 = scale_extent(canvas.height(), scale);
    if destination_width > u32::MAX as u64 || destination_height > u32::MAX as u64 {
        return Err(ReceiptError::TransferFailure);
    }
    let width: u32 = canvas.width();
    let height: u32 = canvas.height();
    Ok(
        TransferRequest {
            header: BitmapHeader {
                width: width as i32,
                height: -(height as i32),
                planes: PLANES,
                bit_count: BITS_PER_PIXEL,
                compression: 0,
                x_pixels_per_meter: resolution as i32,
                y_pixels_per_meter: resolution as i32,
            },
            row_stride: 4 * width,
            scan_lines: height,
            destination_width: destination_width as u32,
            destination_height: destination_height as u32,
        },
    )
}

/// Judges a transfer by what the device reported.
///
/// The transfer succeeded when the device context could be opened and the
/// device took at least one row. Whatever the outcome, the canvas is as it was.
pub fn transfer_outcome(device_opened: bool, scan_lines_set: i32) -> (outcome: Result<
    (),
    ReceiptError,
>)
    ensures
        outcome is Ok <==> device_opened && scan_lines_set > 0,
        outcome is Err ==> outcome == Err::<(), ReceiptError>(ReceiptError::TransferFailure),
{
    if device_opened && scan_lines_set > 0 {
        Ok(())
    } else {
        Err(ReceiptError::TransferFailure)
    }
}

} // verus!
