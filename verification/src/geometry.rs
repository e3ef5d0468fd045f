//! The pixel geometry of one receipt, derived from paper width and resolution.

use vstd::prelude::*;
use crate::error::ReceiptError;
use crate::units::{canvas_width_px, canvas_width_px_spec};

verus! {

/// Pixel dimensions of the canvas and of its printable area.
///
/// A geometry is fixed for the whole of one render.
#[derive(Clone, Copy, Debug, PartialEq, Eq, Structural)]
pub struct CanvasGeometry {
    /// Width of the canvas.
    pub width_px: u32,
    /// Height of the canvas.
    pub height_px: u32,
    /// Device resolution in dots per inch.
    pub dpi: u32,
    /// Width that the print mechanism can reach.
    pub printable_width_px: u32,
    /// Distance kept free at the left edge.
    pub left_margin_px: i32,
    /// Distance kept free at the right edge of the printable width.
    pub right_margin_px: i32,
}

impl CanvasGeometry {
    /// The geometry of paper `paper_width_mils` thousandths of an inch wide on a
    /// device of `dpi` dots per inch whose mechanism cannot reach the last
    /// `reserved_margin_px` pixels of a row.
    pub open spec fn from_paper_spec(
        paper_width_mils: u32,
        dpi: u32,
        height_px: u32,
        reserved_margin_px: u32,
        left_margin_px: i32,
        right_margin_px: i32,
    ) -> Result<CanvasGeometry, ReceiptError> {
        let width = canvas_width_px_spec(paper_width_mils as int, dpi as int);
        if width <= u32::MAX && reserved_margin_px <= width {
            Ok(
                CanvasGeometry {
                    width_px: width as u32,
                    height_px,
                    dpi,
                    printable_width_px: (width - reserved_margin_px) as u32,
                    left_margin_px,
                    right_margin_px,
                },
            )
        } else {
            Err(ReceiptError::InvalidLayoutParameter)
        }
    }

    /// Derives the geometry from the physical constants of paper and device.
    ///
    /// Fails when the canvas would be wider than a pixel count can say, or when
    /// the reserved margin is wider than the canvas.
    pub fn from_paper(
        paper_width_mils: u32,
        dpi: u32,
        height_px: u32,
        reserved_margin_px: u32,
        left_margin_px: i32,
        right_margin_px: i32,
    ) -> (geometry: Result<CanvasGeometry, ReceiptError>)
        ensures
            geometry == Self::from_paper_spec(
                paper_width_mils,
                dpi,
                height_px,
                reserved_margin_px,
                left_margin_px,
                right_margin_px,
            ),
    {
        let width: u64 = canvas_width_px(paper_width_mils, dpi);
        if width <= u32::MAX as u64 && reserved_margin_px as u64 <= width {
            let width_px: u32 = width as u32;
            Ok(
                CanvasGeometry {
                    width_px,
                    height_px,
                    dpi,
                    printable_width_px: width_px - reserved_margin_px,
                    left_margin_px,
                    right_margin_px,
                },
            )
        } else {
            Err(ReceiptError::InvalidLayoutParameter)
        }
    }
}

} // verus!
