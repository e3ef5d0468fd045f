//! The ways in which rendering or printing a receipt can fail.

use vstd::prelude::*;

verus! {

/// A failure of one render or transfer. Each is reported once; nothing is retried.
#[derive(Clone, Copy, Debug, PartialEq, Eq, Structural)]
pub enum ReceiptError {
    /// A layout parameter is unusable: a text size that is not positive, or
    /// sizes and offsets that put a position outside the coordinate range.
    InvalidLayoutParameter,
    /// No glyph metrics are at hand for a text line.
    GlyphMetricsUnavailable,
    /// The device cannot take the bitmap, or refused it.
    TransferFailure,
}

} // verus!
