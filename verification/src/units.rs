//! Conversion of physical quantities (points, inches, dots per inch) into pixels.

use vstd::prelude::*;

verus! {

/// Divisor that maps a nominal point size times the resolution to a glyph height.
///
/// The value is empirical: callers' nominal sizes were tuned against it, so it
/// is deliberately not the typographic 72.
pub const GLYPH_POINTS_PER_INCH: u32 = 54;

/// Divisor of the fixed line pitch: the typographic points per inch.
pub const PITCH_POINTS_PER_INCH: u32 = 72;

/// Number of thousandths of an inch in an inch.
pub const MILS_PER_INCH: u32 = 1000;

/// Quotient of `a` by a positive `b`, rounded toward zero.
pub open spec fn div_toward_zero(a: int, b: int) -> int
    recommends
        b > 0,
{
    if a >= 0 {
        a / b
    } else {
        -((-a) / b)
    }
}

/// Pixel height of glyphs of nominal size `size_pt` at `dpi` dots per inch.
pub open spec fn points_to_pixels_spec(size_pt: int, dpi: int) -> int {
    div_toward_zero(size_pt * dpi, GLYPH_POINTS_PER_INCH as int)
}

/// Distance in pixels between two baselines of nominal height `nominal_line_height`.
pub open spec fn line_pitch_px_spec(nominal_line_height: int, dpi: int) -> int {
    div_toward_zero(nominal_line_height * dpi, PITCH_POINTS_PER_INCH as int)
}

/// Width in pixels of paper that is `paper_width_mils` thousandths of an inch wide.
pub open spec fn canvas_width_px_spec(paper_width_mils: int, dpi: int) -> int {
    (paper_width_mils * dpi) / (MILS_PER_INCH as int)
}

/// Width in pixels that is left once the reserved margin is taken off.
pub open spec fn printable_width_px_spec(canvas_width_px: int, reserved_margin_px: int) -> int {
    canvas_width_px - reserved_margin_px
}

/// Device resolution in pixels per metre.
pub open spec fn pixels_per_meter_spec(dpi: int) -> int {
    (dpi * 10000) / 254
}

/// Quotient of `a` by `b`, rounded toward zero.
pub(crate) fn scaled_quotient(a: i64, b: u32) -> (q: i64)
    requires
        b > 0,
    ensures
        q == div_toward_zero(a as int, b as int),
{
    let divisor: i64 = b as i64;
    if a >= 0 {
        a / divisor
    } else if a == i64::MIN {
        // -a is not representable: split off one divisor first.
        let rest: i64 = a + divisor;
        let q: i64 = (-rest) / divisor;
        assert(-(a as int) == -(rest as int) + divisor as int);
        assert((-(a as int)) / (divisor as int) == (-(rest as int)) / (divisor as int) + 1) by {
            vstd::arithmetic::div_mod::lemma_div_plus_one(-(rest as int), divisor as int);
        }
        -q - 1
    } else {
        -((-a) / divisor)
    }
}

/// Pixel height of glyphs of nominal size `size_pt` at `dpi` dots per inch:
/// `size_pt * dpi / 54`, rounded toward zero.
pub fn points_to_pixels(size_pt: i32, dpi: u32) -> (px: i64)
    ensures
        px == points_to_pixels_spec(size_pt as int, dpi as int),
{
    assert(-0x8000_0000 * 0xffff_ffff <= (size_pt as int) * (dpi as int) <= 0x7fff_ffff
        * 0xffff_ffff) by (nonlinear_arith)
        requires
            -0x8000_0000 <= size_pt <= 0x7fff_ffff,
            0 <= dpi <= 0xffff_ffff,
    ;
    scaled_quotient(size_pt as i64 * dpi as i64, GLYPH_POINTS_PER_INCH)
}

/// Distance in pixels between two baselines of nominal height
/// `nominal_line_height`: `nominal_line_height * dpi / 72`, rounded toward zero.
pub fn line_pitch_px(nominal_line_height: i32, dpi: u32) -> (px: i64)
    ensures
        px == line_pitch_px_spec(nominal_line_height as int, dpi as int),
{
    assert(-0x8000_0000 * 0xffff_ffff <= (nominal_line_height as int) * (dpi as int) <= 0x7fff_ffff
        * 0xffff_ffff) by (nonlinear_arith)
        requires
            -0x8000_0000 <= nominal_line_height <= 0x7fff_ffff,
            0 <= dpi <= 0xffff_ffff,
    ;
    scaled_quotient(nominal_line_height as i64 * dpi as i64, PITCH_POINTS_PER_INCH)
}

/// Width in pixels of paper that is `paper_width_mils` thousandths of an inch
/// wide: the whole pixels in `paper_width_mils * dpi / 1000`.
pub fn canvas_width_px(paper_width_mils: u32, dpi: u32) -> (px: u64)
    ensures
        px == canvas_width_px_spec(paper_width_mils as int, dpi as int),
{
    assert(0 <= (paper_width_mils as int) * (dpi as int) <= 0xffff_ffff * 0xffff_ffff)
        by (nonlinear_arith)
        requires
            0 <= paper_width_mils <= 0xffff_ffff,
            0 <= dpi <= 0xffff_ffff,
    ;
    (paper_width_mils as u64 * dpi as u64) / (MILS_PER_INCH as u64)
}

/// Width in pixels that is left once the reserved margin is taken off.
pub fn printable_width_px(canvas_width_px: u32, reserved_margin_px: u32) -> (px: i64)
    ensures
        px == printable_width_px_spec(canvas_width_px as int, reserved_margin_px as int),
{
    canvas_width_px as i64 - reserved_margin_px as i64
}

/// Device resolution in pixels per metre: `dpi * 100 / 2.54`, in whole pixels.
pub fn pixels_per_meter(dpi: u32) -> (ppm: u64)
    ensures
        ppm == pixels_per_meter_spec(dpi as int),
{
    (dpi as u64 * 10000) / 254
}

} // verus!
