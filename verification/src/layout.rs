//! The line layout engine: from content elements to draw commands.
//!
//! The engine walks a document once, top to bottom. A cursor holds the vertical
//! position of the next element. Each text line is placed by its alignment and
//! moves the cursor down by its height; a rule is drawn at the cursor and leaves
//! it where it is; a vertical space only moves the cursor.

use vstd::prelude::*;
use crate::document::{Alignment, ContentElement, ElementModel, TextLineModel, Weight, document_model};
use crate::error::ReceiptError;
use crate::geometry::CanvasGeometry;
use crate::units::{
    div_toward_zero,
    line_pitch_px,
    line_pitch_px_spec,
    points_to_pixels,
    points_to_pixels_spec,
    scaled_quotient,
};

verus! {

/// How far a text line moves the cursor.
#[derive(Clone, Copy, Debug, PartialEq, Eq, Structural)]
pub enum LineAdvance {
    /// By the pixel height of its own glyphs.
    FontSize,
    /// By one fixed pitch, whatever the size of the line.
    FixedPitch { nominal_line_height: i32 },
}

/// The choices that hold for a whole render.
#[derive(Clone, Copy, Debug, PartialEq, Eq, Structural)]
pub struct LayoutConfig {
    /// Vertical position of the first element.
    pub initial_y: i32,
    /// How text lines move the cursor.
    pub line_advance: LineAdvance,
}

/// One primitive drawing operation at absolute canvas coordinates.
#[derive(Clone, Copy, Debug, PartialEq, Eq, Structural)]
pub enum DrawCommand {
    /// Draw the text of element number `element` of the document with its top
    /// left corner at (`x`, `y`), with glyphs `scale_px` pixels high.
    GlyphRun { element: usize, x: i32, y: i32, scale_px: i32, weight: Weight },
    /// Draw a line one pixel thick from (`from_x`, `y`) to (`to_x`, `y`), both ends included.
    HorizontalLine { from_x: i32, to_x: i32, y: i32 },
}

/// The outcome of laying out a document.
#[derive(Clone, Debug, PartialEq, Eq)]
pub struct Layout {
    /// The draw commands, in document order.
    pub commands: Vec<DrawCommand>,
    /// The cursor after the last element: the height of the content.
    pub final_y: i32,
}

/// Whether `v` is a coordinate that a draw command can hold.
pub open spec fn in_coordinate_range(v: int) -> bool {
    i32::MIN <= v <= i32::MAX
}

/// Pixel height of the glyphs of `line`.
pub open spec fn glyph_scale(line: TextLineModel, geometry: CanvasGeometry) -> int {
    points_to_pixels_spec(line.point_size, geometry.dpi as int)
}

/// Distance by which `line` moves the cursor.
pub open spec fn line_height(
    line: TextLineModel,
    geometry: CanvasGeometry,
    advance: LineAdvance,
) -> int {
    match advance {
        LineAdvance::FontSize => glyph_scale(line, geometry),
        LineAdvance::FixedPitch { nominal_line_height } => line_pitch_px_spec(
            nominal_line_height as int,
            geometry.dpi as int,
        ),
    }
}

/// Horizontal origin of a line whose text is `text_width_px` wide.
pub open spec fn text_origin_x(
    alignment: Alignment,
    indent_px: int,
    text_width_px: int,
    geometry: CanvasGeometry,
) -> int {
    match alignment {
        Alignment::Left => geometry.left_margin_px + indent_px,
        Alignment::Center => div_toward_zero(geometry.printable_width_px - text_width_px, 2),
        Alignment::Right => geometry.printable_width_px - text_width_px - geometry.right_margin_px
            - indent_px,
    }
}

/// Right end of a rule.
pub open spec fn rule_end_x(geometry: CanvasGeometry) -> int {
    geometry.printable_width_px - geometry.right_margin_px
}

/// Distance by which `element` moves the cursor.
pub open spec fn element_advance(
    element: ElementModel,
    geometry: CanvasGeometry,
    advance: LineAdvance,
) -> int {
    match element {
        ElementModel::Text(line) => line_height(line, geometry, advance),
        ElementModel::Rule => 0,
        ElementModel::VerticalSpace { amount_px } => amount_px,
    }
}

/// Whether `element` can be placed with the cursor at `y`: a text line has a
/// positive size, and every position that the element gives rise to is a coordinate.
pub open spec fn element_valid(
    element: ElementModel,
    text_width_px: int,
    geometry: CanvasGeometry,
    advance: LineAdvance,
    y: int,
) -> bool {
    match element {
        ElementModel::Text(line) => {
            let x = text_origin_x(line.alignment, line.indent_px, text_width_px, geometry);
            &&& line.point_size > 0
            &&& in_coordinate_range(glyph_scale(line, geometry))
            &&& in_coordinate_range(x)
            &&& line.simulated_bold ==> in_coordinate_range(x + 1)
            &&& in_coordinate_range(y + line_height(line, geometry, advance))
        },
        ElementModel::Rule => in_coordinate_range(rule_end_x(geometry)),
        ElementModel::VerticalSpace { amount_px } => in_coordinate_range(y + amount_px),
    }
}

/// The draw commands of element number `index`, placed with the cursor at `y`.
pub open spec fn element_commands(
    element: ElementModel,
    index: int,
    text_width_px: int,
    geometry: CanvasGeometry,
    y: int,
) -> Seq<DrawCommand> {
    match element {
        ElementModel::Text(line) => {
            let x = text_origin_x(line.alignment, line.indent_px, text_width_px, geometry);
            let first = DrawCommand::GlyphRun {
                element: index as usize,
                x: x as i32,
                y: y as i32,
                scale_px: glyph_scale(line, geometry) as i32,
                weight: line.weight,
            };
            let second = DrawCommand::GlyphRun {
                element: index as usize,
                x: (x + 1) as i32,
                y: y as i32,
                scale_px: glyph_scale(line, geometry) as i32,
                weight: line.weight,
            };
            if line.simulated_bold {
                seq![first, second]
            } else {
                seq![first]
            }
        },
        ElementModel::Rule => seq![
            DrawCommand::HorizontalLine {
                from_x: geometry.left_margin_px,
                to_x: rule_end_x(geometry) as i32,
                y: y as i32,
            },
        ],
        ElementModel::VerticalSpace { amount_px } => Seq::empty(),
    }
}

/// The cursor after the elements of `document`, starting from `initial_y`.
pub open spec fn cursor_after(
    document: Seq<ElementModel>,
    geometry: CanvasGeometry,
    advance: LineAdvance,
    initial_y: int,
) -> int
    decreases document.len(),
{
    if document.len() == 0 {
        initial_y
    } else {
        cursor_after(document.drop_last(), geometry, advance, initial_y) + element_advance(
            document.last(),
            geometry,
            advance,
        )
    }
}

/// Whether every element of `document` can be placed in turn, element `i`
/// with a text `text_widths[i]` wide.
pub open spec fn document_valid(
    document: Seq<ElementModel>,
    text_widths: Seq<i32>,
    geometry: CanvasGeometry,
    config: LayoutConfig,
) -> bool {
    forall|i: int|
        0 <= i < document.len() ==> element_valid(
            #[trigger] document[i],
            text_widths[i] as int,
            geometry,
            config.line_advance,
            cursor_after(document.take(i), geometry, config.line_advance, config.initial_y as int),
        )
}

/// The draw commands of all elements of `document`, in order.
pub open spec fn document_commands(
    document: Seq<ElementModel>,
    text_widths: Seq<i32>,
    geometry: CanvasGeometry,
    config: LayoutConfig,
) -> Seq<DrawCommand>
    decreases document.len(),
{
    if document.len() == 0 {
        Seq::empty()
    } else {
        document_commands(document.drop_last(), text_widths, geometry, config) + element_commands(
            document.last(),
            document.len() - 1,
            text_widths[document.len() - 1] as int,
            geometry,
            cursor_after(
                document.drop_last(),
                geometry,
                config.line_advance,
                config.initial_y as int,
            ),
        )
    }
}

/// The cursor of one render pass, with the geometry and the line advance that
/// hold throughout the pass.
#[derive(Clone, Copy, Debug, PartialEq, Eq, Structural)]
pub struct LayoutState {
    /// Vertical position of the next element, in pixels from the top.
    pub current_y: i32,
    /// The geometry of the canvas.
    pub geometry: CanvasGeometry,
    /// How text lines move the cursor.
    pub line_advance: LineAdvance,
}

/// Narrows `v` to a coordinate, if it is one.
fn to_coordinate(v: i64) -> (c: Option<i32>)
    ensures
        c is Some <==> in_coordinate_range(v as int),
        c matches Some(n) ==> n == v,
{
    if v >= i32::MIN as i64 && v <= i32::MAX as i64 {
        Some(v as i32)
    } else {
        None
    }
}

impl LayoutState {
    /// The state at the start of a render pass.
    pub fn new(geometry: CanvasGeometry, config: LayoutConfig) -> (state: LayoutState)
        ensures
            state == (LayoutState {
                current_y: config.initial_y,
                geometry,
                line_advance: config.line_advance,
            }),
    {
        LayoutState { current_y: config.initial_y, geometry, line_advance: config.line_advance }
    }

    /// Horizontal origin of a text line whose text is `text_width_px` wide.
    fn origin_x(&self, alignment: Alignment, indent_px: i32, text_width_px: i32) -> (x: i64)
        ensures
            x == text_origin_x(alignment, indent_px as int, text_width_px as int, self.geometry),
    {
        match alignment {
            Alignment::Left => self.geometry.left_margin_px as i64 + indent_px as i64,
            Alignment::Center => scaled_quotient(
                self.geometry.printable_width_px as i64 - text_width_px as i64,
                2,
            ),
            Alignment::Right => self.geometry.printable_width_px as i64 - text_width_px as i64
                - self.geometry.right_margin_px as i64 - indent_px as i64,
        }
    }

    /// Places element number `index` of a document at the cursor: appends its
    /// draw commands to `commands` and moves the cursor past it.
    /// `text_width_px` is the measured width of the element's text; it is read
    /// for a text line only.
    ///
    /// Fails, and changes nothing, when the element cannot be placed.
    pub fn place(
        &mut self,
        element: &ContentElement,
        index: usize,
        text_width_px: i32,
        commands: &mut Vec<DrawCommand>,
    ) -> (placed: Result<(), ReceiptError>)
        ensures
            placed is Ok <==> element_valid(
                element@,
                text_width_px as int,
                old(self).geometry,
                old(self).line_advance,
                old(self).current_y as int,
            ),
            placed is Err ==> {
                &&& placed == Err::<(), ReceiptError>(ReceiptError::InvalidLayoutParameter)
                &&& *final(self) == *old(self)
                &&& final(commands)@ == old(commands)@
            },
            placed is Ok ==> {
                &&& final(self).geometry == old(self).geometry
                &&& final(self).line_advance == old(self).line_advance
                &&& final(self).current_y == old(self).current_y + element_advance(
                    element@,
                    old(self).geometry,
                    old(self).line_advance,
                )
                &&& final(commands)@ == old(commands)@ + element_commands(
                    element@,
                    index as int,
                    text_width_px as int,
                    old(self).geometry,
                    old(self).current_y as int,
                )
            },
    {
        let y: i32 = self.current_y;
        match element {
            ContentElement::Text(line) => {
                if line.point_size <= 0 {
                    return Err(ReceiptError::InvalidLayoutParameter);
                }
                let scale: i64 = points_to_pixels(line.point_size, self.geometry.dpi);
                let height: i64 = match self.line_advance {
                    LineAdvance::FontSize => scale,
                    LineAdvance::FixedPitch { nominal_line_height } => line_pitch_px(
                        nominal_line_height,
                        self.geometry.dpi,
                    ),
                };
                let x: i64 = self.origin_x(line.alignment, line.indent_px, text_width_px);
                proof {
                    lemma_quotient_bounds(
                        line.point_size as int * self.geometry.dpi as int,
                        crate::units::GLYPH_POINTS_PER_INCH as int,
                    );
                    if let LineAdvance::FixedPitch { nominal_line_height } = self.line_advance {
                        lemma_quotient_bounds(
                            nominal_line_height as int * self.geometry.dpi as int,
                            crate::units::PITCH_POINTS_PER_INCH as int,
                        );
                    }
                    lemma_product_bounds(line.point_size as int, self.geometry.dpi as int);
                    if let LineAdvance::FixedPitch { nominal_line_height } = self.line_advance {
                        lemma_product_bounds(nominal_line_height as int, self.geometry.dpi as int);
                    }
                }
                let scale_px: i32 = match to_coordinate(scale) {
                    Some(v) => v,
                    None => {
                        return Err(ReceiptError::InvalidLayoutParameter);
                    },
                };
                let x_px: i32 = match to_coordinate(x) {
                    Some(v) => v,
                    None => {
                        return Err(ReceiptError::InvalidLayoutParameter);
                    },
                };
                let next_y: i32 = match to_coordinate(y as i64 + height) {
                    Some(v) => v,
                    None => {
                        return Err(ReceiptError::InvalidLayoutParameter);
                    },
                };
                if line.simulated_bold {
                    if x_px == i32::MAX {
                        return Err(ReceiptError::InvalidLayoutParameter);
                    }
                    commands.push(
                        DrawCommand::GlyphRun {
                            element: index,
                            x: x_px,
                            y,
                            scale_px,
                            weight: line.weight,
                        },
                    );
                    commands.push(
                        DrawCommand::GlyphRun {
                            element: index,
                            x: x_px + 1,
                            y,
                            scale_px,
                            weight: line.weight,
                        },
                    );
                } else {
                    commands.push(
                        DrawCommand::GlyphRun {
                            element: index,
                            x: x_px,
                            y,
                            scale_px,
                            weight: line.weight,
                        },
                    );
                }
                self.current_y = next_y;
                proof {
                    assert(final(commands)@ =~= old(commands)@ + element_commands(
                        element@,
                        index as int,
                        text_width_px as int,
                        old(self).geometry,
                        old(self).current_y as int,
                    ));
                }
                Ok(())
            },
            ContentElement::Rule => {
                let to_x: i32 = match to_coordinate(
                    self.geometry.printable_width_px as i64 - self.geometry.right_margin_px as i64,
                ) {
                    Some(v) => v,
                    None => {
                        return Err(ReceiptError::InvalidLayoutParameter);
                    },
                };
                commands.push(
                    DrawCommand::HorizontalLine { from_x: self.geometry.left_margin_px, to_x, y },
                );
                proof {
                    assert(final(commands)@ =~= old(commands)@ + element_commands(
                        element@,
                        index as int,
                        text_width_px as int,
                        old(self).geometry,
                        old(self).current_y as int,
                    ));
                }
                Ok(())
            },
            ContentElement::VerticalSpace { amount_px } => {
                let next_y: i32 = match to_coordinate(y as i64 + *amount_px as i64) {
                    Some(v) => v,
                    None => {
                        return Err(ReceiptError::InvalidLayoutParameter);
                    },
                };
                self.current_y = next_y;
                proof {
                    assert(final(commands)@ =~= old(commands)@ + element_commands(
                        element@,
                        index as int,
                        text_width_px as int,
                        old(self).geometry,
                        old(self).current_y as int,
                    ));
                }
                Ok(())
            },
        }
    }
}

/// A quotient rounded toward zero is no further from zero than the dividend.
proof fn lemma_quotient_bounds(a: int, b: int)
    requires
        b > 0,
    ensures
        a >= 0 ==> 0 <= div_toward_zero(a, b) <= a,
        a <= 0 ==> a <= div_toward_zero(a, b) <= 0,
{
    if a >= 0 {
        vstd::arithmetic::div_mod::lemma_div_pos_is_pos(a, b);
        vstd::arithmetic::div_mod::lemma_div_is_ordered_by_denominator(a, 1, b);
    } else {
        vstd::arithmetic::div_mod::lemma_div_pos_is_pos(-a, b);
        vstd::arithmetic::div_mod::lemma_div_is_ordered_by_denominator(-a, 1, b);
    }
}

/// The product of a 32-bit signed and a 32-bit unsigned number is far inside 64 bits.
proof fn lemma_product_bounds(a: int, b: int)
    requires
        i32::MIN <= a <= i32::MAX,
        0 <= b <= u32::MAX,
    ensures
        -0x8000_0000 * 0xffff_ffff <= a * b <= 0x7fff_ffff * 0xffff_ffff,
{
    assert(-0x8000_0000 * 0xffff_ffff <= a * b <= 0x7fff_ffff * 0xffff_ffff) by (nonlinear_arith)
        requires
            -0x8000_0000 <= a <= 0x7fff_ffff,
            0 <= b <= 0xffff_ffff,
    ;
}

/// Pixel height at which the text of a line of `point_size` points is measured
/// and drawn on a device of `dpi` dots per inch.
///
/// Fails when the size is not positive or the height is no coordinate.
pub fn glyph_scale_px(point_size: i32, dpi: u32) -> (scale: Result<i32, ReceiptError>)
    ensures
        match scale {
            Ok(px) => point_size > 0 && px == points_to_pixels_spec(point_size as int, dpi as int),
            Err(e) => e == ReceiptError::InvalidLayoutParameter && (point_size <= 0
                || !in_coordinate_range(points_to_pixels_spec(point_size as int, dpi as int))),
        },
{
    if point_size <= 0 {
        return Err(ReceiptError::InvalidLayoutParameter);
    }
    match to_coordinate(points_to_pixels(point_size, dpi)) {
        Some(px) => Ok(px),
        None => Err(ReceiptError::InvalidLayoutParameter),
    }
}

/// The text that a glyph run of element number `element` draws: the content
/// of that element, if it is a text line of `document`.
pub fn glyph_run_text(document: &Vec<ContentElement>, element: usize) -> (text: Option<&str>)
    ensures
        text is Some <==> element < document.len() && document[element as int] is Text,
        text matches Some(t) ==> document[element as int]@ matches ElementModel::Text(line)
            && t@ == line.content,
{
    if element >= document.len() {
        return None;
    }
    match &document[element] {
        ContentElement::Text(line) => Some(line.content.as_str()),
        _ => None,
    }
}

/// What `layout_document` returns for a document and the widths of its texts.
pub open spec fn layout_spec(
    document: Seq<ElementModel>,
    text_widths: Seq<i32>,
    geometry: CanvasGeometry,
    config: LayoutConfig,
) -> Result<(Seq<DrawCommand>, int), ReceiptError> {
    if text_widths.len() != document.len() {
        Err(ReceiptError::GlyphMetricsUnavailable)
    } else if !document_valid(document, text_widths, geometry, config) {
        Err(ReceiptError::InvalidLayoutParameter)
    } else {
        Ok(
            (
                document_commands(document, text_widths, geometry, config),
                cursor_after(document, geometry, config.line_advance, config.initial_y as int),
            ),
        )
    }
}

/// Lays out `document` on a canvas of the given geometry.
///
/// `text_widths[i]` is the measured width in pixels of the text of element
/// `i`, at the glyph height that `glyph_scale_px` gives for it; for an element
/// that is no text line the entry is not read.
///
/// Fails with `GlyphMetricsUnavailable` when the widths do not match the
/// document in number, and with `InvalidLayoutParameter` when an element cannot
/// be placed. Positions beyond the canvas are not an error: what is drawn there
/// is clipped.
pub fn layout_document(
    document: &Vec<ContentElement>,
    text_widths: &Vec<i32>,
    geometry: &CanvasGeometry,
    config: &LayoutConfig,
) -> (layout: Result<Layout, ReceiptError>)
    ensures
        match layout {
            Ok(l) => layout_spec(document_model(document@), text_widths@, *geometry, *config)
                == Ok::<(Seq<DrawCommand>, int), ReceiptError>((l.commands@, l.final_y as int)),
            Err(e) => layout_spec(document_model(document@), text_widths@, *geometry, *config)
                == Err::<(Seq<DrawCommand>, int), ReceiptError>(e),
        },
{
    if text_widths.len() != document.len() {
        return Err(ReceiptError::GlyphMetricsUnavailable);
    }
    let ghost model = document_model(document@);
    let mut state = LayoutState::new(*geometry, *config);
    let mut commands: Vec<DrawCommand> = Vec::new();
    let mut i: usize = 0;
    while i < document.len()
        invariant
            0 <= i <= document.len(),
            text_widths.len() == document.len(),
            model == document_model(document@),
            state.geometry == *geometry,
            state.line_advance == config.line_advance,
            state.current_y == cursor_after(
                model.take(i as int),
                *geometry,
                config.line_advance,
                config.initial_y as int,
            ),
            commands@ == document_commands(model.take(i as int), text_widths@, *geometry, *config),
            document_valid(model.take(i as int), text_widths@, *geometry, *config),
        decreases document.len() - i,
    {
        proof {
            lemma_take_step(model, i as int);
        }
        let placed = state.place(&document[i], i, text_widths[i], &mut commands);
        if placed.is_err() {
            proof {
                assert(model[i as int] == document@[i as int]@);
                assert(model.take(i as int) == model.take(i as int + 1).drop_last());
                assert(!document_valid(model, text_widths@, *geometry, *config));
            }
            return Err(ReceiptError::InvalidLayoutParameter);
        }
        proof {
            let next = model.take(i as int + 1);
            assert(next.last() == document@[i as int]@);
            assert forall|j: int| 0 <= j < next.len() implies element_valid(
                #[trigger] next[j],
                text_widths@[j] as int,
                *geometry,
                config.line_advance,
                cursor_after(next.take(j), *geometry, config.line_advance, config.initial_y as int),
            ) by {
                assert(next.take(j) == model.take(j));
                if j < i {
                    assert(model.take(i as int)[j] == next[j]);
                    assert(model.take(i as int).take(j) == model.take(j));
                }
            }
        }
        i = i + 1;
    }
    proof {
        assert(model.take(i as int) == model);
    }
    Ok(Layout { commands, final_y: state.current_y })
}

/// Taking one element more and dropping it again gives what was taken before.
proof fn lemma_take_step<T>(s: Seq<T>, i: int)
    requires
        0 <= i < s.len(),
    ensures
        s.take(i + 1).drop_last() == s.take(i),
        s.take(i + 1).last() == s[i],
        s.take(i + 1).len() == i + 1,
{
    assert(s.take(i + 1).drop_last() =~= s.take(i));
}

/// A centred text leaves the same room on both sides of the printable width,
/// up to the one pixel that halving an odd number loses.
pub proof fn lemma_centered_text_is_symmetric(
    indent_px: int,
    text_width_px: int,
    geometry: CanvasGeometry,
)
    ensures
        ({
            let x = text_origin_x(Alignment::Center, indent_px, text_width_px, geometry);
            let room_left = x;
            let room_right = geometry.printable_width_px - (x + text_width_px);
            -1 <= room_right - room_left <= 1
        }),
{
}

/// A right-aligned text ends exactly where the right margin and the indent begin.
pub proof fn lemma_right_aligned_text_meets_margin(
    indent_px: int,
    text_width_px: int,
    geometry: CanvasGeometry,
)
    ensures
        text_origin_x(Alignment::Right, indent_px, text_width_px, geometry) + text_width_px
            + geometry.right_margin_px + indent_px == geometry.printable_width_px,
{
}

/// Laying out one document after another moves the cursor as laying out the
/// second from where the first ended.
pub proof fn lemma_cursor_after_concat(
    first: Seq<ElementModel>,
    second: Seq<ElementModel>,
    geometry: CanvasGeometry,
    advance: LineAdvance,
    initial_y: int,
)
    ensures
        cursor_after(first + second, geometry, advance, initial_y) == cursor_after(
            second,
            geometry,
            advance,
            cursor_after(first, geometry, advance, initial_y),
        ),
    decreases second.len(),
{
    if second.len() == 0 {
        assert(first + second =~= first);
    } else {
        assert((first + second).drop_last() =~= first + second.drop_last());
        assert((first + second).last() == second.last());
        lemma_cursor_after_concat(first, second.drop_last(), geometry, advance, initial_y);
    }
}

/// Text lines of one size, each advancing by its glyph height, move the cursor
/// by that height times their number.
pub proof fn lemma_equal_lines_advance_evenly(
    lines: Seq<ElementModel>,
    point_size: int,
    geometry: CanvasGeometry,
    initial_y: int,
)
    requires
        forall|i: int|
            0 <= i < lines.len() ==> (#[trigger] lines[i] matches ElementModel::Text(line)
                && line.point_size == point_size),
    ensures
        cursor_after(lines, geometry, LineAdvance::FontSize, initial_y) == initial_y + lines.len()
            * points_to_pixels_spec(point_size, geometry.dpi as int),
    decreases lines.len(),
{
    if lines.len() > 0 {
        let rest = lines.drop_last();
        assert forall|i: int| 0 <= i < rest.len() implies (#[trigger] rest[i] matches ElementModel::Text(
            line,
        ) && line.point_size == point_size) by {
            assert(rest[i] == lines[i]);
        }
        lemma_equal_lines_advance_evenly(rest, point_size, geometry, initial_y);
        assert(lines.last() == lines[lines.len() - 1]);
        let h = points_to_pixels_spec(point_size, geometry.dpi as int);
        assert(lines.len() * h == rest.len() * h + h) by (nonlinear_arith)
            requires
                lines.len() == rest.len() + 1,
        ;
    }
}

/// Text lines that advance by a fixed pitch move the cursor by that pitch
/// times their number, whatever their sizes.
pub proof fn lemma_fixed_pitch_lines_advance_evenly(
    lines: Seq<ElementModel>,
    nominal_line_height: i32,
    geometry: CanvasGeometry,
    initial_y: int,
)
    requires
        forall|i: int| 0 <= i < lines.len() ==> #[trigger] lines[i] is Text,
    ensures
        cursor_after(lines, geometry, LineAdvance::FixedPitch { nominal_line_height }, initial_y)
            == initial_y + lines.len() * line_pitch_px_spec(
            nominal_line_height as int,
            geometry.dpi as int,
        ),
    decreases lines.len(),
{
    if lines.len() > 0 {
        let rest = lines.drop_last();
        assert forall|i: int| 0 <= i < rest.len() implies #[trigger] rest[i] is Text by {
            assert(rest[i] == lines[i]);
        }
        lemma_fixed_pitch_lines_advance_evenly(rest, nominal_line_height, geometry, initial_y);
        assert(lines.last() == lines[lines.len() - 1]);
        let h = line_pitch_px_spec(nominal_line_height as int, geometry.dpi as int);
        assert(lines.len() * h == rest.len() * h + h) by (nonlinear_arith)
            requires
                lines.len() == rest.len() + 1,
        ;
    }
}

/// A rule leaves the cursor where it found it.
pub proof fn lemma_rule_keeps_cursor(
    document: Seq<ElementModel>,
    geometry: CanvasGeometry,
    advance: LineAdvance,
    initial_y: int,
)
    ensures
        element_advance(ElementModel::Rule, geometry, advance) == 0,
        cursor_after(document.push(ElementModel::Rule), geometry, advance, initial_y)
            == cursor_after(document, geometry, advance, initial_y),
{
    let longer = document.push(ElementModel::Rule);
    assert(longer.drop_last() =~= document);
    assert(longer.last() == ElementModel::Rule);
}

/// An empty document draws nothing and leaves the cursor at its initial value.
pub proof fn lemma_empty_document_layout(
    text_widths: Seq<i32>,
    geometry: CanvasGeometry,
    config: LayoutConfig,
)
    requires
        text_widths.len() == 0,
    ensures
        layout_spec(Seq::<ElementModel>::empty(), text_widths, geometry, config) == Ok::<
            (Seq<DrawCommand>, int),
            ReceiptError,
        >((Seq::<DrawCommand>::empty(), config.initial_y as int)),
{
}

/// Two documents that hold the same content lay out alike: the draw commands
/// and the content height depend on nothing but the content, the widths, the
/// geometry and the configuration.
pub proof fn lemma_layout_is_deterministic(
    first: Seq<ContentElement>,
    second: Seq<ContentElement>,
    text_widths: Seq<i32>,
    geometry: CanvasGeometry,
    config: LayoutConfig,
)
    requires
        first.len() == second.len(),
        forall|i: int| 0 <= i < first.len() ==> first[i]@ == second[i]@,
    ensures
        layout_spec(document_model(first), text_widths, geometry, config) == layout_spec(
            document_model(second),
            text_widths,
            geometry,
            config,
        ),
{
    assert(document_model(first) =~= document_model(second));
}

} // verus!
