//! The render pass: layout first, then the draw commands in order.
//!
//! A render pass lays out the whole document before it touches a canvas, so a
//! document that cannot be laid out leaves nothing half drawn. The pass then
//! carries out the draw commands in order: it draws the lines itself and hands
//! each glyph run to the caller, who has the glyph renderer.

use vstd::prelude::*;
use crate::canvas::{Canvas, CanvasModel, INK, MAX_DIMENSION, blank_model, with_horizontal_line};
use crate::document::{ContentElement, document_model};
use crate::error::ReceiptError;
use crate::geometry::CanvasGeometry;
use crate::layout::{DrawCommand, Layout, LayoutConfig, layout_document, layout_spec};

verus! {

/// A canvas with the draw commands that are still to be carried out on it.
#[derive(Debug, PartialEq, Eq)]
pub struct RenderPass {
    /// The canvas, fully white at the start of the pass.
    pub canvas: Canvas,
    /// The draw commands, in the order in which they are to be carried out.
    pub commands: Vec<DrawCommand>,
    /// Number of commands that the pass has gone through.
    pub next: usize,
    /// The cursor after the last element: the height of the content.
    pub content_height: i32,
}

/// Whether a canvas of the dimensions of `geometry` can be made.
pub open spec fn canvas_fits(geometry: CanvasGeometry) -> bool {
    geometry.width_px <= MAX_DIMENSION && geometry.height_px <= MAX_DIMENSION
}

/// Starts a render pass: lays out `document` and makes the white canvas of `geometry`.
///
/// Fails as `layout_document` does, and with `InvalidLayoutParameter` when the
/// geometry asks for a canvas larger than a canvas can be. On failure no
/// canvas is made.
pub fn begin_render(
    document: &Vec<ContentElement>,
    text_widths: &Vec<i32>,
    geometry: &CanvasGeometry,
    config: &LayoutConfig,
) -> (pass: Result<RenderPass, ReceiptError>)
    ensures
        match pass {
            Ok(p) => {
                &&& canvas_fits(*geometry)
                &&& p.canvas@ == blank_model(geometry.width_px as int, geometry.height_px as int)
                &&& p.next == 0
                &&& layout_spec(document_model(document@), text_widths@, *geometry, *config)
                    == Ok::<(Seq<DrawCommand>, int), ReceiptError>(
                    (p.commands@, p.content_height as int),
                )
            },
            Err(e) => match layout_spec(
                document_model(document@),
                text_widths@,
                *geometry,
                *config,
            ) {
                Ok(_) => !canvas_fits(*geometry) && e == ReceiptError::InvalidLayoutParameter,
                Err(layout_error) => e == layout_error,
            },
        },
{
    let layout: Layout = match layout_document(document, text_widths, geometry, config) {
        Ok(l) => l,
        Err(e) => {
            return Err(e);
        },
    };
    let canvas: Canvas = match Canvas::blank(geometry) {
        Ok(c) => c,
        Err(e) => {
            return Err(e);
        },
    };
    Ok(RenderPass { canvas, commands: layout.commands, next: 0, content_height: layout.final_y })
}

/// The pixels of a raster `width` wide after the lines among `commands` have
/// been drawn in order, in `color`. Glyph runs are passed over.
pub open spec fn with_lines(
    pixels: Seq<u8>,
    width: int,
    commands: Seq<DrawCommand>,
    color: Seq<u8>,
) -> Seq<u8>
    decreases commands.len(),
{
    if commands.len() == 0 {
        pixels
    } else {
        let before = with_lines(pixels, width, commands.drop_last(), color);
        match commands.last() {
            DrawCommand::HorizontalLine { from_x, to_x, y } => with_horizontal_line(
                before,
                width,
                from_x as int,
                to_x as int,
                y as int,
                color,
            ),
            DrawCommand::GlyphRun { .. } => before,
        }
    }
}

impl RenderPass {
    /// Index of the command at which `advance` stopped: the glyph run that it
    /// returned, or the end of the commands.
    pub open spec fn stopped_at(&self, run: Option<DrawCommand>) -> int {
        if run is Some {
            self.next - 1
        } else {
            self.next as int
        }
    }

    /// Goes on with the pass up to the next glyph run: draws every line on the
    /// way in the ink colour, and returns the glyph run for the caller to draw
    /// at its place, or `None` when all commands are done.
    pub fn advance(&mut self) -> (run: Option<DrawCommand>)
        ensures
            final(self).commands == old(self).commands,
            final(self).content_height == old(self).content_height,
            old(self).next > old(self).commands.len() ==> run is None && final(self).next == old(
                self,
            ).next && final(self).canvas@ == old(self).canvas@,
            old(self).next <= old(self).commands.len() ==> {
                let stop = final(self).stopped_at(run);
                &&& old(self).next <= stop <= old(self).commands.len()
                &&& forall|j: int|
                    old(self).next <= j < stop ==> #[trigger] old(self).commands[j]
                        is HorizontalLine
                &&& run is None ==> stop == old(self).commands.len()
                &&& run matches Some(command) ==> stop < old(self).commands.len() && command
                    == old(self).commands[stop] && command is GlyphRun
                &&& final(self).canvas@ == (CanvasModel {
                    width: old(self).canvas@.width,
                    height: old(self).canvas@.height,
                    pixels: with_lines(
                        old(self).canvas@.pixels,
                        old(self).canvas@.width,
                        old(self).commands@.subrange(old(self).next as int, stop),
                        INK@,
                    ),
                })
            },
    {
        let ghost start = self.next as int;
        let ghost commands = self.commands@;
        let ghost before = self.canvas@;
        if self.next > self.commands.len() {
            return None;
        }
        proof {
            assert(commands.subrange(start, start).len() == 0);
        }
        while self.next < self.commands.len()
            invariant
                start == old(self).next,
                commands == old(self).commands@,
                before == old(self).canvas@,
                self.commands@ == commands,
                self.commands == old(self).commands,
                self.content_height == old(self).content_height,
                start <= self.next <= commands.len(),
                forall|j: int| start <= j < self.next ==> #[trigger] commands[j] is HorizontalLine,
                self.canvas@ == (CanvasModel {
                    width: before.width,
                    height: before.height,
                    pixels: with_lines(
                        before.pixels,
                        before.width,
                        commands.subrange(start, self.next as int),
                        INK@,
                    ),
                }),
            decreases commands.len() - self.next,
        {
            let command: DrawCommand = self.commands[self.next];
            match command {
                DrawCommand::GlyphRun { .. } => {
                    self.next = self.next + 1;
                    return Some(command);
                },
                DrawCommand::HorizontalLine { from_x, to_x, y } => {
                    proof {
                        let longer = commands.subrange(start, self.next as int + 1);
                        assert(longer.drop_last() =~= commands.subrange(start, self.next as int));
                        assert(longer.last() == command);
                    }
                    self.canvas.draw_horizontal_line(from_x, to_x, y, INK);
                    self.next = self.next + 1;
                },
            }
        }
        None
    }
}

} // verus!
