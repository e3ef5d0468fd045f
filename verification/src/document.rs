//! The content of a receipt: text lines, rules and vertical gaps.

use vstd::prelude::*;

verus! {

/// Which of the two fonts of a pair draws a text line.
#[derive(Clone, Copy, Debug, PartialEq, Eq, Structural)]
pub enum Weight {
    Regular,
    Bold,
}

/// Where a text line stands between the margins.
#[derive(Clone, Copy, Debug, PartialEq, Eq, Structural)]
pub enum Alignment {
    Left,
    Center,
    Right,
}

/// One line of text with the attributes that place and size it.
#[derive(Clone, Debug, PartialEq, Eq)]
pub struct TextLine {
    /// The characters to draw. An empty line draws nothing and still takes its height.
    pub content: String,
    /// Nominal size in points; must be positive.
    pub point_size: i32,
    /// Font of the pair to draw with.
    pub weight: Weight,
    /// Horizontal placement.
    pub alignment: Alignment,
    /// Shift away from the margin that the alignment starts from, in pixels.
    pub indent_px: i32,
    /// Strike the line a second time one pixel to the right, to thicken its strokes.
    pub simulated_bold: bool,
}

/// One element of a receipt.
#[derive(Clone, Debug, PartialEq, Eq)]
pub enum ContentElement {
    /// A line of text.
    Text(TextLine),
    /// A separator one pixel thick across the printable width.
    Rule,
    /// Empty space of the given height; a negative height moves the cursor up.
    VerticalSpace { amount_px: i32 },
}

/// What the layout reads of a text line.
pub struct TextLineModel {
    pub content: Seq<char>,
    pub point_size: int,
    pub weight: Weight,
    pub alignment: Alignment,
    pub indent_px: int,
    pub simulated_bold: bool,
}

/// What the layout reads of an element.
pub enum ElementModel {
    Text(TextLineModel),
    Rule,
    VerticalSpace { amount_px: int },
}

impl View for TextLine {
    type V = TextLineModel;

    open spec fn view(&self) -> TextLineModel {
        TextLineModel {
            content: self.content@,
            point_size: self.point_size as int,
            weight: self.weight,
            alignment: self.alignment,
            indent_px: self.indent_px as int,
            simulated_bold: self.simulated_bold,
        }
    }
}

impl View for ContentElement {
    type V = ElementModel;

    open spec fn view(&self) -> ElementModel {
        match *self {
            ContentElement::Text(line) => ElementModel::Text(line@),
            ContentElement::Rule => ElementModel::Rule,
            ContentElement::VerticalSpace { amount_px } => ElementModel::VerticalSpace {
                amount_px: amount_px as int,
            },
        }
    }
}

/// The models of the elements of `document`, in order.
pub open spec fn document_model(document: Seq<ContentElement>) -> Seq<ElementModel> {
    Seq::new(document.len(), |i: int| document[i]@)
}

} // verus!
