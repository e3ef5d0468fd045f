//! Layout and rasterisation of receipts for fixed-width thermal paper.
//!
//! A receipt is an ordered list of text lines, horizontal rules and vertical
//! gaps. The layout engine turns that list into draw commands at absolute
//! pixel positions on a canvas whose size follows from the paper width and the
//! device resolution.

pub mod canvas;
pub mod document;
pub mod error;
pub mod export;
pub mod geometry;
pub mod layout;
pub mod render;
pub mod units;
