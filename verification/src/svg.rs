//! Rasterise SVG images for terminals that only show pixel graphics.
//!
//! Rendering goes step by step: see [`rasterizer`].

pub mod png;
pub mod rasterizer;
pub mod unsupported;

use crate::svg::rasterizer::{decided, Action, Event};
use vstd::prelude::*;

verus! {

/// The size of a pixel image.
#[derive(Debug, Copy, Clone, PartialEq, Eq, Structural)]
pub struct PixelSize {
    /// The number of pixels in a row.
    pub width: u32,
    /// The number of rows.
    pub height: u32,
}

/// Why an SVG image could not be turned into a PNG image.
#[derive(Debug)]
pub enum RenderSvgError {
    /// The data is not an SVG document.
    ParseError(resvg::usvg::Error),
    /// No pixel surface of this size can be had.
    FailedToCreatePixmap(PixelSize),
    /// The PNG encoder failed; this is what it reported.
    EncodePngError(String),
    /// SVG rendering is switched off.
    Unsupported,
}

/// Whether SVG rendering is switched on.
#[derive(Debug, Copy, Clone, PartialEq, Eq, Structural)]
pub enum SvgSupport {
    /// SVG images are not rendered.
    Disabled,
    /// SVG images are rendered.
    Enabled,
}

/// Render an SVG image to a PNG pixel graphic for display, one step at a
/// time: given what has happened, say what is to be done next.
///
/// Where rendering is switched off, the first step is the last: it ends
/// in an error, and nothing is parsed, allocated or painted.
pub fn render_svg_to_png(support: SvgSupport, event: Event) -> (action: Action)
    ensures
        support is Disabled ==> action == Action::Done(Err(RenderSvgError::Unsupported)),
        support is Enabled ==> decided(event, action),
{
    match support {
        SvgSupport::Disabled => unsupported::render_svg_to_png(event),
        SvgSupport::Enabled => rasterizer::render_svg_to_png(event),
    }
}

} // verus!
