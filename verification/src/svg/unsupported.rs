//! What becomes of SVG images where SVG rendering is switched off.

use crate::svg::rasterizer::{Action, Event};
use crate::svg::RenderSvgError;
use vstd::prelude::*;

verus! {

/// Refuse to render, whatever has happened: nothing is to be parsed,
/// allocated or painted.
pub fn render_svg_to_png(_event: Event) -> (action: Action)
    ensures
        action == Action::Done(Err(RenderSvgError::Unsupported)),
{
    Action::Done(Err(RenderSvgError::Unsupported))
}

} // verus!
