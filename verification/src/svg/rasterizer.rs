//! The steps from SVG data to a PNG image, with resvg doing the work.
//!
//! Parsing a document, outlining its text and painting it are the work of
//! usvg and resvg, which read files and fonts on the way.  This module
//! does none of that itself: it decides what is to be done next, and says
//! so as an [`Action`].  Whoever renders an image does what the action
//! says and comes back with what happened, as an [`Event`], until the
//! action is [`Action::Done`].  Surfaces are made and encoded here.

use crate::svg::png::png_dimensions;
use crate::svg::{PixelSize, RenderSvgError};
use resvg::tiny_skia::Pixmap;
use vstd::prelude::*;

verus! {

/// A parsed SVG document, as usvg holds it.
#[verifier::external_type_specification]
#[verifier::external_body]
pub struct ExDocument(resvg::usvg::Tree);

/// The reason usvg gives for not taking data as an SVG document.
#[verifier::external_type_specification]
#[verifier::external_body]
pub struct ExParseError(resvg::usvg::Error);

/// A document made ready for painting, as resvg holds it.
#[verifier::external_type_specification]
#[verifier::external_body]
pub struct ExRenderTree(resvg::Tree);

/// A surface of pixels, as tiny-skia holds it.
#[verifier::external_type_specification]
#[verifier::external_body]
pub struct ExSurface(Pixmap);

/// The width and height of a render tree, in whole pixels.
pub uninterp spec fn tree_size(tree: resvg::Tree) -> PixelSize;

/// The width and height that a pixel surface was made with.
pub uninterp spec fn surface_size(surface: Pixmap) -> PixelSize;

/// The pixels of a surface, row by row, four bytes to a pixel.
pub uninterp spec fn surface_pixels(surface: Pixmap) -> Seq<u8>;

/// The PNG image that tiny-skia and the `png` crate make of pixels and
/// their size.
pub uninterp spec fn png_encoding(pixels: Seq<u8>, size: PixelSize) -> Seq<u8>;

/// The widest and the highest surface that a document is painted on.
pub const MAX_SURFACE_SIDE: u32 = 536_870_911;

/// Whether tiny-skia makes a surface of this size: neither side is zero,
/// the bytes of a row can be counted in an `i32`, and the bytes of all
/// rows in a `usize`.
pub open spec fn surface_allocatable(size: PixelSize) -> bool {
    &&& 1 <= size.width
    &&& 1 <= size.height
    &&& 4 * size.width <= i32::MAX
    &&& 4 * size.width * size.height <= usize::MAX
}

/// Whether resvg can paint on a canvas of this size: it clips to a
/// rectangle four times as wide and as high, whose sides must fit an
/// `i32`.
pub open spec fn canvas_in_bounds(size: PixelSize) -> bool {
    &&& 1 <= size.width <= MAX_SURFACE_SIDE
    &&& 1 <= size.height <= MAX_SURFACE_SIDE
}

/// Whether a document can be painted at this size.
pub open spec fn paintable(size: PixelSize) -> bool {
    canvas_in_bounds(size) && surface_allocatable(size)
}

/// Whether a surface is blank: every byte of every pixel is zero.
pub open spec fn blank(surface: Pixmap) -> bool {
    surface_pixels(surface) == Seq::new(
        (4 * surface_size(surface).width * surface_size(surface).height) as nat,
        |i: int| 0u8,
    )
}

/// What has happened so far on the way from data to an image.
pub enum Event {
    /// Nothing yet.
    Begin,
    /// usvg has parsed the data, or has refused it.
    Parsed(Result<resvg::usvg::Tree, resvg::usvg::Error>),
    /// The text of the document has been outlined, and resvg has made the
    /// document ready for painting.
    Prepared(resvg::Tree),
    /// resvg has painted the document on the surface it was given.
    Painted(Pixmap),
}

/// What is to be done next on the way from data to an image.
pub enum Action {
    /// Parse the data with usvg.
    Parse,
    /// Outline the text of this document in glyphs from the font catalog,
    /// and make the document ready for painting.
    Prepare(resvg::usvg::Tree),
    /// Paint this tree on this surface, with no scaling or rotation.
    Paint(resvg::Tree, Pixmap),
    /// Nothing: this is the image, or the reason why there is none.
    Done(Result<Vec<u8>, RenderSvgError>),
}

/// The action that each event calls for.
///
/// - At the beginning the data is to be parsed.
/// - Data that usvg refuses ends in a parse error, which holds usvg's
///   reason.  A document is to be prepared, as it is.
/// - A tree whose size cannot be painted ends in an error, which holds
///   that size.  Any other tree is to be painted, as it is, on a blank
///   surface of its size.
/// - A painted surface ends in its PNG encoding, which states the size of
///   the surface.
pub open spec fn decided(event: Event, action: Action) -> bool {
    match event {
        Event::Begin => action is Parse,
        Event::Parsed(Ok(document)) => action == Action::Prepare(document),
        Event::Parsed(Err(complaint)) => action == Action::Done(
            Err(RenderSvgError::ParseError(complaint)),
        ),
        Event::Prepared(tree) => {
            &&& tree_size(tree).width >= 1
            &&& tree_size(tree).height >= 1
            &&& if paintable(tree_size(tree)) {
                &&& action matches Action::Paint(same, surface)
                &&& same == tree
                &&& surface_size(surface) == tree_size(tree)
                &&& blank(surface)
            } else {
                action == Action::Done(
                    Err(RenderSvgError::FailedToCreatePixmap(tree_size(tree))),
                )
            }
        },
        Event::Painted(surface) => {
            &&& action matches Action::Done(Ok(png))
            &&& png@ == png_encoding(surface_pixels(surface), surface_size(surface))
            &&& png_dimensions(png@) == Some(surface_size(surface))
        },
    }
}

/// Reads the size of a render tree, and calls `Size::to_int_size` of
/// tiny-skia to round it to whole pixels.
///
/// Trusted: the result depends on the tree alone; tiny-skia rounds each
/// side to the nearest whole number, and to one where that would be zero.
#[verifier::external_body]
fn pixel_size(tree: &resvg::Tree) -> (size: PixelSize)
    ensures
        size == tree_size(*tree),
        size.width >= 1,
        size.height >= 1,
{
    let size = tree.size.to_int_size();
    PixelSize { width: size.width(), height: size.height() }
}

/// Calls `Pixmap::new` of tiny-skia, which allocates a blank surface.
///
/// Trusted: tiny-skia refuses exactly the sizes that are not
/// `surface_allocatable`; the surface has the size asked for, and all its
/// bytes are zero.  Like every allocation, this one ends the process
/// where memory runs out.
#[verifier::external_body]
fn new_surface(size: PixelSize) -> (surface: Option<Pixmap>)
    ensures
        surface.is_some() == surface_allocatable(size),
        surface matches Some(pixmap) ==> surface_size(pixmap) == size && blank(pixmap),
{
    Pixmap::new(size.width, size.height)
}

/// Calls `Pixmap::encode_png` of tiny-skia, and turns the encoder's error
/// into its message.
///
/// Trusted: the call succeeds on every surface.  The `png` crate refuses
/// a header only for a side of zero or a colour type that does not go
/// with the bit depth, and image data only where its length is not that
/// of the header; tiny-skia hands it a surface with sides of one or more,
/// eight-bit RGBA, and all its pixels.  What is left is writing to a
/// `Vec`, in chunks that the format can hold.  The image depends on the
/// pixels and the size of the surface alone.  It starts with the PNG
/// signature and the header chunk, which holds the width and the height
/// of the surface; so the image states the size of the surface.
#[verifier::external_body]
fn encode_surface(surface: &Pixmap) -> (encoded: Result<Vec<u8>, String>)
    ensures
        encoded.is_ok(),
        encoded matches Ok(png) ==> png@ == png_encoding(
            surface_pixels(*surface),
            surface_size(*surface),
        ),
        encoded matches Ok(png) ==> png_dimensions(png@) == Some(surface_size(*surface)),
{
    match surface.encode_png() {
        Ok(png) => Ok(png),
        Err(error) => Err(error.to_string()),
    }
}

/// What rasterising comes to once the encoder has answered: the image it
/// gives, or its complaint as an error of this library.
pub fn encoder_outcome(encoded: Result<Vec<u8>, String>) -> (outcome: Result<
    Vec<u8>,
    RenderSvgError,
>)
    ensures
        match encoded {
            Ok(png) => outcome == Ok::<Vec<u8>, RenderSvgError>(png),
            Err(message) => outcome == Err::<Vec<u8>, RenderSvgError>(
                RenderSvgError::EncodePngError(message),
            ),
        },
{
    match encoded {
        Ok(png) => Ok(png),
        Err(message) => Err(RenderSvgError::EncodePngError(message)),
    }
}

/// The surface to paint a tree of this size on, or the size as an error
/// where no document can be painted at it.  Nothing is allocated for a
/// size that is refused.
pub fn blank_surface(size: PixelSize) -> (surface: Result<Pixmap, RenderSvgError>)
    ensures
        paintable(size) ==> (surface matches Ok(pixmap) && surface_size(pixmap) == size && blank(
            pixmap,
        )),
        !paintable(size) ==> surface == Err::<Pixmap, RenderSvgError>(
            RenderSvgError::FailedToCreatePixmap(size),
        ),
{
    if size.width == 0 || size.width > MAX_SURFACE_SIDE || size.height == 0 || size.height
        > MAX_SURFACE_SIDE {
        return Err(RenderSvgError::FailedToCreatePixmap(size));
    }
    match new_surface(size) {
        Some(surface) => Ok(surface),
        None => Err(RenderSvgError::FailedToCreatePixmap(size)),
    }
}

/// Render an SVG image to a PNG pixel graphic for display, one step at a
/// time: given what has happened, say what is to be done next.
pub fn render_svg_to_png(event: Event) -> (action: Action)
    ensures
        decided(event, action),
{
    match event {
        Event::Begin => Action::Parse,
        Event::Parsed(Ok(document)) => Action::Prepare(document),
        Event::Parsed(Err(complaint)) => Action::Done(Err(RenderSvgError::ParseError(complaint))),
        Event::Prepared(tree) => {
            let size = pixel_size(&tree);
            match blank_surface(size) {
                Ok(surface) => Action::Paint(tree, surface),
                Err(error) => Action::Done(Err(error)),
            }
        },
        Event::Painted(surface) => Action::Done(encoder_outcome(encode_surface(&surface))),
    }
}

/// Of a tree that is painted, the image states the size: painting keeps
/// the size of the surface, and the encoder states the size of the
/// surface it is given.
pub proof fn lemma_image_states_the_size_of_the_tree(
    tree: resvg::Tree,
    fresh: Pixmap,
    painted: Pixmap,
    png: Vec<u8>,
)
    requires
        decided(Event::Prepared(tree), Action::Paint(tree, fresh)),
        surface_size(painted) == surface_size(fresh),
        decided(Event::Painted(painted), Action::Done(Ok(png))),
    ensures
        png_dimensions(png@) == Some(tree_size(tree)),
        paintable(tree_size(tree)),
{
}

} // verus!
