//! Terminal support for rendering rich documents on text terminals.
//!
//! The crate covers four things: recognising the terminal emulator a process
//! runs in, the features each emulator offers, layering of text styles, and
//! rasterising vector images for terminals that only take pixel graphics.
//! Functions carry contracts, and Verus proves them.  The exception are
//! the few calls into tiny-skia in the `svg` module: what their contracts
//! say is taken on trust, and the comment above each says what that is.

pub mod terminal;
pub mod style;
pub mod theme;
pub mod svg;
