//! The features a terminal offers, one slot per feature.
//!
//! A slot names the protocol by which the feature is driven, or is empty.
//! A capability set is a plain value: every update returns a new set and
//! leaves the one it started from as it was.

use vstd::prelude::*;

verus! {

/// How the terminal styles text.
#[derive(Debug, Copy, Clone, Eq, PartialEq, Structural)]
pub enum StyleCapability {
    /// Styling with ANSI SGR escape sequences.
    Ansi,
}

/// How the terminal marks text as a hyperlink.
#[derive(Debug, Copy, Clone, Eq, PartialEq, Structural)]
pub enum LinkCapability {
    /// Hyperlinks with OSC 8 escape sequences.
    Osc8,
}

/// The protocol by which the terminal shows inline images.
#[derive(Debug, Copy, Clone, Eq, PartialEq, Structural)]
pub enum ImageCapability {
    /// The inline image protocol of iTerm2.
    ITerm2,
    /// The inline image protocol of Terminology.
    Terminology,
    /// The graphics protocol of kitty.
    Kitty,
}

/// How the terminal sets marks in its scrollback buffer.
#[derive(Debug, Copy, Clone, Eq, PartialEq, Structural)]
pub enum MarkCapability {
    /// Marks as iTerm2 understands them.
    ITerm2,
}

/// The capabilities of a terminal.
#[derive(Debug, Copy, Clone, Eq, PartialEq)]
pub struct TerminalCapabilities {
    /// How the terminal styles text, if it does.
    pub style: Option<StyleCapability>,
    /// How the terminal marks hyperlinks, if it does.
    pub links: Option<LinkCapability>,
    /// How the terminal shows inline images, if it does.
    pub image: Option<ImageCapability>,
    /// How the terminal sets scrollback marks, if it does.
    pub marks: Option<MarkCapability>,
}

impl TerminalCapabilities {
    /// The set that offers nothing.
    pub open spec fn none() -> TerminalCapabilities {
        TerminalCapabilities { style: None, links: None, image: None, marks: None }
    }

    /// This set with the style slot filled by `cap`.
    pub fn with_style_capability(self, cap: StyleCapability) -> (updated: TerminalCapabilities)
        ensures
            updated == (TerminalCapabilities { style: Some(cap), ..self }),
    {
        TerminalCapabilities { style: Some(cap), ..self }
    }

    /// This set with the links slot filled by `cap`.
    pub fn with_link_capability(self, cap: LinkCapability) -> (updated: TerminalCapabilities)
        ensures
            updated == (TerminalCapabilities { links: Some(cap), ..self }),
    {
        TerminalCapabilities { links: Some(cap), ..self }
    }

    /// This set with the image slot filled by `cap`.
    pub fn with_image_capability(self, cap: ImageCapability) -> (updated: TerminalCapabilities)
        ensures
            updated == (TerminalCapabilities { image: Some(cap), ..self }),
    {
        TerminalCapabilities { image: Some(cap), ..self }
    }

    /// This set with the marks slot filled by `cap`.
    pub fn with_mark_capability(self, cap: MarkCapability) -> (updated: TerminalCapabilities)
        ensures
            updated == (TerminalCapabilities { marks: Some(cap), ..self }),
    {
        TerminalCapabilities { marks: Some(cap), ..self }
    }
}

impl Default for TerminalCapabilities {
    /// The set that offers nothing, as a dumb terminal does.
    fn default() -> (caps: TerminalCapabilities)
        ensures
            caps == TerminalCapabilities::none(),
    {
        TerminalCapabilities { style: None, links: None, image: None, marks: None }
    }
}

} // verus!
