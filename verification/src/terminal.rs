//! Terminal emulators and what they can display.

pub mod capabilities;
pub mod detect;

pub use capabilities::{
    ImageCapability, LinkCapability, MarkCapability, StyleCapability, TerminalCapabilities,
};
pub use detect::TerminalProgram;
