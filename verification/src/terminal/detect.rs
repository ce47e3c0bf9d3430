//! Recognise the terminal emulator from the values of environment variables.

use crate::terminal::capabilities::{
    ImageCapability, LinkCapability, MarkCapability, StyleCapability, TerminalCapabilities,
};
use vstd::prelude::*;
use vstd::string::StringSliceAdditionalSpecFns;
use vstd::utf8::encode_utf8_decode_utf8;

verus! {

/// A terminal application.
#[derive(Debug, Copy, Clone, Eq, PartialEq, Structural)]
pub enum TerminalProgram {
    /// A dumb terminal which does not support any formatting.
    Dumb,
    /// A plain ANSI terminal which supports only standard ANSI formatting.
    Ansi,
    /// iTerm2, a macOS terminal emulator with inline images, links and marks.
    ITerm2,
    /// Terminology, the terminal emulator of the Enlightenment project.
    Terminology,
    /// kitty, a GPU-based terminal emulator with its own graphics protocol.
    Kitty,
    /// WezTerm, a cross-platform terminal emulator and multiplexer.
    WezTerm,
}

/// The text of an environment variable, where the variable is set.
pub open spec fn text_of(value: Option<&str>) -> Option<Seq<char>> {
    match value {
        Some(text) => Some(text@),
        None => None,
    }
}

impl TerminalProgram {
    /// The name under which each terminal program is shown to people.
    pub open spec fn display_name(self) -> Seq<char> {
        match self {
            TerminalProgram::Dumb => "dumb"@,
            TerminalProgram::Ansi => "ansi"@,
            TerminalProgram::ITerm2 => "iTerm2"@,
            TerminalProgram::Terminology => "Terminology"@,
            TerminalProgram::Kitty => "kitty"@,
            TerminalProgram::WezTerm => "WezTerm"@,
        }
    }

    /// The human-readable name of this terminal program.
    pub fn name(self) -> (name: &'static str)
        ensures
            name@ == self.display_name(),
    {
        match self {
            TerminalProgram::Dumb => "dumb",
            TerminalProgram::Ansi => "ansi",
            TerminalProgram::ITerm2 => "iTerm2",
            TerminalProgram::Terminology => "Terminology",
            TerminalProgram::Kitty => "kitty",
            TerminalProgram::WezTerm => "WezTerm",
        }
    }

    /// The terminal program that `$TERM` names, if it names one.
    pub open spec fn named_by_term(term: Option<Seq<char>>) -> Option<TerminalProgram> {
        if term == Some("xterm-kitty"@) {
            Some(TerminalProgram::Kitty)
        } else if term == Some("wezterm"@) {
            Some(TerminalProgram::WezTerm)
        } else {
            None
        }
    }

    /// The terminal program that `$TERM_PROGRAM` names, if it names one.
    pub open spec fn named_by_term_program(term_program: Option<Seq<char>>) -> Option<
        TerminalProgram,
    > {
        if term_program == Some("WezTerm"@) {
            Some(TerminalProgram::WezTerm)
        } else if term_program == Some("iTerm.app"@) {
            Some(TerminalProgram::ITerm2)
        } else {
            None
        }
    }

    /// Terminology, if `$TERMINOLOGY` is exactly `1`.
    pub open spec fn named_by_terminology(terminology: Option<Seq<char>>) -> Option<
        TerminalProgram,
    > {
        if terminology == Some("1"@) {
            Some(TerminalProgram::Terminology)
        } else {
            None
        }
    }

    /// The terminal program that the three variables point to.  The first
    /// rule that applies decides: `$TERM` goes before `$TERM_PROGRAM`,
    /// which goes before `$TERMINOLOGY`.
    pub open spec fn detected(
        term: Option<Seq<char>>,
        term_program: Option<Seq<char>>,
        terminology: Option<Seq<char>>,
    ) -> TerminalProgram {
        if term == Some("xterm-kitty"@) {
            TerminalProgram::Kitty
        } else if term == Some("wezterm"@) {
            TerminalProgram::WezTerm
        } else if term_program == Some("WezTerm"@) {
            TerminalProgram::WezTerm
        } else if term_program == Some("iTerm.app"@) {
            TerminalProgram::ITerm2
        } else if terminology == Some("1"@) {
            TerminalProgram::Terminology
        } else {
            TerminalProgram::Ansi
        }
    }

    /// Look at the value of `$TERM`.
    fn detect_term(term: Option<&str>) -> (found: Option<TerminalProgram>)
        ensures
            found == TerminalProgram::named_by_term(text_of(term)),
    {
        proof {
            lemma_names_differ();
        }
        match term {
            Some(value) => {
                if same_text(value, "wezterm") {
                    Some(TerminalProgram::WezTerm)
                } else if same_text(value, "xterm-kitty") {
                    Some(TerminalProgram::Kitty)
                } else {
                    None
                }
            },
            None => None,
        }
    }

    /// Look at the value of `$TERM_PROGRAM`.
    fn detect_term_program(term_program: Option<&str>) -> (found: Option<TerminalProgram>)
        ensures
            found == TerminalProgram::named_by_term_program(text_of(term_program)),
    {
        proof {
            lemma_names_differ();
        }
        match term_program {
            Some(value) => {
                if same_text(value, "WezTerm") {
                    Some(TerminalProgram::WezTerm)
                } else if same_text(value, "iTerm.app") {
                    Some(TerminalProgram::ITerm2)
                } else {
                    None
                }
            },
            None => None,
        }
    }

    /// Look at the value of `$TERMINOLOGY`.
    fn detect_terminology(terminology: Option<&str>) -> (found: Option<TerminalProgram>)
        ensures
            found == TerminalProgram::named_by_terminology(text_of(terminology)),
    {
        match terminology {
            Some(value) => {
                if same_text(value, "1") {
                    Some(TerminalProgram::Terminology)
                } else {
                    None
                }
            },
            None => None,
        }
    }

    /// Detect the terminal program from the values of three environment
    /// variables, each `None` where the variable is not set.
    ///
    /// `$TERM` is looked at first: it names the terminfo entry in use and
    /// survives `sudo` and `ssh`, so it is the most reliable of the three.
    /// Terminals without a terminfo entry of their own are recognised by
    /// `$TERM_PROGRAM` and `$TERMINOLOGY`, which are less reliable: they
    /// often get lost on the way, and leak into terminals started from
    /// another terminal.
    ///
    /// # Returns
    ///
    /// - [`TerminalProgram::Kitty`] if `$TERM` is `xterm-kitty`.
    /// - [`TerminalProgram::WezTerm`] if `$TERM` is `wezterm`.
    /// - [`TerminalProgram::WezTerm`] if `$TERM_PROGRAM` is `WezTerm`.
    /// - [`TerminalProgram::ITerm2`] if `$TERM_PROGRAM` is `iTerm.app`.
    /// - [`TerminalProgram::Terminology`] if `$TERMINOLOGY` is `1`.
    /// - [`TerminalProgram::Ansi`] otherwise.
    pub fn detect(
        term: Option<&str>,
        term_program: Option<&str>,
        terminology: Option<&str>,
    ) -> (found: TerminalProgram)
        ensures
            found == TerminalProgram::detected(
                text_of(term),
                text_of(term_program),
                text_of(terminology),
            ),
    {
        proof {
            lemma_names_differ();
        }
        if let Some(program) = TerminalProgram::detect_term(term) {
            return program;
        }
        if let Some(program) = TerminalProgram::detect_term_program(term_program) {
            return program;
        }
        match TerminalProgram::detect_terminology(terminology) {
            Some(program) => program,
            None => TerminalProgram::Ansi,
        }
    }

    /// What each terminal program supports.
    ///
    /// A dumb terminal supports nothing.  Every other program styles text
    /// with ANSI sequences and marks links with OSC 8; beyond that iTerm2
    /// has its image protocol and its marks, Terminology and kitty each
    /// have an image protocol of their own, and WezTerm speaks the image
    /// protocol of iTerm2.
    pub open spec fn supported(self) -> TerminalCapabilities {
        match self {
            TerminalProgram::Dumb => TerminalCapabilities {
                style: None,
                links: None,
                image: None,
                marks: None,
            },
            TerminalProgram::Ansi => TerminalCapabilities {
                style: Some(StyleCapability::Ansi),
                links: Some(LinkCapability::Osc8),
                image: None,
                marks: None,
            },
            TerminalProgram::ITerm2 => TerminalCapabilities {
                style: Some(StyleCapability::Ansi),
                links: Some(LinkCapability::Osc8),
                image: Some(ImageCapability::ITerm2),
                marks: Some(MarkCapability::ITerm2),
            },
            TerminalProgram::Terminology => TerminalCapabilities {
                style: Some(StyleCapability::Ansi),
                links: Some(LinkCapability::Osc8),
                image: Some(ImageCapability::Terminology),
                marks: None,
            },
            TerminalProgram::Kitty => TerminalCapabilities {
                style: Some(StyleCapability::Ansi),
                links: Some(LinkCapability::Osc8),
                image: Some(ImageCapability::Kitty),
                marks: None,
            },
            TerminalProgram::WezTerm => TerminalCapabilities {
                style: Some(StyleCapability::Ansi),
                links: Some(LinkCapability::Osc8),
                image: Some(ImageCapability::ITerm2),
                marks: None,
            },
        }
    }

    /// Get the capabilities of this terminal emulator.
    pub fn capabilities(self) -> (caps: TerminalCapabilities)
        ensures
            caps == self.supported(),
    {
        let ansi = TerminalCapabilities {
            style: Some(StyleCapability::Ansi),
            links: Some(LinkCapability::Osc8),
            image: None,
            marks: None,
        };
        match self {
            TerminalProgram::Dumb => TerminalCapabilities::default(),
            TerminalProgram::Ansi => ansi,
            TerminalProgram::ITerm2 => ansi.with_mark_capability(
                MarkCapability::ITerm2,
            ).with_image_capability(ImageCapability::ITerm2),
            TerminalProgram::Terminology => ansi.with_image_capability(
                ImageCapability::Terminology,
            ),
            TerminalProgram::Kitty => ansi.with_image_capability(ImageCapability::Kitty),
            TerminalProgram::WezTerm => ansi.with_image_capability(ImageCapability::ITerm2),
        }
    }
}

/// Whether two pieces of text are the same, character by character.
fn same_text(left: &str, right: &str) -> (same: bool)
    ensures
        same == (left@ == right@),
{
    let left_bytes = left.as_bytes();
    let right_bytes = right.as_bytes();
    proof {
        // Text can be read back from its bytes, so equal bytes spell equal text.
        encode_utf8_decode_utf8(left@);
        encode_utf8_decode_utf8(right@);
    }
    if left_bytes.len() != right_bytes.len() {
        return false;
    }
    let mut at: usize = 0;
    while at < left_bytes.len()
        invariant
            at <= left_bytes.len(),
            left_bytes.len() == right_bytes.len(),
            left_bytes@ == left.spec_bytes(),
            right_bytes@ == right.spec_bytes(),
            forall|i: int| 0 <= i < at ==> left_bytes@[i] == right_bytes@[i],
        decreases left_bytes.len() - at,
    {
        if left_bytes[at] != right_bytes[at] {
            return false;
        }
        at += 1;
    }
    assert(left_bytes@ =~= right_bytes@);
    true
}

/// The names that one variable is compared with differ from each other.
proof fn lemma_names_differ()
    ensures
        "xterm-kitty"@ != "wezterm"@,
        "WezTerm"@ != "iTerm.app"@,
{
    reveal_strlit("xterm-kitty");
    reveal_strlit("wezterm");
    reveal_strlit("WezTerm");
    reveal_strlit("iTerm.app");
    assert("xterm-kitty"@.len() != "wezterm"@.len());
    assert("WezTerm"@.len() != "iTerm.app"@.len());
}

/// The cascade is the three lookups tried in turn, with ANSI as the last
/// resort.
pub proof fn lemma_lookups_in_turn(
    term: Option<Seq<char>>,
    term_program: Option<Seq<char>>,
    terminology: Option<Seq<char>>,
)
    ensures
        TerminalProgram::detected(term, term_program, terminology) == match (
            TerminalProgram::named_by_term(term),
            TerminalProgram::named_by_term_program(term_program),
            TerminalProgram::named_by_terminology(terminology),
        ) {
            (Some(program), _, _) => program,
            (None, Some(program), _) => program,
            (None, None, Some(program)) => program,
            (None, None, None) => TerminalProgram::Ansi,
        },
{
}

/// A `$TERM` that names a terminal program decides, whatever the other
/// two variables hold: kitty is recognised even inside a shell that
/// iTerm2 has started.
pub proof fn lemma_term_decides(term_program: Option<Seq<char>>, terminology: Option<Seq<char>>)
    ensures
        TerminalProgram::detected(Some("xterm-kitty"@), term_program, terminology)
            == TerminalProgram::Kitty,
        TerminalProgram::detected(Some("wezterm"@), term_program, terminology)
            == TerminalProgram::WezTerm,
{
    lemma_names_differ();
}

/// Where `$TERM` names no terminal program, a `$TERM_PROGRAM` that names
/// one decides, whatever `$TERMINOLOGY` holds.
pub proof fn lemma_term_program_decides(term: Option<Seq<char>>, terminology: Option<Seq<char>>)
    requires
        TerminalProgram::named_by_term(term).is_none(),
    ensures
        TerminalProgram::detected(term, Some("WezTerm"@), terminology) == TerminalProgram::WezTerm,
        TerminalProgram::detected(term, Some("iTerm.app"@), terminology)
            == TerminalProgram::ITerm2,
{
    lemma_names_differ();
}

/// Where neither `$TERM` nor `$TERM_PROGRAM` names a terminal program,
/// the terminal is Terminology if `$TERMINOLOGY` is exactly `1`, and a
/// plain ANSI terminal in every other case.
pub proof fn lemma_terminology_or_ansi(
    term: Option<Seq<char>>,
    term_program: Option<Seq<char>>,
    terminology: Option<Seq<char>>,
)
    requires
        TerminalProgram::named_by_term(term).is_none(),
        TerminalProgram::named_by_term_program(term_program).is_none(),
    ensures
        terminology == Some("1"@) ==> TerminalProgram::detected(term, term_program, terminology)
            == TerminalProgram::Terminology,
        terminology != Some("1"@) ==> TerminalProgram::detected(term, term_program, terminology)
            == TerminalProgram::Ansi,
{
}

/// Detection never takes a terminal for a dumb one.
pub proof fn lemma_never_dumb(
    term: Option<Seq<char>>,
    term_program: Option<Seq<char>>,
    terminology: Option<Seq<char>>,
)
    ensures
        TerminalProgram::detected(term, term_program, terminology) != TerminalProgram::Dumb,
{
}

/// A dumb terminal supports nothing at all, and every other terminal
/// program can at least style text and mark hyperlinks.
pub proof fn lemma_only_dumb_lacks_style_and_links(program: TerminalProgram)
    ensures
        program == TerminalProgram::Dumb ==> program.supported() == TerminalCapabilities::none(),
        program != TerminalProgram::Dumb ==> program.supported().style.is_some()
            && program.supported().links.is_some(),
{
}

} // verus!
