//! A colour theme, and how a style is layered over another.

use crate::style::{AnsiColor, Color, Effect, StyleAttributes, StyleModel};
use vstd::prelude::*;

verus! {

/// A colour theme for rendered documents.
///
/// There is one theme so far, the default one.
#[derive(Debug, Clone)]
pub struct Theme {
    /// Style for HTML blocks.
    pub html_block_style: StyleAttributes,
    /// Style for inline HTML.
    pub inline_html_style: StyleAttributes,
    /// Style for code, unless the code is syntax-highlighted.
    pub code_style: StyleAttributes,
    /// Style for links.
    pub link_style: StyleAttributes,
    /// Style for image links, unless the image is rendered inline.
    pub image_link_style: StyleAttributes,
    /// Colour for rulers.
    pub rule_color: Color,
    /// Colour for borders around code blocks.
    pub code_block_border_color: Color,
    /// Style for headings.
    pub heading_style: StyleAttributes,
}

impl Default for Theme {
    /// The default theme: HTML and rulers in green, code in yellow, links
    /// in blue, image links in magenta, and headings in bold blue.
    fn default() -> (theme: Theme)
        ensures
            theme.html_block_style@ == StyleModel::foreground(Color::Ansi(AnsiColor::Green)),
            theme.inline_html_style@ == StyleModel::foreground(Color::Ansi(AnsiColor::Green)),
            theme.code_style@ == StyleModel::foreground(Color::Ansi(AnsiColor::Yellow)),
            theme.link_style@ == StyleModel::foreground(Color::Ansi(AnsiColor::Blue)),
            theme.image_link_style@ == StyleModel::foreground(Color::Ansi(AnsiColor::Magenta)),
            theme.rule_color == Color::Ansi(AnsiColor::Green),
            theme.code_block_border_color == Color::Ansi(AnsiColor::Green),
            theme.heading_style@ == StyleModel::foreground(Color::Ansi(AnsiColor::Blue)).bold(),
    {
        Theme {
            html_block_style: StyleAttributes::new().fg_color(Some(Color::Ansi(AnsiColor::Green))),
            inline_html_style: StyleAttributes::new().fg_color(
                Some(Color::Ansi(AnsiColor::Green)),
            ),
            code_style: StyleAttributes::new().fg_color(Some(Color::Ansi(AnsiColor::Yellow))),
            link_style: StyleAttributes::new().fg_color(Some(Color::Ansi(AnsiColor::Blue))),
            image_link_style: StyleAttributes::new().fg_color(
                Some(Color::Ansi(AnsiColor::Magenta)),
            ),
            rule_color: Color::Ansi(AnsiColor::Green),
            code_block_border_color: Color::Ansi(AnsiColor::Green),
            heading_style: StyleAttributes::new().fg_color(
                Some(Color::Ansi(AnsiColor::Blue)),
            ).bold(),
        }
    }
}

/// Combine styles.
pub trait CombineStyle: Sized {
    /// What this style says.
    spec fn attributes(&self) -> StyleModel;

    /// Put this style on top of the other style.
    ///
    /// Return a new style which falls back to the `other` style for all
    /// colours not set in this style, and which has the effects of both.
    fn on_top_of(self, other: &Self) -> (combined: Self)
        ensures
            combined.attributes() == self.attributes().on_top_of(other.attributes()),
    ;
}

/// `top` if it holds a value, else `bottom`.
fn or_below(top: Option<Color>, bottom: Option<Color>) -> (chosen: Option<Color>)
    ensures
        chosen == crate::style::or_below(top, bottom),
{
    match top {
        Some(_) => top,
        None => bottom,
    }
}

impl CombineStyle for StyleAttributes {
    open spec fn attributes(&self) -> StyleModel {
        self@
    }

    /// Put this style on top of the `other` style.
    fn on_top_of(self, other: &StyleAttributes) -> (combined: StyleAttributes) {
        assert(other.effects@.union(self.effects@) =~= self.effects@.union(other.effects@));
        StyleAttributes::new().fg_color(or_below(self.fg, other.fg)).bg_color(
            or_below(self.bg, other.bg),
        ).effects(other.effects.union(self.effects)).underline_color(
            or_below(self.underline, other.underline),
        )
    }
}

/// A colour that the upper style sets is never overridden by the lower one.
pub proof fn lemma_set_colours_stay_on_top(top: StyleModel, bottom: StyleModel)
    ensures
        top.fg.is_some() ==> top.on_top_of(bottom).fg == top.fg,
        top.bg.is_some() ==> top.on_top_of(bottom).bg == top.bg,
        top.underline.is_some() ==> top.on_top_of(bottom).underline == top.underline,
{
}

/// A colour that the upper style leaves unset comes from the lower one.
pub proof fn lemma_unset_colours_fall_through(top: StyleModel, bottom: StyleModel)
    ensures
        top.fg.is_none() ==> top.on_top_of(bottom).fg == bottom.fg,
        top.bg.is_none() ==> top.on_top_of(bottom).bg == bottom.bg,
        top.underline.is_none() ==> top.on_top_of(bottom).underline == bottom.underline,
{
}

/// An effect of either layer is an effect of the layered style, and the
/// layered style has no other.
pub proof fn lemma_effects_add_up(top: StyleModel, bottom: StyleModel, effect: Effect)
    ensures
        top.on_top_of(bottom).effects.contains(effect) == (top.effects.contains(effect)
            || bottom.effects.contains(effect)),
{
}

/// A style that sets nothing changes nothing, above or below.
pub proof fn lemma_plain_is_neutral(style: StyleModel)
    ensures
        StyleModel::plain().on_top_of(style) == style,
        style.on_top_of(StyleModel::plain()) == style,
{
    assert(Set::<Effect>::empty().union(style.effects) =~= style.effects);
    assert(style.effects.union(Set::<Effect>::empty()) =~= style.effects);
}

/// Layering is not symmetric: where both styles set an attribute, and
/// set it differently, it matters which of them is on top.
pub proof fn lemma_layers_do_not_commute(top: StyleModel, bottom: StyleModel)
    requires
        (top.fg.is_some() && bottom.fg.is_some() && top.fg != bottom.fg) || (top.bg.is_some()
            && bottom.bg.is_some() && top.bg != bottom.bg) || (top.underline.is_some()
            && bottom.underline.is_some() && top.underline != bottom.underline),
    ensures
        top.on_top_of(bottom) != bottom.on_top_of(top),
{
}

} // verus!
