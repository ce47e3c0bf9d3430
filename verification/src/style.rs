//! Text styles: three optional colours and a set of effects.
//!
//! A colour that is not set is inherited from whatever lies below the
//! style.  Effects only ever add up.

use vstd::prelude::*;

verus! {

/// One of the sixteen colours of the ANSI palette.
#[derive(Debug, Copy, Clone, PartialEq, Eq, Structural)]
pub enum AnsiColor {
    Black,
    Red,
    Green,
    Yellow,
    Blue,
    Magenta,
    Cyan,
    White,
    BrightBlack,
    BrightRed,
    BrightGreen,
    BrightYellow,
    BrightBlue,
    BrightMagenta,
    BrightCyan,
    BrightWhite,
}

/// A colour a terminal can show.
#[derive(Debug, Copy, Clone, PartialEq, Eq, Structural)]
pub enum Color {
    /// A colour of the ANSI palette.
    Ansi(AnsiColor),
    /// A colour of the 256-colour palette, by its index.
    Ansi256(u8),
    /// A colour by its red, green and blue parts.
    Rgb(u8, u8, u8),
}

/// A single text effect.
#[derive(Debug, Copy, Clone, PartialEq, Eq, Structural)]
pub enum Effect {
    Bold,
    Dimmed,
    Italic,
    Underline,
    DoubleUnderline,
    CurlyUnderline,
    DottedUnderline,
    DashedUnderline,
    Blink,
    Invert,
    Hidden,
    Strikethrough,
}

impl Effect {
    /// The bit that stands for this effect in a set of effects.
    spec fn flag(self) -> u16 {
        match self {
            Effect::Bold => 0x001,
            Effect::Dimmed => 0x002,
            Effect::Italic => 0x004,
            Effect::Underline => 0x008,
            Effect::DoubleUnderline => 0x010,
            Effect::CurlyUnderline => 0x020,
            Effect::DottedUnderline => 0x040,
            Effect::DashedUnderline => 0x080,
            Effect::Blink => 0x100,
            Effect::Invert => 0x200,
            Effect::Hidden => 0x400,
            Effect::Strikethrough => 0x800,
        }
    }

    /// The bit that stands for this effect in a set of effects.
    fn bit(self) -> (bit: u16)
        ensures
            bit == self.flag(),
    {
        match self {
            Effect::Bold => 0x001,
            Effect::Dimmed => 0x002,
            Effect::Italic => 0x004,
            Effect::Underline => 0x008,
            Effect::DoubleUnderline => 0x010,
            Effect::CurlyUnderline => 0x020,
            Effect::DottedUnderline => 0x040,
            Effect::DashedUnderline => 0x080,
            Effect::Blink => 0x100,
            Effect::Invert => 0x200,
            Effect::Hidden => 0x400,
            Effect::Strikethrough => 0x800,
        }
    }
}

/// Whether `bit` has exactly one of the twelve effect bits set.
spec fn is_flag(bit: u16) -> bool {
    bit == 0x001 || bit == 0x002 || bit == 0x004 || bit == 0x008 || bit == 0x010 || bit == 0x020
        || bit == 0x040 || bit == 0x080 || bit == 0x100 || bit == 0x200 || bit == 0x400 || bit
        == 0x800
}

/// Two effects share their bit only if they are the same effect.
proof fn lemma_flags_apart(a: Effect, b: Effect)
    ensures
        (a.flag() & b.flag() != 0) == (a == b),
{
    let x = a.flag();
    let y = b.flag();
    assert((x & y != 0) == (x == y)) by (bit_vector)
        requires
            is_flag(x) && is_flag(y),
    ;
}

/// A set of text effects, kept as one bit per effect.
#[derive(Debug, Copy, Clone, PartialEq, Eq)]
pub struct Effects {
    bits: u16,
}

impl View for Effects {
    type V = Set<Effect>;

    /// The effects that are switched on.
    closed spec fn view(&self) -> Set<Effect> {
        Set::new(|effect: Effect| self.bits & effect.flag() != 0)
    }
}

impl Effects {
    /// Only the twelve bits that stand for an effect are ever set, so a
    /// set of effects has one way to be written down.
    #[verifier::type_invariant]
    spec fn only_effect_bits(self) -> bool {
        self.bits & 0xf000 == 0
    }

    /// No effect at all.
    pub fn new() -> (effects: Effects)
        ensures
            effects@ == Set::<Effect>::empty(),
    {
        assert(0u16 & 0xf000 == 0) by (bit_vector);
        let effects = Effects { bits: 0 };
        proof {
            assert forall|effect: Effect| !effects@.contains(effect) by {
                let flag = effect.flag();
                assert(0u16 & flag == 0) by (bit_vector);
            }
        }
        effects
    }

    /// Whether `effect` is switched on.
    pub fn contains(&self, effect: Effect) -> (found: bool)
        ensures
            found == self@.contains(effect),
    {
        self.bits & effect.bit() != 0
    }

    /// Whether `self` and `other` are the same set of effects.
    pub fn same(&self, other: &Effects) -> (same: bool)
        ensures
            same == (self@ == other@),
            same == (*self == *other),
    {
        proof {
            use_type_invariant(self);
            use_type_invariant(other);
            if self@ == other@ {
                lemma_view_decides(*self, *other);
            }
        }
        self.bits == other.bits
    }

    /// These effects and `effect`.
    pub fn insert(self, effect: Effect) -> (effects: Effects)
        ensures
            effects@ == self@.insert(effect),
    {
        proof {
            use_type_invariant(&self);
            let bits = self.bits;
            let added = effect.flag();
            assert((bits | added) & 0xf000 == 0) by (bit_vector)
                requires
                    bits & 0xf000 == 0,
                    is_flag(added),
            ;
        }
        let effects = Effects { bits: self.bits | effect.bit() };
        proof {
            assert forall|other: Effect|
                effects@.contains(other) == self@.insert(effect).contains(other) by {
                let bits = self.bits;
                let added = effect.flag();
                let probe = other.flag();
                assert(((bits | added) & probe != 0) == (bits & probe != 0 || added & probe != 0))
                    by (bit_vector);
                lemma_flags_apart(effect, other);
            }
        }
        effects
    }

    /// Every effect that is switched on in `self` or in `other`.
    pub fn union(self, other: Effects) -> (effects: Effects)
        ensures
            effects@ == self@.union(other@),
    {
        proof {
            use_type_invariant(&self);
            use_type_invariant(&other);
            let left = self.bits;
            let right = other.bits;
            assert((left | right) & 0xf000 == 0) by (bit_vector)
                requires
                    left & 0xf000 == 0,
                    right & 0xf000 == 0,
            ;
        }
        let effects = Effects { bits: self.bits | other.bits };
        proof {
            assert forall|effect: Effect|
                effects@.contains(effect) == self@.union(other@).contains(effect) by {
                let left = self.bits;
                let right = other.bits;
                let probe = effect.flag();
                assert(((left | right) & probe != 0) == (left & probe != 0 || right & probe != 0))
                    by (bit_vector);
            }
        }
        effects
    }
}

/// Two sets that hold the same effects are written down with the same bits.
proof fn lemma_view_decides(a: Effects, b: Effects)
    requires
        a.only_effect_bits(),
        b.only_effect_bits(),
        a@ == b@,
    ensures
        a.bits == b.bits,
{
    let x = a.bits;
    let y = b.bits;
    assert((x & 0x001 != 0) == (y & 0x001 != 0)) by {
        assert(a@.contains(Effect::Bold) == (x & Effect::Bold.flag() != 0));
        assert(b@.contains(Effect::Bold) == (y & Effect::Bold.flag() != 0));
    }
    assert((x & 0x002 != 0) == (y & 0x002 != 0)) by {
        assert(a@.contains(Effect::Dimmed) == (x & Effect::Dimmed.flag() != 0));
        assert(b@.contains(Effect::Dimmed) == (y & Effect::Dimmed.flag() != 0));
    }
    assert((x & 0x004 != 0) == (y & 0x004 != 0)) by {
        assert(a@.contains(Effect::Italic) == (x & Effect::Italic.flag() != 0));
        assert(b@.contains(Effect::Italic) == (y & Effect::Italic.flag() != 0));
    }
    assert((x & 0x008 != 0) == (y & 0x008 != 0)) by {
        assert(a@.contains(Effect::Underline) == (x & Effect::Underline.flag() != 0));
        assert(b@.contains(Effect::Underline) == (y & Effect::Underline.flag() != 0));
    }
    assert((x & 0x010 != 0) == (y & 0x010 != 0)) by {
        assert(a@.contains(Effect::DoubleUnderline) == (x & Effect::DoubleUnderline.flag() != 0));
        assert(b@.contains(Effect::DoubleUnderline) == (y & Effect::DoubleUnderline.flag() != 0));
    }
    assert((x & 0x020 != 0) == (y & 0x020 != 0)) by {
        assert(a@.contains(Effect::CurlyUnderline) == (x & Effect::CurlyUnderline.flag() != 0));
        assert(b@.contains(Effect::CurlyUnderline) == (y & Effect::CurlyUnderline.flag() != 0));
    }
    assert((x & 0x040 != 0) == (y & 0x040 != 0)) by {
        assert(a@.contains(Effect::DottedUnderline) == (x & Effect::DottedUnderline.flag() != 0));
        assert(b@.contains(Effect::DottedUnderline) == (y & Effect::DottedUnderline.flag() != 0));
    }
    assert((x & 0x080 != 0) == (y & 0x080 != 0)) by {
        assert(a@.contains(Effect::DashedUnderline) == (x & Effect::DashedUnderline.flag() != 0));
        assert(b@.contains(Effect::DashedUnderline) == (y & Effect::DashedUnderline.flag() != 0));
    }
    assert((x & 0x100 != 0) == (y & 0x100 != 0)) by {
        assert(a@.contains(Effect::Blink) == (x & Effect::Blink.flag() != 0));
        assert(b@.contains(Effect::Blink) == (y & Effect::Blink.flag() != 0));
    }
    assert((x & 0x200 != 0) == (y & 0x200 != 0)) by {
        assert(a@.contains(Effect::Invert) == (x & Effect::Invert.flag() != 0));
        assert(b@.contains(Effect::Invert) == (y & Effect::Invert.flag() != 0));
    }
    assert((x & 0x400 != 0) == (y & 0x400 != 0)) by {
        assert(a@.contains(Effect::Hidden) == (x & Effect::Hidden.flag() != 0));
        assert(b@.contains(Effect::Hidden) == (y & Effect::Hidden.flag() != 0));
    }
    assert((x & 0x800 != 0) == (y & 0x800 != 0)) by {
        assert(a@.contains(Effect::Strikethrough) == (x & Effect::Strikethrough.flag() != 0));
        assert(b@.contains(Effect::Strikethrough) == (y & Effect::Strikethrough.flag() != 0));
    }
    assert(x == y) by (bit_vector)
        requires
            x & 0xf000 == 0,
            y & 0xf000 == 0,
            (x & 0x001 != 0) == (y & 0x001 != 0),
            (x & 0x002 != 0) == (y & 0x002 != 0),
            (x & 0x004 != 0) == (y & 0x004 != 0),
            (x & 0x008 != 0) == (y & 0x008 != 0),
            (x & 0x010 != 0) == (y & 0x010 != 0),
            (x & 0x020 != 0) == (y & 0x020 != 0),
            (x & 0x040 != 0) == (y & 0x040 != 0),
            (x & 0x080 != 0) == (y & 0x080 != 0),
            (x & 0x100 != 0) == (y & 0x100 != 0),
            (x & 0x200 != 0) == (y & 0x200 != 0),
            (x & 0x400 != 0) == (y & 0x400 != 0),
            (x & 0x800 != 0) == (y & 0x800 != 0),
    ;
}

/// What a style says: each colour that it sets, and the effects it adds.
pub struct StyleModel {
    /// The foreground colour, where the style sets one.
    pub fg: Option<Color>,
    /// The background colour, where the style sets one.
    pub bg: Option<Color>,
    /// The colour of underlines, where the style sets one.
    pub underline: Option<Color>,
    /// The effects the style switches on.
    pub effects: Set<Effect>,
}

/// `top` where it is set, else `bottom`.
pub open spec fn or_below<T>(top: Option<T>, bottom: Option<T>) -> Option<T> {
    if top.is_some() {
        top
    } else {
        bottom
    }
}

impl StyleModel {
    /// The style that sets nothing.
    pub open spec fn plain() -> StyleModel {
        StyleModel { fg: None, bg: None, underline: None, effects: Set::empty() }
    }

    /// Nothing but a foreground colour.
    pub open spec fn foreground(color: Color) -> StyleModel {
        StyleModel { fg: Some(color), ..StyleModel::plain() }
    }

    /// This style with bold text.
    pub open spec fn bold(self) -> StyleModel {
        StyleModel { effects: self.effects.insert(Effect::Bold), ..self }
    }

    /// This style painted over `bottom`: each colour is taken from this
    /// style where it sets one and from `bottom` where it does not, and
    /// the effects of both add up.
    pub open spec fn on_top_of(self, bottom: StyleModel) -> StyleModel {
        StyleModel {
            fg: or_below(self.fg, bottom.fg),
            bg: or_below(self.bg, bottom.bg),
            underline: or_below(self.underline, bottom.underline),
            effects: self.effects.union(bottom.effects),
        }
    }
}

/// The attributes of styled text, each of them optional.
#[derive(Debug, Copy, Clone, PartialEq, Eq)]
pub struct StyleAttributes {
    /// The foreground colour, if set.
    pub fg: Option<Color>,
    /// The background colour, if set.
    pub bg: Option<Color>,
    /// The colour of underlines, if set.
    pub underline: Option<Color>,
    /// The effects that are switched on.
    pub effects: Effects,
}

impl View for StyleAttributes {
    type V = StyleModel;

    open spec fn view(&self) -> StyleModel {
        StyleModel {
            fg: self.fg,
            bg: self.bg,
            underline: self.underline,
            effects: self.effects@,
        }
    }
}

impl StyleAttributes {
    /// The style that sets nothing.
    pub fn new() -> (style: StyleAttributes)
        ensures
            style@ == StyleModel::plain(),
    {
        StyleAttributes { fg: None, bg: None, underline: None, effects: Effects::new() }
    }

    /// This style with the foreground colour set or unset.
    pub fn fg_color(self, fg: Option<Color>) -> (style: StyleAttributes)
        ensures
            style@ == (StyleModel { fg, ..self@ }),
    {
        StyleAttributes { fg, ..self }
    }

    /// This style with the background colour set or unset.
    pub fn bg_color(self, bg: Option<Color>) -> (style: StyleAttributes)
        ensures
            style@ == (StyleModel { bg, ..self@ }),
    {
        StyleAttributes { bg, ..self }
    }

    /// This style with the colour of underlines set or unset.
    pub fn underline_color(self, underline: Option<Color>) -> (style: StyleAttributes)
        ensures
            style@ == (StyleModel { underline, ..self@ }),
    {
        StyleAttributes { underline, ..self }
    }

    /// This style with `effects` in place of its own.
    pub fn effects(self, effects: Effects) -> (style: StyleAttributes)
        ensures
            style@ == (StyleModel { effects: effects@, ..self@ }),
    {
        StyleAttributes { effects, ..self }
    }

    /// This style with bold text.
    pub fn bold(self) -> (style: StyleAttributes)
        ensures
            style@ == self@.bold(),
    {
        StyleAttributes { effects: self.effects.insert(Effect::Bold), ..self }
    }
}

} // verus!
