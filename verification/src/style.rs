//! The style an icon is painted with.

use ansi_term::Colour;
use vstd::prelude::*;

verus! {

/// A terminal colour of `ansi_term`. Nothing here looks inside one: a colour
/// is only ever moved from the style of a name to the style of its icon.
#[verifier::external_type_specification]
#[verifier::external_body]
pub struct ExColour(ansi_term::Colour);

/// How a piece of text is painted: its two colours and its text attributes.
/// The fields are those of `ansi_term`'s style.
#[derive(Clone, Copy, Debug, PartialEq)]
pub struct Style {
    pub foreground: Option<Colour>,
    pub background: Option<Colour>,
    pub is_bold: bool,
    pub is_dimmed: bool,
    pub is_italic: bool,
    pub is_underline: bool,
    pub is_blink: bool,
    pub is_reverse: bool,
    pub is_hidden: bool,
    pub is_strikethrough: bool,
}

impl Style {
    /// The style that changes nothing: no colour and no attribute.
    pub open spec fn unstyled() -> Style {
        Style {
            foreground: None,
            background: None,
            is_bold: false,
            is_dimmed: false,
            is_italic: false,
            is_underline: false,
            is_blink: false,
            is_reverse: false,
            is_hidden: false,
            is_strikethrough: false,
        }
    }

    /// The style that paints in `colour` and does nothing else.
    pub open spec fn painted(colour: Colour) -> Style {
        Style { foreground: Some(colour), ..Style::unstyled() }
    }

    /// True when no text attribute is set.
    pub open spec fn has_no_attributes(self) -> bool {
        &&& !self.is_bold
        &&& !self.is_dimmed
        &&& !self.is_italic
        &&& !self.is_underline
        &&& !self.is_blink
        &&& !self.is_reverse
        &&& !self.is_hidden
        &&& !self.is_strikethrough
    }
}

/// `ansi_term`'s `Style::from(colour)`, which is `colour.normal()`: the style
/// whose foreground is `colour`, with no background and every attribute off.
#[verifier::external_body]
fn style_of_colour(colour: Colour) -> (style: Style)
    ensures
        style == Style::painted(colour),
{
    let s = ansi_term::Style::from(colour);
    Style {
        foreground: s.foreground,
        background: s.background,
        is_bold: s.is_bold,
        is_dimmed: s.is_dimmed,
        is_italic: s.is_italic,
        is_underline: s.is_underline,
        is_blink: s.is_blink,
        is_reverse: s.is_reverse,
        is_hidden: s.is_hidden,
        is_strikethrough: s.is_strikethrough,
    }
}

/// `ansi_term`'s `Style::default()`: no colour, and every attribute off.
#[verifier::external_body]
fn default_style() -> (style: Style)
    ensures
        style == Style::unstyled(),
{
    let s = ansi_term::Style::default();
    Style {
        foreground: s.foreground,
        background: s.background,
        is_bold: s.is_bold,
        is_dimmed: s.is_dimmed,
        is_italic: s.is_italic,
        is_underline: s.is_underline,
        is_blink: s.is_blink,
        is_reverse: s.is_reverse,
        is_hidden: s.is_hidden,
        is_strikethrough: s.is_strikethrough,
    }
}

/// The style of the icon that goes with a name painted in `style`.
///
/// The icon takes one colour from the name: the background where there is
/// one, as the more striking of the two, else the foreground. It takes no
/// attribute: bold or underline would only distort a glyph.
pub open spec fn iconified(style: Style) -> Style {
    match style.background {
        Some(colour) => Style::painted(colour),
        None => match style.foreground {
            Some(colour) => Style::painted(colour),
            None => Style::unstyled(),
        },
    }
}

/// Turns the style that a file name is painted with into the style for its
/// icon.
///
/// The result is [`iconified`]; the clauses after the first spell out what
/// that means for each kind of style.
pub fn iconify_style(style: Style) -> (icon: Style)
    ensures
        icon == iconified(style),
        // A background decides, whatever else the style holds.
        style.background is Some ==> icon.foreground == style.background,
        // Without one the foreground does.
        style.background is None && style.foreground is Some ==> icon.foreground
            == style.foreground,
        // With neither the icon is not styled at all.
        style.background is None && style.foreground is None ==> icon == Style::unstyled(),
        // The icon never has a background of its own, nor any attribute.
        icon.background is None,
        icon.has_no_attributes(),
{
    match style.background {
        Some(colour) => style_of_colour(colour),
        None => match style.foreground {
            Some(colour) => style_of_colour(colour),
            None => default_style(),
        },
    }
}

/// A style has one icon style: whatever two calls of [`iconify_style`] return
/// for the same style is the same.
pub proof fn lemma_iconify_style_is_a_function(style: Style, icon_a: Style, icon_b: Style)
    requires
        call_ensures(iconify_style, (style,), icon_a),
        call_ensures(iconify_style, (style,), icon_b),
    ensures
        icon_a == icon_b,
{
}

/// The style of an icon is its own icon style: to derive it a second time
/// changes nothing.
pub proof fn lemma_iconified_twice(style: Style)
    ensures
        iconified(iconified(style)) == iconified(style),
{
}

} // verus!
