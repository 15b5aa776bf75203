//! The colour themes of the panels, and the vocabulary in which a theme
//! describes the look of a widget.

use vstd::prelude::*;

pub mod light;

verus! {

/// The themes that can be chosen.
#[derive(Debug, Clone, Copy, PartialEq, Eq, Structural)]
pub enum Theme {
    Light,
    Dark,
    Midnight,
}

impl Theme {
    /// Every theme, in the order in which they are offered.
    pub const ALL: [Theme; 3] = [Theme::Light, Theme::Dark, Theme::Midnight];
}

impl Default for Theme {
    /// The theme in force until another is chosen.
    fn default() -> (theme: Theme)
        ensures
            theme == Theme::Dark,
    {
        Theme::Dark
    }
}

/// The strength of one colour channel, between nothing and full.
#[derive(Debug, Clone, Copy, PartialEq, Eq, Structural)]
pub enum Level {
    /// So many 255ths of full strength.
    Byte(u8),
    /// So many hundredths of full strength, at most 100.
    Percent(u8),
}

impl Level {
    /// A level does not exceed full strength.
    pub open spec fn valid(self) -> bool {
        match self {
            Level::Byte(_) => true,
            Level::Percent(p) => p <= 100,
        }
    }
}

/// A colour: red, green, blue and opacity.
#[derive(Debug, Clone, Copy, PartialEq, Eq, Structural)]
pub struct Color {
    pub r: Level,
    pub g: Level,
    pub b: Level,
    pub a: Level,
}

impl Color {
    /// Every channel is at most at full strength.
    pub open spec fn valid(self) -> bool {
        self.r.valid() && self.g.valid() && self.b.valid() && self.a.valid()
    }

    /// The opaque colour with the byte channels given.
    pub open spec fn spec_solid(r: u8, g: u8, b: u8) -> Color {
        Color { r: Level::Byte(r), g: Level::Byte(g), b: Level::Byte(b), a: Level::Percent(100) }
    }

    /// The opaque colour with the byte channels given.
    #[verifier::when_used_as_spec(spec_solid)]
    pub fn solid(r: u8, g: u8, b: u8) -> (color: Color)
        ensures
            color == Color::spec_solid(r, g, b),
            color.valid(),
    {
        Color { r: Level::Byte(r), g: Level::Byte(g), b: Level::Byte(b), a: Level::Percent(100) }
    }

    /// The opaque grey whose channels all stand at `percent` hundredths.
    pub open spec fn spec_grey(percent: u8) -> Color {
        Color {
            r: Level::Percent(percent),
            g: Level::Percent(percent),
            b: Level::Percent(percent),
            a: Level::Percent(100),
        }
    }

    /// The opaque grey whose channels all stand at `percent` hundredths.
    #[verifier::when_used_as_spec(spec_grey)]
    pub fn grey(percent: u8) -> (color: Color)
        ensures
            color == Color::spec_grey(percent),
            percent <= 100 ==> color.valid(),
    {
        Color {
            r: Level::Percent(percent),
            g: Level::Percent(percent),
            b: Level::Percent(percent),
            a: Level::Percent(100),
        }
    }

    /// The same colour with an opacity of `percent` hundredths.
    pub open spec fn spec_faded(self, percent: u8) -> Color {
        Color { a: Level::Percent(percent), ..self }
    }

    /// The same colour with an opacity of `percent` hundredths.
    #[verifier::when_used_as_spec(spec_faded)]
    pub fn faded(self, percent: u8) -> (color: Color)
        ensures
            color == self.spec_faded(percent),
            self.valid() && percent <= 100 ==> color.valid(),
    {
        Color { a: Level::Percent(percent), ..self }
    }

    /// Black.
    pub open spec fn spec_black() -> Color {
        Color::spec_solid(0, 0, 0)
    }

    /// Black.
    #[verifier::when_used_as_spec(spec_black)]
    pub fn black() -> (color: Color)
        ensures
            color == Color::spec_black(),
            color.valid(),
    {
        Color::solid(0, 0, 0)
    }

    /// White.
    pub open spec fn spec_white() -> Color {
        Color::spec_solid(255, 255, 255)
    }

    /// White.
    #[verifier::when_used_as_spec(spec_white)]
    pub fn white() -> (color: Color)
        ensures
            color == Color::spec_white(),
            color.valid(),
    {
        Color::solid(255, 255, 255)
    }

    /// Black without any opacity.
    pub open spec fn spec_transparent() -> Color {
        Color::spec_solid(0, 0, 0).spec_faded(0)
    }

    /// Black without any opacity.
    #[verifier::when_used_as_spec(spec_transparent)]
    pub fn transparent() -> (color: Color)
        ensures
            color == Color::spec_transparent(),
            color.valid(),
    {
        Color::solid(0, 0, 0).faded(0)
    }
}

/// The look of a container.
#[derive(Debug, Clone, Copy, PartialEq, Eq, Structural)]
pub struct ContainerStyle {
    pub text_color: Option<Color>,
    pub background: Option<Color>,
    pub border_radius: u8,
    pub border_width: u8,
    pub border_color: Color,
}

/// The look of a radio button.
#[derive(Debug, Clone, Copy, PartialEq, Eq, Structural)]
pub struct RadioStyle {
    pub background: Color,
    pub dot_color: Color,
    pub border_width: u8,
    pub border_color: Color,
}

/// The look of a text input.
#[derive(Debug, Clone, Copy, PartialEq, Eq, Structural)]
pub struct TextInputStyle {
    pub background: Color,
    pub border_radius: u8,
    pub border_width: u8,
    pub border_color: Color,
}

/// The look of a button.
#[derive(Debug, Clone, Copy, PartialEq, Eq, Structural)]
pub struct ButtonStyle {
    pub background: Option<Color>,
    pub border_radius: u8,
    pub border_width: u8,
    pub border_color: Color,
    pub text_color: Color,
}

/// The look of the part of a scrollbar that moves.
#[derive(Debug, Clone, Copy, PartialEq, Eq, Structural)]
pub struct ScrollerStyle {
    pub color: Color,
    pub border_radius: u8,
    pub border_width: u8,
    pub border_color: Color,
}

/// The look of a scrollbar.
#[derive(Debug, Clone, Copy, PartialEq, Eq, Structural)]
pub struct ScrollbarStyle {
    pub background: Option<Color>,
    pub border_radius: u8,
    pub border_width: u8,
    pub border_color: Color,
    pub scroller: ScrollerStyle,
}

/// The look of a slider's round handle.
#[derive(Debug, Clone, Copy, PartialEq, Eq, Structural)]
pub struct HandleStyle {
    pub radius: u8,
    pub color: Color,
    pub border_width: u8,
    pub border_color: Color,
}

/// The look of a slider.
#[derive(Debug, Clone, Copy, PartialEq, Eq)]
pub struct SliderStyle {
    pub rail_colors: (Color, Color),
    pub handle: HandleStyle,
}

/// The look of a progress bar.
#[derive(Debug, Clone, Copy, PartialEq, Eq, Structural)]
pub struct ProgressBarStyle {
    pub background: Color,
    pub bar: Color,
    pub border_radius: u8,
}

/// The look of a checkbox.
#[derive(Debug, Clone, Copy, PartialEq, Eq, Structural)]
pub struct CheckboxStyle {
    pub background: Color,
    pub checkmark_color: Color,
    pub border_radius: u8,
    pub border_width: u8,
    pub border_color: Color,
}

/// The look of a toggler.
#[derive(Debug, Clone, Copy, PartialEq, Eq, Structural)]
pub struct TogglerStyle {
    pub background: Color,
    pub background_border: Option<Color>,
    pub foreground: Color,
    pub foreground_border: Option<Color>,
}

/// The look of a dividing rule, which leaves `padding` free at both ends.
#[derive(Debug, Clone, Copy, PartialEq, Eq, Structural)]
pub struct RuleStyle {
    pub color: Color,
    pub width: u16,
    pub radius: u8,
    pub padding: u16,
}

} // verus!
