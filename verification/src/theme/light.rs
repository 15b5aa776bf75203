//! The light theme: its palette, and the look it gives to each widget in
//! each of the widget's states.

use crate::theme::{
    ButtonStyle, CheckboxStyle, Color, ContainerStyle, HandleStyle, ProgressBarStyle, RadioStyle,
    RuleStyle, ScrollbarStyle, ScrollerStyle, SliderStyle, TextInputStyle, TogglerStyle,
};
use vstd::prelude::*;

verus! {

/// The named colours of the light theme.
#[derive(Debug, Clone, Copy, PartialEq, Eq, Structural)]
pub enum Tone {
    Surface,
    Accent,
    Active,
    Hovered,
    Background,
}

impl Tone {
    /// The colour that a name stands for.
    pub open spec fn shade(self) -> Color {
        match self {
            Tone::Surface => Color::spec_solid(0xFF, 0xFF, 0xFF),
            Tone::Accent => Color::spec_solid(0x29, 0xB6, 0xF6),
            Tone::Active => Color::spec_solid(0x03, 0xA9, 0xF4),
            Tone::Hovered => Color::spec_solid(0x03, 0x9B, 0xE5),
            Tone::Background => Color::spec_solid(0xFF, 0xFF, 0xFF),
        }
    }

    /// The colour that a name stands for.
    pub fn color(self) -> (color: Color)
        ensures
            color == self.shade(),
            color.valid(),
    {
        match self {
            Tone::Surface => Color::solid(0xFF, 0xFF, 0xFF),
            Tone::Accent => Color::solid(0x29, 0xB6, 0xF6),
            Tone::Active => Color::solid(0x03, 0xA9, 0xF4),
            Tone::Hovered => Color::solid(0x03, 0x9B, 0xE5),
            Tone::Background => Color::solid(0xFF, 0xFF, 0xFF),
        }
    }
}

/// Every colour that the light theme paints with is a colour: no channel
/// and no opacity exceeds full strength.
pub proof fn lemma_light_colours_valid(tone: Tone, on: bool)
    ensures
        tone.shade().valid(),
        tone.shade().spec_faded(10).valid(),
        tone.shade().spec_faded(30).valid(),
        tone.shade().spec_faded(50).valid(),
        tone.shade().spec_faded(80).valid(),
        body_shade(on).valid(),
        Color::spec_grey(40).valid(),
        Color::spec_grey(85).valid(),
        Color::spec_black().valid(),
        Color::spec_white().spec_faded(50).valid(),
        Color::spec_transparent().valid(),
{
}

/// The colour of a two-state widget's body: the active tone while the widget
/// is switched on, the surface tone while it is off.
pub open spec fn body_shade(on: bool) -> Color {
    if on {
        Tone::Active.shade()
    } else {
        Tone::Surface.shade()
    }
}

/// The look of containers: the panes behind everything else.
pub struct Container;

impl Container {
    /// The one look there is.
    pub open spec fn look() -> ContainerStyle {
        ContainerStyle {
            text_color: Some(Color::spec_black()),
            background: Some(Tone::Background.shade()),
            border_radius: 0,
            border_width: 0,
            border_color: Color::spec_transparent(),
        }
    }

    /// Black text on the background tone, without a border.
    pub fn style(&self) -> (style: ContainerStyle)
        ensures
            style == Container::look(),
    {
        ContainerStyle {
            text_color: Some(Color::black()),
            background: Some(Tone::Background.color()),
            border_radius: 0,
            border_width: 0,
            border_color: Color::transparent(),
        }
    }
}

/// The look of radio buttons.
pub struct Radio;

impl Radio {
    /// The look in the state given.
    pub open spec fn look(hovered: bool) -> RadioStyle {
        RadioStyle {
            background: if hovered {
                Tone::Surface.shade().spec_faded(50)
            } else {
                Tone::Surface.shade()
            },
            dot_color: Tone::Active.shade(),
            border_width: 2,
            border_color: Tone::Active.shade(),
        }
    }

    /// The look of the widget at rest.
    pub fn active(&self) -> (style: RadioStyle)
        ensures
            style == Radio::look(false),
    {
        RadioStyle {
            background: Tone::Surface.color(),
            dot_color: Tone::Active.color(),
            border_width: 2,
            border_color: Tone::Active.color(),
        }
    }

    /// As `active`, on a half transparent surface.
    pub fn hovered(&self) -> (style: RadioStyle)
        ensures
            style == Radio::look(true),
    {
        RadioStyle { background: Tone::Surface.color().faded(50), ..self.active() }
    }
}

/// The states in which a text input is painted.
#[derive(Debug, Clone, Copy, PartialEq, Eq, Structural)]
pub enum InputState {
    Active,
    Focused,
    Hovered,
}

/// The look of text inputs.
pub struct TextInput;

impl TextInput {
    /// The look in the state given.
    pub open spec fn look(state: InputState) -> TextInputStyle {
        TextInputStyle {
            background: Tone::Surface.shade(),
            border_radius: 2,
            border_width: if state == InputState::Active {
                0
            } else {
                1
            },
            border_color: match state {
                InputState::Active => Color::spec_transparent(),
                InputState::Focused => Tone::Accent.shade(),
                InputState::Hovered => Tone::Accent.shade().spec_faded(30),
            },
        }
    }

    /// The look of the widget at rest.
    pub fn active(&self) -> (style: TextInputStyle)
        ensures
            style == TextInput::look(InputState::Active),
    {
        TextInputStyle {
            background: Tone::Surface.color(),
            border_radius: 2,
            border_width: 0,
            border_color: Color::transparent(),
        }
    }

    /// As `active`, with a thin border in the accent tone.
    pub fn focused(&self) -> (style: TextInputStyle)
        ensures
            style == TextInput::look(InputState::Focused),
    {
        TextInputStyle { border_width: 1, border_color: Tone::Accent.color(), ..self.active() }
    }

    /// As `focused`, with the border mostly transparent.
    pub fn hovered(&self) -> (style: TextInputStyle)
        ensures
            style == TextInput::look(InputState::Hovered),
    {
        TextInputStyle {
            border_width: 1,
            border_color: Tone::Accent.color().faded(30),
            ..self.focused()
        }
    }

    /// The colour of the hint shown in an empty input: a dark grey.
    pub fn placeholder_color(&self) -> (color: Color)
        ensures
            color == Color::spec_grey(40),
    {
        Color::grey(40)
    }

    /// The colour of the text typed in.
    pub fn value_color(&self) -> (color: Color)
        ensures
            color == Color::spec_white(),
    {
        Color::white()
    }

    /// The colour behind selected text.
    pub fn selection_color(&self) -> (color: Color)
        ensures
            color == Tone::Active.shade(),
    {
        Tone::Active.color()
    }
}

/// The states in which a button is painted.
#[derive(Debug, Clone, Copy, PartialEq, Eq, Structural)]
pub enum ButtonState {
    Active,
    Hovered,
    Pressed,
}

/// The look of buttons.
pub struct Button;

impl Button {
    /// The look in the state given.
    pub open spec fn look(state: ButtonState) -> ButtonStyle {
        ButtonStyle {
            background: Some(
                if state == ButtonState::Active {
                    Tone::Active.shade()
                } else {
                    Tone::Hovered.shade()
                },
            ),
            border_radius: 5,
            border_width: if state == ButtonState::Pressed {
                1
            } else {
                0
            },
            border_color: if state == ButtonState::Pressed {
                Tone::Accent.shade()
            } else {
                Color::spec_transparent()
            },
            text_color: Color::spec_white(),
        }
    }

    /// The look of the widget at rest.
    pub fn active(&self) -> (style: ButtonStyle)
        ensures
            style == Button::look(ButtonState::Active),
    {
        ButtonStyle {
            background: Some(Tone::Active.color()),
            border_radius: 5,
            border_width: 0,
            border_color: Color::transparent(),
            text_color: Color::white(),
        }
    }

    /// As `active`, in the hovered tone.
    pub fn hovered(&self) -> (style: ButtonStyle)
        ensures
            style == Button::look(ButtonState::Hovered),
    {
        ButtonStyle { background: Some(Tone::Hovered.color()), ..self.active() }
    }

    /// As `hovered`, with a thin border in the accent tone.
    pub fn pressed(&self) -> (style: ButtonStyle)
        ensures
            style == Button::look(ButtonState::Pressed),
    {
        ButtonStyle { border_width: 1, border_color: Tone::Accent.color(), ..self.hovered() }
    }
}

/// The states in which a scrollbar or a slider is painted.
#[derive(Debug, Clone, Copy, PartialEq, Eq, Structural)]
pub enum GripState {
    Active,
    Hovered,
    Dragging,
}

/// The look of scrollbars.
pub struct Scrollable;

impl Scrollable {
    /// The look in the state given.
    pub open spec fn look(state: GripState) -> ScrollbarStyle {
        ScrollbarStyle {
            background: Some(
                if state == GripState::Active {
                    Tone::Surface.shade()
                } else {
                    Tone::Surface.shade().spec_faded(50)
                },
            ),
            border_radius: 2,
            border_width: 0,
            border_color: Color::spec_transparent(),
            scroller: ScrollerStyle {
                color: match state {
                    GripState::Active => Tone::Active.shade(),
                    GripState::Hovered => Tone::Hovered.shade(),
                    GripState::Dragging => Tone::Accent.shade(),
                },
                border_radius: 2,
                border_width: 0,
                border_color: Color::spec_transparent(),
            },
        }
    }

    /// The look of the widget at rest.
    pub fn active(&self) -> (style: ScrollbarStyle)
        ensures
            style == Scrollable::look(GripState::Active),
    {
        ScrollbarStyle {
            background: Some(Tone::Surface.color()),
            border_radius: 2,
            border_width: 0,
            border_color: Color::transparent(),
            scroller: ScrollerStyle {
                color: Tone::Active.color(),
                border_radius: 2,
                border_width: 0,
                border_color: Color::transparent(),
            },
        }
    }

    /// As `active`, on a half transparent surface, the scroller in the
    /// hovered tone.
    pub fn hovered(&self) -> (style: ScrollbarStyle)
        ensures
            style == Scrollable::look(GripState::Hovered),
    {
        let active = self.active();
        ScrollbarStyle {
            background: Some(Tone::Surface.color().faded(50)),
            scroller: ScrollerStyle { color: Tone::Hovered.color(), ..active.scroller },
            ..active
        }
    }

    /// As `hovered`, the scroller in the accent tone.
    pub fn dragging(&self) -> (style: ScrollbarStyle)
        ensures
            style == Scrollable::look(GripState::Dragging),
    {
        let hovered = self.hovered();
        ScrollbarStyle {
            scroller: ScrollerStyle { color: Tone::Accent.color(), ..hovered.scroller },
            ..hovered
        }
    }
}

/// The look of sliders.
pub struct Slider;

impl Slider {
    /// The look in the state given.
    pub open spec fn look(state: GripState) -> SliderStyle {
        SliderStyle {
            rail_colors: (Tone::Active.shade(), Tone::Active.shade().spec_faded(10)),
            handle: HandleStyle {
                radius: 9,
                color: match state {
                    GripState::Active => Tone::Active.shade(),
                    GripState::Hovered => Tone::Hovered.shade(),
                    GripState::Dragging => Color::spec_grey(85),
                },
                border_width: 0,
                border_color: Color::spec_transparent(),
            },
        }
    }

    /// The look of the widget at rest.
    pub fn active(&self) -> (style: SliderStyle)
        ensures
            style == Slider::look(GripState::Active),
    {
        SliderStyle {
            rail_colors: (Tone::Active.color(), Tone::Active.color().faded(10)),
            handle: HandleStyle {
                radius: 9,
                color: Tone::Active.color(),
                border_width: 0,
                border_color: Color::transparent(),
            },
        }
    }

    /// As `active`, the handle in the hovered tone.
    pub fn hovered(&self) -> (style: SliderStyle)
        ensures
            style == Slider::look(GripState::Hovered),
    {
        let active = self.active();
        SliderStyle {
            handle: HandleStyle { color: Tone::Hovered.color(), ..active.handle },
            ..active
        }
    }

    /// As `active`, the handle in a light grey.
    pub fn dragging(&self) -> (style: SliderStyle)
        ensures
            style == Slider::look(GripState::Dragging),
    {
        let active = self.active();
        SliderStyle { handle: HandleStyle { color: Color::grey(85), ..active.handle }, ..active }
    }
}

/// The look of progress bars.
pub struct ProgressBar;

impl ProgressBar {
    /// The one look there is.
    pub open spec fn look() -> ProgressBarStyle {
        ProgressBarStyle {
            background: Tone::Surface.shade(),
            bar: Tone::Active.shade(),
            border_radius: 10,
        }
    }

    /// The look of the widget.
    pub fn style(&self) -> (style: ProgressBarStyle)
        ensures
            style == ProgressBar::look(),
    {
        ProgressBarStyle {
            background: Tone::Surface.color(),
            bar: Tone::Active.color(),
            border_radius: 10,
        }
    }
}

/// The look of checkboxes.
pub struct Checkbox;

impl Checkbox {
    /// The look in the state given.
    pub open spec fn look(is_checked: bool, hovered: bool) -> CheckboxStyle {
        CheckboxStyle {
            background: if hovered {
                body_shade(is_checked).spec_faded(80)
            } else {
                body_shade(is_checked)
            },
            checkmark_color: Tone::Surface.shade(),
            border_radius: 2,
            border_width: 1,
            border_color: Tone::Active.shade(),
        }
    }

    /// The look of the widget at rest.
    pub fn active(&self, is_checked: bool) -> (style: CheckboxStyle)
        ensures
            style == Checkbox::look(is_checked, false),
    {
        CheckboxStyle {
            background: if is_checked {
                Tone::Active.color()
            } else {
                Tone::Surface.color()
            },
            checkmark_color: Tone::Surface.color(),
            border_radius: 2,
            border_width: 1,
            border_color: Tone::Active.color(),
        }
    }

    /// As `active`, the body slightly transparent.
    pub fn hovered(&self, is_checked: bool) -> (style: CheckboxStyle)
        ensures
            style == Checkbox::look(is_checked, true),
    {
        let body = if is_checked {
            Tone::Active.color()
        } else {
            Tone::Surface.color()
        };
        CheckboxStyle { background: body.faded(80), ..self.active(is_checked) }
    }
}

/// The look of togglers.
pub struct Toggler;

impl Toggler {
    /// The look in the state given.
    pub open spec fn look(is_active: bool, hovered: bool) -> TogglerStyle {
        let knob = if is_active {
            Color::spec_white()
        } else {
            Tone::Active.shade()
        };
        TogglerStyle {
            background: body_shade(is_active),
            background_border: None,
            foreground: if hovered {
                knob.spec_faded(50)
            } else {
                knob
            },
            foreground_border: None,
        }
    }

    /// The look of the widget at rest.
    pub fn active(&self, is_active: bool) -> (style: TogglerStyle)
        ensures
            style == Toggler::look(is_active, false),
    {
        TogglerStyle {
            background: if is_active {
                Tone::Active.color()
            } else {
                Tone::Surface.color()
            },
            background_border: None,
            foreground: if is_active {
                Color::white()
            } else {
                Tone::Active.color()
            },
            foreground_border: None,
        }
    }

    /// As `active`, the knob half transparent.
    pub fn hovered(&self, is_active: bool) -> (style: TogglerStyle)
        ensures
            style == Toggler::look(is_active, true),
    {
        TogglerStyle {
            background: if is_active {
                Tone::Active.color()
            } else {
                Tone::Surface.color()
            },
            background_border: None,
            foreground: if is_active {
                Color::white().faded(50)
            } else {
                Tone::Active.color().faded(50)
            },
            foreground_border: None,
        }
    }
}

/// The look of dividing rules.
pub struct Rule;

impl Rule {
    /// The one look there is.
    pub open spec fn look() -> RuleStyle {
        RuleStyle { color: Tone::Surface.shade(), width: 2, radius: 1, padding: 15 }
    }

    /// The look of the widget.
    pub fn style(&self) -> (style: RuleStyle)
        ensures
            style == Rule::look(),
    {
        RuleStyle { color: Tone::Surface.color(), width: 2, radius: 1, padding: 15 }
    }
}

} // verus!
