use audiolizer::theme::light::{
    Button, Checkbox, Container, ProgressBar, Radio, Rule, Scrollable, Slider, TextInput, Toggler,
    Tone,
};
use audiolizer::theme::{Color, Level, Theme};

fn full(r: u8, g: u8, b: u8) -> Color {
    Color { r: Level::Byte(r), g: Level::Byte(g), b: Level::Byte(b), a: Level::Percent(100) }
}

fn clear() -> Color {
    Color { a: Level::Percent(0), ..full(0, 0, 0) }
}

#[test]
fn default_theme_is_dark() {
    assert_eq!(Theme::default(), Theme::Dark);
}

#[test]
fn all_themes_in_order() {
    assert_eq!(Theme::ALL, [Theme::Light, Theme::Dark, Theme::Midnight]);
}

#[test]
fn colour_constructors() {
    assert_eq!(Color::solid(1, 2, 3), full(1, 2, 3));
    assert_eq!(Color::black(), full(0, 0, 0));
    assert_eq!(Color::white(), full(255, 255, 255));
    assert_eq!(Color::transparent(), clear());
    assert_eq!(
        Color::grey(40),
        Color {
            r: Level::Percent(40),
            g: Level::Percent(40),
            b: Level::Percent(40),
            a: Level::Percent(100)
        }
    );
    assert_eq!(full(9, 8, 7).faded(30), Color { a: Level::Percent(30), ..full(9, 8, 7) });
}

#[test]
fn light_palette() {
    assert_eq!(Tone::Surface.color(), full(0xFF, 0xFF, 0xFF));
    assert_eq!(Tone::Accent.color(), full(0x29, 0xB6, 0xF6));
    assert_eq!(Tone::Active.color(), full(0x03, 0xA9, 0xF4));
    assert_eq!(Tone::Hovered.color(), full(0x03, 0x9B, 0xE5));
    assert_eq!(Tone::Background.color(), full(0xFF, 0xFF, 0xFF));
}

#[test]
fn light_container() {
    let style = Container.style();
    assert_eq!(style.text_color, Some(full(0, 0, 0)));
    assert_eq!(style.background, Some(full(255, 255, 255)));
    assert_eq!((style.border_radius, style.border_width), (0, 0));
    assert_eq!(style.border_color, clear());
}

#[test]
fn light_radio() {
    let active = Radio.active();
    assert_eq!(active.background, Tone::Surface.color());
    assert_eq!(active.dot_color, Tone::Active.color());
    assert_eq!(active.border_width, 2);
    assert_eq!(active.border_color, Tone::Active.color());
    let hovered = Radio.hovered();
    assert_eq!(hovered.background, Tone::Surface.color().faded(50));
    assert_eq!(hovered.dot_color, active.dot_color);
    assert_eq!(hovered.border_width, 2);
}

#[test]
fn light_text_input() {
    let active = TextInput.active();
    assert_eq!(active.background, Tone::Surface.color());
    assert_eq!((active.border_radius, active.border_width), (2, 0));
    assert_eq!(active.border_color, clear());
    let focused = TextInput.focused();
    assert_eq!((focused.border_radius, focused.border_width), (2, 1));
    assert_eq!(focused.border_color, Tone::Accent.color());
    let hovered = TextInput.hovered();
    assert_eq!(hovered.border_width, 1);
    assert_eq!(hovered.border_color, Tone::Accent.color().faded(30));
    assert_eq!(hovered.background, Tone::Surface.color());
    assert_eq!(TextInput.placeholder_color(), Color::grey(40));
    assert_eq!(TextInput.value_color(), Color::white());
    assert_eq!(TextInput.selection_color(), Tone::Active.color());
}

#[test]
fn light_button() {
    let active = Button.active();
    assert_eq!(active.background, Some(Tone::Active.color()));
    assert_eq!((active.border_radius, active.border_width), (5, 0));
    assert_eq!(active.text_color, Color::white());
    assert_eq!(active.border_color, clear());
    let hovered = Button.hovered();
    assert_eq!(hovered.background, Some(Tone::Hovered.color()));
    assert_eq!(hovered.border_width, 0);
    let pressed = Button.pressed();
    assert_eq!(pressed.background, Some(Tone::Hovered.color()));
    assert_eq!((pressed.border_radius, pressed.border_width), (5, 1));
    assert_eq!(pressed.border_color, Tone::Accent.color());
    assert_eq!(pressed.text_color, Color::white());
}

#[test]
fn light_scrollable() {
    let active = Scrollable.active();
    assert_eq!(active.background, Some(Tone::Surface.color()));
    assert_eq!((active.border_radius, active.border_width), (2, 0));
    assert_eq!(active.scroller.color, Tone::Active.color());
    assert_eq!((active.scroller.border_radius, active.scroller.border_width), (2, 0));
    let hovered = Scrollable.hovered();
    assert_eq!(hovered.background, Some(Tone::Surface.color().faded(50)));
    assert_eq!(hovered.scroller.color, Tone::Hovered.color());
    let dragging = Scrollable.dragging();
    assert_eq!(dragging.background, Some(Tone::Surface.color().faded(50)));
    assert_eq!(dragging.scroller.color, Tone::Accent.color());
    assert_eq!(dragging.scroller.border_color, clear());
}

#[test]
fn light_slider() {
    let active = Slider.active();
    assert_eq!(active.rail_colors, (Tone::Active.color(), Tone::Active.color().faded(10)));
    assert_eq!(active.handle.radius, 9);
    assert_eq!(active.handle.color, Tone::Active.color());
    assert_eq!(active.handle.border_width, 0);
    assert_eq!(active.handle.border_color, clear());
    assert_eq!(Slider.hovered().handle.color, Tone::Hovered.color());
    assert_eq!(Slider.hovered().rail_colors, active.rail_colors);
    assert_eq!(Slider.dragging().handle.color, Color::grey(85));
    assert_eq!(Slider.dragging().handle.radius, 9);
}

#[test]
fn light_progress_bar() {
    let style = ProgressBar.style();
    assert_eq!(style.background, Tone::Surface.color());
    assert_eq!(style.bar, Tone::Active.color());
    assert_eq!(style.border_radius, 10);
}

#[test]
fn light_checkbox() {
    assert_eq!(Checkbox.active(true).background, Tone::Active.color());
    assert_eq!(Checkbox.active(false).background, Tone::Surface.color());
    assert_eq!(Checkbox.hovered(true).background, Tone::Active.color().faded(80));
    assert_eq!(Checkbox.hovered(false).background, Tone::Surface.color().faded(80));
    let style = Checkbox.hovered(true);
    assert_eq!(style.checkmark_color, Tone::Surface.color());
    assert_eq!((style.border_radius, style.border_width), (2, 1));
    assert_eq!(style.border_color, Tone::Active.color());
}

#[test]
fn light_toggler() {
    let on = Toggler.active(true);
    assert_eq!(on.background, Tone::Active.color());
    assert_eq!(on.foreground, Color::white());
    assert_eq!((on.background_border, on.foreground_border), (None, None));
    let off = Toggler.active(false);
    assert_eq!(off.background, Tone::Surface.color());
    assert_eq!(off.foreground, Tone::Active.color());
    assert_eq!(Toggler.hovered(true).foreground, Color::white().faded(50));
    assert_eq!(Toggler.hovered(true).background, Tone::Active.color());
    assert_eq!(Toggler.hovered(false).foreground, Tone::Active.color().faded(50));
    assert_eq!(Toggler.hovered(false).background, Tone::Surface.color());
}

#[test]
fn light_rule() {
    let style = Rule.style();
    assert_eq!(style.color, Tone::Surface.color());
    assert_eq!(style.width, 2);
    assert_eq!(style.radius, 1);
    assert_eq!(style.padding, 15);
}
