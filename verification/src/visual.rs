//! The visualiser as a whole: the frame of bars, the settings panel, and
//! what each message does to them.

use crate::audio::{init_audio_sender, AudioDevice, CaptureState};
use crate::engine::{startup, startup_config, Config};
use crate::theme::Theme;
use crate::ui::bars::{Bars, BarsView, FrameOp};
use crate::ui::settings::{commands, Command, SettingMessage, Settings};
use vstd::prelude::*;

verus! {

/// The period of the render poller's timer, in milliseconds.
pub const TICK_MILLIS: u64 = 10;

/// The visualiser's state.
pub struct Visual<T> {
    pub theme: Theme,
    pub bars: Bars<T>,
    pub settings: Settings,
    pub show_sliders: bool,
}

/// What can happen to the visualiser.
#[derive(Debug)]
pub enum Message<T> {
    /// The user changed something in the settings panel; with it comes the
    /// configuration that the engine reported when asked just now.
    SliderMessage(SettingMessage, Config),
    /// The timer ticked; with it come the magnitudes that the engine replied
    /// to the pull request.
    Update(Vec<T>),
    /// The settings panel is to be shown or hidden.
    ToggleSliders,
}

/// The frame of bars after a message: a tick refreshes it, a change of the
/// mirroring choice reaches it, and nothing else touches it.
pub open spec fn frame_after<T>(frame: BarsView<T>, message: Message<T>) -> BarsView<T> {
    match message {
        Message::Update(received) => frame.ticked(received@),
        Message::SliderMessage(SettingMessage::Mirroring(on), _) => frame.after(
            FrameOp::Mirroring(on),
        ),
        _ => frame,
    }
}

/// The theme after a message.
pub open spec fn theme_after<T>(theme: Theme, message: Message<T>) -> Theme {
    match message {
        Message::SliderMessage(SettingMessage::ThemeChanged(t), _) => t,
        _ => theme,
    }
}

/// The settings panel after a message.
pub open spec fn settings_after<T>(settings: Settings, message: Message<T>) -> Settings {
    match message {
        Message::SliderMessage(msg, _) => settings.changed(msg),
        _ => settings,
    }
}

/// What a message asks of the rest of the program.
pub open spec fn requests<T>(message: Message<T>) -> Seq<Command> {
    match message {
        Message::SliderMessage(msg, config) => commands(config, msg),
        _ => seq![],
    }
}

impl<T: Copy> Visual<T> {
    /// The visualiser at its start, with the configuration to start the
    /// engine with and the capture supervisor's first state: the default
    /// theme, an empty frame, the settings panel hidden, and a stream wanted
    /// on the first output device.
    pub fn new(defaults: Config, input_devices: Vec<String>, output_devices: Vec<String>) -> (start:
        (Visual<T>, Config, CaptureState))
        ensures
            start.1 == startup(defaults),
            start.2 == CaptureState::Resolving(AudioDevice::Output(0)),
            start.0.theme == Theme::Dark,
            !start.0.show_sliders,
            start.0.bars@ == Bars::<T>::spec_default(),
            start.0.settings.opens_on(
                Theme::Dark,
                startup(defaults),
                input_devices,
                output_devices,
            ),
            start.0.settings.volume_sv == 10,
            start.0.settings.max_freq_sv == 200,
    {
        let audio_device = AudioDevice::Output(0);
        let config = startup_config(defaults);
        let capture = init_audio_sender(audio_device);
        let settings = Settings::new(Theme::default(), config, input_devices, output_devices);
        assert(settings.volume_sv == 10) by (nonlinear_arith)
            requires
                0 <= settings.volume_sv,
                settings.volume_sv * settings.volume_sv <= 100 < (settings.volume_sv + 1) * (
                settings.volume_sv + 1),
        ;
        let visual = Visual {
            theme: Theme::default(),
            bars: Bars::default(),
            settings,
            show_sliders: false,
        };
        (visual, config, capture)
    }

    /// The window's title.
    pub fn title(&self) -> (title: String)
        ensures
            title@ == "Audiolizer"@,
    {
        "Audiolizer".to_owned()
    }

    /// Takes a message into the visualiser and says what it asks of the
    /// rest of the program.
    pub fn update(&mut self, message: Message<T>) -> (wanted: Vec<Command>)
        ensures
            final(self).bars@ == frame_after(old(self).bars@, message),
            final(self).theme == theme_after(old(self).theme, message),
            final(self).settings == settings_after(old(self).settings, message),
            final(self).show_sliders == (if message is ToggleSliders {
                !old(self).show_sliders
            } else {
                old(self).show_sliders
            }),
            wanted@ == requests(message),
    {
        match message {
            Message::Update(received) => {
                self.bars.update(received);
                Vec::new()
            },
            Message::ToggleSliders => {
                self.show_sliders = !self.show_sliders;
                Vec::new()
            },
            Message::SliderMessage(msg, config) => {
                match msg {
                    SettingMessage::ThemeChanged(t) => {
                        self.theme = t;
                    },
                    SettingMessage::Mirroring(v) => {
                        self.bars.set_mirroring(v);
                    },
                    _ => {},
                }
                self.settings.update(config, msg)
            },
        }
    }
}

} // verus!
