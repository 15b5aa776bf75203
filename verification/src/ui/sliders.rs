//! The compact panel: five sliders, the mirroring choice, the theme and the
//! audio device. Its volume slider shows the engine's volume itself, and it
//! thins the bars out by a density reduction. Slider positions are whole
//! numbers: the sliders step by one.

use crate::audio::AudioDevice;
use crate::theme::Theme;
use vstd::prelude::*;

verus! {

/// The part of the engine's configuration that the compact panel reads and
/// changes.
#[derive(Debug, Clone, Copy, PartialEq, Eq, Structural)]
pub struct SliderConfig {
    pub volume: usize,
    pub density_reduction: usize,
    pub smoothing_size: usize,
    pub smoothing_amount: usize,
    pub buffering: usize,
}

/// What the user did in the compact panel.
#[derive(Debug, Clone, Copy, PartialEq, Eq)]
pub enum SliderMessage {
    DensityReduction(usize),
    Volume(usize),
    Buffering(usize),
    SmoothingSize(usize),
    SmoothingAmount(usize),
    ThemeChanged(Theme),
    Mirroring(bool),
    UpdateAudioDevices,
    AudioDeviceChanged(AudioDevice),
}

/// What a change in the compact panel asks of the rest of the program.
#[derive(Debug, Clone, Copy, PartialEq, Eq)]
pub enum SliderCommand {
    /// Tell the engine to discard its buffered history.
    ClearBuffer,
    /// Hand the engine this configuration.
    SendConfig(SliderConfig),
    /// Push this device into the capture supervisor's request channel.
    SelectDevice(AudioDevice),
    /// Enumerate the audio devices anew and hand them to
    /// [`Sliders::set_devices`].
    RefreshDevices,
}

/// The highest position of the panel's volume slider; its lowest is zero.
pub const VOLUME_TOP: usize = 100;

/// The highest position of each of the panel's other sliders; their lowest
/// is zero.
pub const SLIDER_TOP: usize = 20;

/// The configuration that a change has the engine take on, `None` where the
/// engine is left alone. A smoothing parameter is judged against the
/// engine's buffering depth.
pub open spec fn slider_reconfigured(config: SliderConfig, msg: SliderMessage) -> Option<
    SliderConfig,
> {
    match msg {
        SliderMessage::Volume(v) => if config.volume != v {
            Some(SliderConfig { volume: v, ..config })
        } else {
            None
        },
        SliderMessage::DensityReduction(v) => if config.density_reduction != v {
            Some(SliderConfig { density_reduction: v, ..config })
        } else {
            None
        },
        SliderMessage::Buffering(v) => if config.buffering != v {
            Some(SliderConfig { buffering: v, ..config })
        } else {
            None
        },
        SliderMessage::SmoothingSize(v) => if config.buffering != v {
            Some(SliderConfig { smoothing_size: v, ..config })
        } else {
            None
        },
        SliderMessage::SmoothingAmount(v) => if config.buffering != v {
            Some(SliderConfig { smoothing_amount: v, ..config })
        } else {
            None
        },
        _ => None,
    }
}

/// What a change asks for, in the order in which it is to be done: the
/// buffer is discarded before a new density reduction is sent.
pub open spec fn slider_commands(config: SliderConfig, msg: SliderMessage) -> Seq<SliderCommand> {
    match msg {
        SliderMessage::UpdateAudioDevices => seq![SliderCommand::RefreshDevices],
        SliderMessage::AudioDeviceChanged(d) => seq![SliderCommand::SelectDevice(d)],
        _ => match slider_reconfigured(config, msg) {
            None => seq![],
            Some(c) => if msg is DensityReduction {
                seq![SliderCommand::ClearBuffer, SliderCommand::SendConfig(c)]
            } else {
                seq![SliderCommand::SendConfig(c)]
            },
        },
    }
}

/// The compact panel.
pub struct Sliders {
    pub theme: Theme,
    pub input_devices: Vec<String>,
    pub output_devices: Vec<String>,
    pub audio_device: AudioDevice,
    pub mirroring_checkbox: bool,
    pub volume_sv: usize,
    pub density_reduction_sv: usize,
    pub smoothing_size_sv: usize,
    pub smoothing_amount_sv: usize,
    pub buffering_sv: usize,
}

impl Sliders {
    /// The panel as it opens on an engine with the configuration given.
    pub open spec fn opened(
        theme: Theme,
        config: SliderConfig,
        input_devices: Vec<String>,
        output_devices: Vec<String>,
    ) -> Sliders {
        Sliders {
            theme,
            input_devices,
            output_devices,
            audio_device: AudioDevice::Output(0),
            mirroring_checkbox: true,
            volume_sv: config.volume,
            density_reduction_sv: config.density_reduction,
            smoothing_size_sv: config.smoothing_size,
            smoothing_amount_sv: config.smoothing_amount,
            buffering_sv: config.buffering,
        }
    }

    /// The panel after a change.
    pub open spec fn changed(self, msg: SliderMessage) -> Sliders {
        match msg {
            SliderMessage::Volume(v) => Sliders { volume_sv: v, ..self },
            SliderMessage::DensityReduction(v) => Sliders { density_reduction_sv: v, ..self },
            SliderMessage::Buffering(v) => Sliders { buffering_sv: v, ..self },
            SliderMessage::SmoothingSize(v) => Sliders { smoothing_size_sv: v, ..self },
            SliderMessage::SmoothingAmount(v) => Sliders { smoothing_amount_sv: v, ..self },
            SliderMessage::ThemeChanged(t) => Sliders { theme: t, ..self },
            SliderMessage::Mirroring(b) => Sliders { mirroring_checkbox: b, ..self },
            SliderMessage::UpdateAudioDevices => self,
            SliderMessage::AudioDeviceChanged(d) => Sliders { audio_device: d, ..self },
        }
    }

    /// The panel as it opens: the sliders stand where the engine's
    /// configuration puts them, the first output device is chosen and
    /// mirroring is ticked.
    pub fn new(
        theme: Theme,
        config: SliderConfig,
        input_devices: Vec<String>,
        output_devices: Vec<String>,
    ) -> (panel: Sliders)
        ensures
            panel == Sliders::opened(theme, config, input_devices, output_devices),
    {
        Sliders {
            theme,
            input_devices,
            output_devices,
            audio_device: AudioDevice::Output(0),
            mirroring_checkbox: true,
            volume_sv: config.volume,
            density_reduction_sv: config.density_reduction,
            smoothing_size_sv: config.smoothing_size,
            smoothing_amount_sv: config.smoothing_amount,
            buffering_sv: config.buffering,
        }
    }

    /// Takes a change into the panel and says what it asks for, given the
    /// configuration that the engine reports at this moment.
    pub fn update(&mut self, config: SliderConfig, msg: SliderMessage) -> (wanted: Vec<
        SliderCommand,
    >)
        ensures
            *final(self) == old(self).changed(msg),
            wanted@ == slider_commands(config, msg),
    {
        let mut wanted: Vec<SliderCommand> = Vec::new();
        match msg {
            SliderMessage::Volume(v) => {
                self.volume_sv = v;
                if config.volume != v {
                    wanted.push(SliderCommand::SendConfig(SliderConfig { volume: v, ..config }));
                }
            },
            SliderMessage::DensityReduction(v) => {
                self.density_reduction_sv = v;
                if config.density_reduction != v {
                    wanted.push(SliderCommand::ClearBuffer);
                    wanted.push(
                        SliderCommand::SendConfig(SliderConfig { density_reduction: v, ..config }),
                    );
                }
            },
            SliderMessage::Buffering(v) => {
                self.buffering_sv = v;
                if config.buffering != v {
                    wanted.push(SliderCommand::SendConfig(SliderConfig { buffering: v, ..config }));
                }
            },
            SliderMessage::SmoothingSize(v) => {
                self.smoothing_size_sv = v;
                if config.buffering != v {
                    wanted.push(
                        SliderCommand::SendConfig(SliderConfig { smoothing_size: v, ..config }),
                    );
                }
            },
            SliderMessage::SmoothingAmount(v) => {
                self.smoothing_amount_sv = v;
                if config.buffering != v {
                    wanted.push(
                        SliderCommand::SendConfig(SliderConfig { smoothing_amount: v, ..config }),
                    );
                }
            },
            SliderMessage::ThemeChanged(t) => {
                self.theme = t;
            },
            SliderMessage::Mirroring(b) => {
                self.mirroring_checkbox = b;
            },
            SliderMessage::UpdateAudioDevices => {
                wanted.push(SliderCommand::RefreshDevices);
            },
            SliderMessage::AudioDeviceChanged(d) => {
                self.audio_device = d;
                wanted.push(SliderCommand::SelectDevice(d));
            },
        }
        wanted
    }

    /// Takes a fresh device catalog into the panel.
    pub fn set_devices(&mut self, input_devices: Vec<String>, output_devices: Vec<String>)
        ensures
            *final(self) == (Sliders { input_devices, output_devices, ..*old(self) }),
    {
        self.input_devices = input_devices;
        self.output_devices = output_devices;
    }
}

} // verus!
