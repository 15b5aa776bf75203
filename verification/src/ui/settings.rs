//! The settings panel: the positions of its sliders, the choices made in it,
//! and what each change asks of the processing engine and of the capture
//! supervisor. Slider positions are whole numbers: the sliders step by one.

use crate::audio::AudioDevice;
use crate::engine::{integer_sqrt, is_root, Config, FREQUENCY_LIMIT};
use crate::theme::Theme;
use vstd::prelude::*;

verus! {

/// What the user did in the settings panel.
#[derive(Debug, Clone, Copy, PartialEq, Eq)]
pub enum SettingMessage {
    BarCount(usize),
    FftResolution(usize),
    Volume(u32),
    Buffering(usize),
    SmoothingSize(usize),
    SmoothingAmount(usize),
    ThemeChanged(Theme),
    Mirroring(bool),
    UpdateAudioDevices,
    AudioDeviceChanged(AudioDevice),
    BarWidthChanged(usize),
    BarRefreshRate(usize),
    MaxFreq(usize),
}

/// What a change in the panel asks of the rest of the program.
#[derive(Debug, Clone, Copy, PartialEq, Eq)]
pub enum Command {
    /// Tell the engine to discard its buffered history.
    ClearBuffer,
    /// Hand the engine this configuration.
    SendConfig(Config),
    /// Push this device into the capture supervisor's request channel.
    SelectDevice(AudioDevice),
    /// Enumerate the audio devices anew and hand them to
    /// [`Settings::set_devices`].
    RefreshDevices,
}

/// The sliders of the panel.
#[derive(Debug, Clone, Copy, PartialEq, Eq, Structural)]
pub enum SettingSlider {
    BarCount,
    FftResolution,
    Volume,
    Buffering,
    SmoothingSize,
    SmoothingAmount,
    BarWidth,
    BarRefreshRate,
    MaxFreq,
}

impl SettingSlider {
    /// The lowest and the highest position of a slider.
    pub open spec fn bounds(self) -> (usize, usize) {
        match self {
            SettingSlider::BarCount => (1, 2000),
            SettingSlider::FftResolution => (100, 16256),
            SettingSlider::Volume => (1, 50),
            SettingSlider::Buffering => (1, 30),
            SettingSlider::SmoothingSize => (1, 20),
            SettingSlider::SmoothingAmount => (1, 20),
            SettingSlider::BarWidth => (0, 10),
            SettingSlider::BarRefreshRate => (1, 1000),
            SettingSlider::MaxFreq => (10, 200),
        }
    }

    /// The lowest and the highest position of a slider.
    pub fn range(self) -> (ends: (usize, usize))
        ensures
            ends == self.bounds(),
            ends.0 <= ends.1,
    {
        match self {
            SettingSlider::BarCount => (1, 2000),
            SettingSlider::FftResolution => (100, 16256),
            SettingSlider::Volume => (1, 50),
            SettingSlider::Buffering => (1, 30),
            SettingSlider::SmoothingSize => (1, 20),
            SettingSlider::SmoothingAmount => (1, 20),
            SettingSlider::BarWidth => (0, 10),
            SettingSlider::BarRefreshRate => (1, 1000),
            SettingSlider::MaxFreq => (10, 200),
        }
    }
}

/// The highest frequency, in hertz, that a position of its slider stands
/// for: a hundred times the position, and the limit where that would lie
/// beyond it or the position is zero.
pub open spec fn max_frequency_at(position: usize) -> usize {
    if 1 <= position <= FREQUENCY_LIMIT {
        (position * 100) as usize
    } else {
        FREQUENCY_LIMIT
    }
}

/// The configuration that a change has the engine take on, `None` where the
/// engine is left alone. A smoothing parameter is judged against the
/// engine's buffering depth, a volume position against the engine's volume.
pub open spec fn reconfigured(config: Config, msg: SettingMessage) -> Option<Config> {
    match msg {
        SettingMessage::Volume(v) => if config.volume != v {
            Some(Config { volume: (v * v) as u64, ..config })
        } else {
            None
        },
        SettingMessage::BarCount(v) => if config.bar_count != v {
            Some(Config { bar_count: v, ..config })
        } else {
            None
        },
        SettingMessage::FftResolution(v) => if config.fft_resolution != v {
            Some(Config { fft_resolution: v, ..config })
        } else {
            None
        },
        SettingMessage::Buffering(v) => if config.buffering != v {
            Some(Config { buffering: v, ..config })
        } else {
            None
        },
        SettingMessage::SmoothingSize(v) => if config.buffering != v {
            Some(Config { smoothing_size: v, ..config })
        } else {
            None
        },
        SettingMessage::SmoothingAmount(v) => if config.buffering != v {
            Some(Config { smoothing_amount: v, ..config })
        } else {
            None
        },
        SettingMessage::BarRefreshRate(r) => if config.refresh_rate != r {
            Some(Config { refresh_rate: r, ..config })
        } else {
            None
        },
        SettingMessage::MaxFreq(m) => if config.max_frequency != max_frequency_at(m) {
            Some(Config { max_frequency: max_frequency_at(m), ..config })
        } else {
            None
        },
        _ => None,
    }
}

/// Whether a change alters the shape of the engine's buffers, so that what
/// they hold has to be discarded.
pub open spec fn reshapes_buffer(msg: SettingMessage) -> bool {
    msg is BarCount || msg is FftResolution || msg is MaxFreq
}

/// What a change asks for, in the order in which it is to be done.
pub open spec fn commands(config: Config, msg: SettingMessage) -> Seq<Command> {
    match msg {
        SettingMessage::UpdateAudioDevices => seq![Command::RefreshDevices],
        SettingMessage::AudioDeviceChanged(d) => seq![Command::SelectDevice(d)],
        _ => match reconfigured(config, msg) {
            None => seq![],
            Some(c) => if reshapes_buffer(msg) {
                seq![Command::ClearBuffer, Command::SendConfig(c)]
            } else {
                seq![Command::SendConfig(c)]
            },
        },
    }
}

/// The buffer is discarded exactly where a parameter that shapes it takes a
/// new value, and always just before the new configuration is sent.
pub proof fn lemma_clear_precedes_config(config: Config, msg: SettingMessage)
    ensures
        commands(config, msg).contains(Command::ClearBuffer) <==> reshapes_buffer(msg)
            && reconfigured(config, msg) is Some,
        commands(config, msg).contains(Command::ClearBuffer) ==> commands(config, msg).len() == 2
            && commands(config, msg)[0] == Command::ClearBuffer && commands(config, msg)[1]
            == Command::SendConfig(reconfigured(config, msg).unwrap()),
{
    let cs = commands(config, msg);
    if reshapes_buffer(msg) && reconfigured(config, msg) is Some {
        assert(cs[0] == Command::ClearBuffer);
    }
}

/// Within the ends of their sliders a volume position stands for its square
/// and a frequency position for a hundred times itself, which stays within
/// the frequency limit.
pub proof fn lemma_positions_in_range(volume: u32, frequency: usize)
    requires
        SettingSlider::Volume.bounds().0 <= volume <= SettingSlider::Volume.bounds().1,
        SettingSlider::MaxFreq.bounds().0 <= frequency <= SettingSlider::MaxFreq.bounds().1,
    ensures
        1 <= volume * volume <= 2500,
        max_frequency_at(frequency) == 100 * frequency,
        1000 <= max_frequency_at(frequency) <= FREQUENCY_LIMIT,
{
    assert(1 <= volume * volume <= 2500) by (nonlinear_arith)
        requires
            1 <= volume <= 50,
    ;
}

/// The settings panel.
pub struct Settings {
    pub theme: Theme,
    pub input_devices: Vec<String>,
    pub output_devices: Vec<String>,
    pub audio_device: AudioDevice,
    pub mirroring_checkbox: bool,
    pub volume_sv: u32,
    pub bar_count_sv: usize,
    pub fft_res_sv: usize,
    pub smoothing_size_sv: usize,
    pub smoothing_amount_sv: usize,
    pub bar_width_sv: usize,
    pub bar_rr_sv: usize,
    pub max_freq_sv: usize,
    pub buffering_sv: usize,
}

impl Settings {
    /// The panel after a change.
    pub open spec fn changed(self, msg: SettingMessage) -> Settings {
        match msg {
            SettingMessage::Volume(v) => Settings { volume_sv: v, ..self },
            SettingMessage::BarCount(v) => Settings { bar_count_sv: v, ..self },
            SettingMessage::FftResolution(v) => Settings { fft_res_sv: v, ..self },
            SettingMessage::Buffering(v) => Settings { buffering_sv: v, ..self },
            SettingMessage::SmoothingSize(v) => Settings { smoothing_size_sv: v, ..self },
            SettingMessage::SmoothingAmount(v) => Settings { smoothing_amount_sv: v, ..self },
            SettingMessage::ThemeChanged(t) => Settings { theme: t, ..self },
            SettingMessage::Mirroring(b) => Settings { mirroring_checkbox: b, ..self },
            SettingMessage::UpdateAudioDevices => self,
            SettingMessage::AudioDeviceChanged(d) => Settings { audio_device: d, ..self },
            SettingMessage::BarWidthChanged(w) => Settings { bar_width_sv: w, ..self },
            SettingMessage::BarRefreshRate(r) => Settings { bar_rr_sv: r, ..self },
            SettingMessage::MaxFreq(m) => Settings { max_freq_sv: m, ..self },
        }
    }

    /// Whether this is the panel as it opens on an engine with the
    /// configuration given: the sliders stand where the configuration puts
    /// them, the volume slider at the whole-number root of the volume and the
    /// frequency slider at a hundredth of the highest frequency; the bars
    /// have their full width and are refreshed sixty times a second; the
    /// first output device is chosen and mirroring is ticked.
    pub open spec fn opens_on(
        self,
        theme: Theme,
        config: Config,
        input_devices: Vec<String>,
        output_devices: Vec<String>,
    ) -> bool {
        &&& self.theme == theme
        &&& self.input_devices == input_devices
        &&& self.output_devices == output_devices
        &&& self.audio_device == AudioDevice::Output(0)
        &&& self.mirroring_checkbox
        &&& is_root(self.volume_sv as int, config.volume as int)
        &&& self.bar_count_sv == config.bar_count
        &&& self.fft_res_sv == config.fft_resolution
        &&& self.smoothing_size_sv == config.smoothing_size
        &&& self.smoothing_amount_sv == config.smoothing_amount
        &&& self.buffering_sv == config.buffering
        &&& self.bar_width_sv == 10
        &&& self.bar_rr_sv == 60
        &&& self.max_freq_sv == config.max_frequency / 100
    }

    /// The panel as it opens.
    pub fn new(
        theme: Theme,
        config: Config,
        input_devices: Vec<String>,
        output_devices: Vec<String>,
    ) -> (panel: Settings)
        ensures
            panel.opens_on(theme, config, input_devices, output_devices),
    {
        Settings {
            theme,
            input_devices,
            output_devices,
            audio_device: AudioDevice::Output(0),
            mirroring_checkbox: true,
            volume_sv: integer_sqrt(config.volume),
            bar_count_sv: config.bar_count,
            fft_res_sv: config.fft_resolution,
            smoothing_size_sv: config.smoothing_size,
            smoothing_amount_sv: config.smoothing_amount,
            buffering_sv: config.buffering,
            bar_width_sv: 10,
            bar_rr_sv: 60,
            max_freq_sv: config.max_frequency / 100,
        }
    }

    /// Takes a change into the panel and says what it asks for, given the
    /// configuration that the engine reports at this moment.
    pub fn update(&mut self, config: Config, msg: SettingMessage) -> (wanted: Vec<Command>)
        ensures
            *final(self) == old(self).changed(msg),
            wanted@ == commands(config, msg),
    {
        let mut wanted: Vec<Command> = Vec::new();
        match msg {
            SettingMessage::Volume(v) => {
                self.volume_sv = v;
                if config.volume != v as u64 {
                    assert(v * v <= u64::MAX) by (nonlinear_arith)
                        requires
                            0 <= v <= 0xFFFF_FFFF,
                    ;
                    let volume: u64 = (v as u64) * (v as u64);
                    wanted.push(Command::SendConfig(Config { volume, ..config }));
                }
            },
            SettingMessage::BarCount(v) => {
                self.bar_count_sv = v;
                if config.bar_count != v {
                    wanted.push(Command::ClearBuffer);
                    wanted.push(Command::SendConfig(Config { bar_count: v, ..config }));
                }
            },
            SettingMessage::FftResolution(v) => {
                self.fft_res_sv = v;
                if config.fft_resolution != v {
                    wanted.push(Command::ClearBuffer);
                    wanted.push(Command::SendConfig(Config { fft_resolution: v, ..config }));
                }
            },
            SettingMessage::Buffering(v) => {
                self.buffering_sv = v;
                if config.buffering != v {
                    wanted.push(Command::SendConfig(Config { buffering: v, ..config }));
                }
            },
            SettingMessage::SmoothingSize(v) => {
                self.smoothing_size_sv = v;
                if config.buffering != v {
                    wanted.push(Command::SendConfig(Config { smoothing_size: v, ..config }));
                }
            },
            SettingMessage::SmoothingAmount(v) => {
                self.smoothing_amount_sv = v;
                if config.buffering != v {
                    wanted.push(Command::SendConfig(Config { smoothing_amount: v, ..config }));
                }
            },
            SettingMessage::ThemeChanged(t) => {
                self.theme = t;
            },
            SettingMessage::Mirroring(b) => {
                self.mirroring_checkbox = b;
            },
            SettingMessage::UpdateAudioDevices => {
                wanted.push(Command::RefreshDevices);
            },
            SettingMessage::AudioDeviceChanged(d) => {
                self.audio_device = d;
                wanted.push(Command::SelectDevice(d));
            },
            SettingMessage::BarWidthChanged(w) => {
                self.bar_width_sv = w;
            },
            SettingMessage::BarRefreshRate(r) => {
                self.bar_rr_sv = r;
                if config.refresh_rate != r {
                    wanted.push(Command::SendConfig(Config { refresh_rate: r, ..config }));
                }
            },
            SettingMessage::MaxFreq(m) => {
                self.max_freq_sv = m;
                let max_frequency: usize = if 1 <= m && m <= FREQUENCY_LIMIT {
                    m * 100
                } else {
                    FREQUENCY_LIMIT
                };
                if config.max_frequency != max_frequency {
                    wanted.push(Command::ClearBuffer);
                    wanted.push(Command::SendConfig(Config { max_frequency, ..config }));
                }
            },
        }
        wanted
    }

    /// Takes a fresh device catalog into the panel.
    pub fn set_devices(&mut self, input_devices: Vec<String>, output_devices: Vec<String>)
        ensures
            *final(self) == (Settings { input_devices, output_devices, ..*old(self) }),
    {
        self.input_devices = input_devices;
        self.output_devices = output_devices;
    }
}

} // verus!
