//! Device selection and the capture supervisor.

use vstd::prelude::*;
use vstd::std_specs::cmp::PartialEqSpec;

verus! {

/// A selector for one audio device: its direction and its position in the
/// host's enumeration of that direction.
#[derive(Debug, Clone, Copy)]
pub enum AudioDevice {
    Input(usize),
    Output(usize),
}

impl AudioDevice {
    /// The position of the device in the enumeration of its direction.
    pub open spec fn position(self) -> nat {
        match self {
            AudioDevice::Input(i) => i as nat,
            AudioDevice::Output(i) => i as nat,
        }
    }

    /// Whether the selector names an input device.
    pub open spec fn names_input(self) -> bool {
        self is Input
    }

    /// Whether the selector points inside an enumeration that lists `inputs`
    /// input devices and `outputs` output devices.
    pub open spec fn in_range(self, inputs: nat, outputs: nat) -> bool {
        match self {
            AudioDevice::Input(i) => i < inputs,
            AudioDevice::Output(i) => i < outputs,
        }
    }

    /// Two selectors name the same device: same direction, same position.
    pub open spec fn same_device(self, other: AudioDevice) -> bool {
        self.names_input() == other.names_input() && self.position() == other.position()
    }
}

impl PartialEq for AudioDevice {
    /// Equal selectors have the same direction and the same position.
    fn eq(&self, other: &Self) -> (equal: bool) {
        match *self {
            AudioDevice::Input(a) => {
                match *other {
                    AudioDevice::Input(b) => a == b,
                    _ => false,
                }
            },
            AudioDevice::Output(a) => {
                match *other {
                    AudioDevice::Output(b) => a == b,
                    _ => false,
                }
            },
        }
    }
}

impl Eq for AudioDevice {}

impl vstd::std_specs::cmp::PartialEqSpecImpl for AudioDevice {
    open spec fn obeys_eq_spec() -> bool {
        true
    }

    open spec fn eq_spec(&self, other: &Self) -> bool {
        self.same_device(*other)
    }
}

/// Selectors are equal exactly when they are the same value; in particular an
/// input selector never equals an output selector, whatever their positions.
pub proof fn lemma_equality_is_tag_sensitive(a: AudioDevice, b: AudioDevice)
    ensures
        a.eq_spec(&b) <==> a == b,
        a is Input && b is Output ==> !a.eq_spec(&b),
        a is Output && b is Input ==> !a.eq_spec(&b),
{
}

/// The names of one direction's devices as the host listed them, or nothing
/// where the host could not be asked.
pub open spec fn listed(names: Option<Vec<String>>) -> Seq<String> {
    match names {
        Some(v) => v@,
        None => Seq::empty(),
    }
}

/// The device catalog: the display names of the input devices and of the
/// output devices, each in the host's own order, which is the index space of
/// [`AudioDevice`]. `None` stands for an enumeration that failed; it yields an
/// empty list.
pub fn iter_audio_devices(inputs: Option<Vec<String>>, outputs: Option<Vec<String>>) -> (names: (
    Vec<String>,
    Vec<String>,
))
    ensures
        names.0@ == listed(inputs),
        names.1@ == listed(outputs),
{
    let input_devices = match inputs {
        Some(v) => v,
        None => Vec::new(),
    };
    let output_devices = match outputs {
        Some(v) => v,
        None => Vec::new(),
    };
    (input_devices, output_devices)
}

/// The selectors that a catalog with `count` devices of one direction offers:
/// `Input(0)`, `Input(1)`, ... or `Output(0)`, `Output(1)`, ...
pub open spec fn selectors(input: bool, count: nat) -> Seq<AudioDevice> {
    Seq::new(
        count,
        |i: int|
            if input {
                AudioDevice::Input(i as usize)
            } else {
                AudioDevice::Output(i as usize)
            },
    )
}

/// One selector for each listed device of a direction, in listing order.
pub fn device_selectors(input: bool, count: usize) -> (refs: Vec<AudioDevice>)
    ensures
        refs@ == selectors(input, count as nat),
{
    let mut refs: Vec<AudioDevice> = Vec::new();
    let mut i: usize = 0;
    while i < count
        invariant
            i <= count,
            refs@ == selectors(input, i as nat),
        decreases count - i,
    {
        let device = if input {
            AudioDevice::Input(i)
        } else {
            AudioDevice::Output(i)
        };
        refs.push(device);
        i = i + 1;
    }
    refs
}

/// The sample formats in which a device may deliver its default configuration.
#[derive(Debug, Clone, Copy, PartialEq, Eq, Structural)]
pub enum SampleFormat {
    I16,
    U16,
    F32,
}

/// Why no stream could be constructed on a device.
#[derive(Debug, Clone, Copy, PartialEq, Eq, Structural)]
pub enum StreamError {
    /// The selector points outside the enumeration taken for the construction.
    InvalidIndex,
    /// The device's default configuration is not 32-bit floating point.
    UnsupportedFormat,
    /// The device gave no default configuration or refused the stream.
    DeviceUnavailable,
}

/// Resolves a selector against a fresh enumeration with `inputs` input devices
/// and `outputs` output devices: the position to read, or `InvalidIndex` where
/// the enumeration has no such position.
pub fn resolve_device(device: AudioDevice, inputs: usize, outputs: usize) -> (position: Result<
    usize,
    StreamError,
>)
    ensures
        device.in_range(inputs as nat, outputs as nat) ==> position == Ok::<usize, StreamError>(
            device.position() as usize,
        ),
        !device.in_range(inputs as nat, outputs as nat) ==> position == Err::<usize, StreamError>(
            StreamError::InvalidIndex,
        ),
{
    match device {
        AudioDevice::Input(i) => {
            if i < inputs {
                Ok(i)
            } else {
                Err(StreamError::InvalidIndex)
            }
        },
        AudioDevice::Output(i) => {
            if i < outputs {
                Ok(i)
            } else {
                Err(StreamError::InvalidIndex)
            }
        },
    }
}

/// What a default configuration means for the construction: only 32-bit
/// floating point samples are taken.
pub open spec fn format_verdict(format: Option<SampleFormat>) -> Result<(), StreamError> {
    match format {
        Some(SampleFormat::F32) => Ok(()),
        Some(_) => Err(StreamError::UnsupportedFormat),
        None => Err(StreamError::DeviceUnavailable),
    }
}

/// Judges the default configuration that the resolved device reported, `None`
/// where it reported none.
pub fn accept_format(format: Option<SampleFormat>) -> (verdict: Result<(), StreamError>)
    ensures
        verdict == format_verdict(format),
{
    match format {
        Some(SampleFormat::F32) => Ok(()),
        Some(_) => Err(StreamError::UnsupportedFormat),
        None => Err(StreamError::DeviceUnavailable),
    }
}

/// Where the capture supervisor stands. A stream is held in `Streaming` and
/// in `Releasing`, and in no other state.
#[derive(Debug, Clone, Copy, PartialEq, Eq)]
pub enum CaptureState {
    /// A stream is wanted on the device; a fresh enumeration is being taken.
    Resolving(AudioDevice),
    /// The device was found; its default configuration is being asked for.
    Configuring(AudioDevice),
    /// The configuration was accepted; the stream is being built and started.
    Building(AudioDevice),
    /// A stream runs on the device and forwards every captured buffer.
    Streaming(AudioDevice),
    /// The running stream is being stopped and dropped, to make room for the
    /// device given, or for good where none is given.
    Releasing(Option<AudioDevice>),
    /// The last construction failed for the reason given; nothing is open.
    Idle(StreamError),
    /// The request channel is closed; the supervisor has ended.
    Terminated,
}

/// What the supervisor asks its driver to do next.
#[derive(Debug, Clone, Copy, PartialEq, Eq)]
pub enum CaptureAction {
    /// Enumerate the host's devices anew and report how many there are.
    Enumerate,
    /// Ask the device for its default configuration: the default input
    /// configuration of an input device, the default output configuration of
    /// an output device.
    QueryConfig(AudioDevice),
    /// Build a 32-bit float stream on the device and start it.
    BuildStream(AudioDevice),
    /// Stop and drop the running stream.
    DropStream,
    /// Block on the request channel until a device arrives or it closes.
    AwaitRequest,
    /// Leave the supervising loop.
    Exit,
}

/// What the driver reports back.
#[derive(Debug, Clone, Copy, PartialEq, Eq)]
pub enum CaptureEvent {
    /// The enumeration just taken lists this many devices.
    Enumerated { inputs: usize, outputs: usize },
    /// The default configuration's sample format, `None` where the device gave
    /// no configuration.
    Configured(Option<SampleFormat>),
    /// Whether the stream was built and started.
    Built(bool),
    /// The running stream was stopped and dropped.
    Dropped,
    /// A device arrived on the request channel.
    Requested(AudioDevice),
    /// The request channel was closed by its producer.
    RequestsClosed,
}

impl CaptureState {
    /// The action that is pending in a state.
    pub open spec fn pending(self) -> CaptureAction {
        match self {
            CaptureState::Resolving(_) => CaptureAction::Enumerate,
            CaptureState::Configuring(d) => CaptureAction::QueryConfig(d),
            CaptureState::Building(d) => CaptureAction::BuildStream(d),
            CaptureState::Releasing(_) => CaptureAction::DropStream,
            CaptureState::Streaming(_) => CaptureAction::AwaitRequest,
            CaptureState::Idle(_) => CaptureAction::AwaitRequest,
            CaptureState::Terminated => CaptureAction::Exit,
        }
    }

    /// Whether a stream is held in a state.
    pub open spec fn holds_stream(self) -> bool {
        self is Streaming || self is Releasing
    }

    /// The action that the driver has to perform now.
    pub fn action(&self) -> (wanted: CaptureAction)
        ensures
            wanted == self.pending(),
    {
        match *self {
            CaptureState::Resolving(_) => CaptureAction::Enumerate,
            CaptureState::Configuring(d) => CaptureAction::QueryConfig(d),
            CaptureState::Building(d) => CaptureAction::BuildStream(d),
            CaptureState::Releasing(_) => CaptureAction::DropStream,
            CaptureState::Streaming(_) => CaptureAction::AwaitRequest,
            CaptureState::Idle(_) => CaptureAction::AwaitRequest,
            CaptureState::Terminated => CaptureAction::Exit,
        }
    }

    /// Whether the driver holds a stream now.
    pub fn is_streaming(&self) -> (held: bool)
        ensures
            held == self.holds_stream(),
    {
        match *self {
            CaptureState::Streaming(_) => true,
            CaptureState::Releasing(_) => true,
            _ => false,
        }
    }
}

/// Whether an event is a report on the action given.
pub open spec fn answers(event: CaptureEvent, action: CaptureAction) -> bool {
    match action {
        CaptureAction::Enumerate => event is Enumerated,
        CaptureAction::QueryConfig(_) => event is Configured,
        CaptureAction::BuildStream(_) => event is Built,
        CaptureAction::DropStream => event is Dropped,
        CaptureAction::AwaitRequest => event is Requested || event is RequestsClosed,
        CaptureAction::Exit => false,
    }
}

/// The supervisor's transitions. An event that does not answer the pending
/// action changes nothing.
pub open spec fn next_state(state: CaptureState, event: CaptureEvent) -> CaptureState {
    match (state, event) {
        (CaptureState::Resolving(d), CaptureEvent::Enumerated { inputs, outputs }) => {
            if d.in_range(inputs as nat, outputs as nat) {
                CaptureState::Configuring(d)
            } else {
                CaptureState::Idle(StreamError::InvalidIndex)
            }
        },
        (CaptureState::Configuring(d), CaptureEvent::Configured(format)) => {
            match format_verdict(format) {
                Ok(_) => CaptureState::Building(d),
                Err(e) => CaptureState::Idle(e),
            }
        },
        (CaptureState::Building(d), CaptureEvent::Built(started)) => {
            if started {
                CaptureState::Streaming(d)
            } else {
                CaptureState::Idle(StreamError::DeviceUnavailable)
            }
        },
        (CaptureState::Streaming(_), CaptureEvent::Requested(d)) => CaptureState::Releasing(
            Some(d),
        ),
        (CaptureState::Streaming(_), CaptureEvent::RequestsClosed) => CaptureState::Releasing(
            None,
        ),
        (CaptureState::Releasing(Some(d)), CaptureEvent::Dropped) => CaptureState::Resolving(d),
        (CaptureState::Releasing(None), CaptureEvent::Dropped) => CaptureState::Terminated,
        (CaptureState::Idle(_), CaptureEvent::Requested(d)) => CaptureState::Resolving(d),
        (CaptureState::Idle(_), CaptureEvent::RequestsClosed) => CaptureState::Terminated,
        _ => state,
    }
}

/// The supervisor at its start: nothing is open, and a stream is wanted on
/// `audio_device`.
pub fn init_audio_sender(audio_device: AudioDevice) -> (state: CaptureState)
    ensures
        state == CaptureState::Resolving(audio_device),
{
    CaptureState::Resolving(audio_device)
}

impl CaptureState {
    /// One step of supervision: the state that follows once the driver has
    /// reported `event`.
    pub fn step(self, event: CaptureEvent) -> (next: CaptureState)
        ensures
            next == next_state(self, event),
    {
        match (self, event) {
            (CaptureState::Resolving(d), CaptureEvent::Enumerated { inputs, outputs }) => {
                match resolve_device(d, inputs, outputs) {
                    Ok(_) => CaptureState::Configuring(d),
                    Err(e) => CaptureState::Idle(e),
                }
            },
            (CaptureState::Configuring(d), CaptureEvent::Configured(format)) => {
                match accept_format(format) {
                    Ok(_) => CaptureState::Building(d),
                    Err(e) => CaptureState::Idle(e),
                }
            },
            (CaptureState::Building(d), CaptureEvent::Built(started)) => {
                if started {
                    CaptureState::Streaming(d)
                } else {
                    CaptureState::Idle(StreamError::DeviceUnavailable)
                }
            },
            (CaptureState::Streaming(_), CaptureEvent::Requested(d)) => CaptureState::Releasing(
                Some(d),
            ),
            (CaptureState::Streaming(_), CaptureEvent::RequestsClosed) => CaptureState::Releasing(
                None,
            ),
            (CaptureState::Releasing(Some(d)), CaptureEvent::Dropped) => CaptureState::Resolving(
                d,
            ),
            (CaptureState::Releasing(None), CaptureEvent::Dropped) => CaptureState::Terminated,
            (CaptureState::Idle(_), CaptureEvent::Requested(d)) => CaptureState::Resolving(d),
            (CaptureState::Idle(_), CaptureEvent::RequestsClosed) => CaptureState::Terminated,
            _ => self,
        }
    }
}

/// What the host answers while one stream is constructed: the sizes of the
/// fresh enumeration, the sample format of the device's default
/// configuration, and whether the stream could be built and started.
#[derive(Debug, Clone, Copy)]
pub struct HostReply {
    pub inputs: usize,
    pub outputs: usize,
    pub format: Option<SampleFormat>,
    pub started: bool,
}

/// What the construction of a stream on `device` comes to on a host that
/// answers with `host`: the first check that fails decides.
pub open spec fn construction(device: AudioDevice, host: HostReply) -> Result<(), StreamError> {
    if !device.in_range(host.inputs as nat, host.outputs as nat) {
        Err(StreamError::InvalidIndex)
    } else if format_verdict(host.format) is Err {
        format_verdict(host.format)
    } else if !host.started {
        Err(StreamError::DeviceUnavailable)
    } else {
        Ok(())
    }
}

/// Decides the construction of a stream on `audio_device` from the host's
/// answers: the device is resolved against the fresh enumeration, its default
/// configuration must be 32-bit floating point, and the stream must have
/// started.
pub fn stream_audio(audio_device: AudioDevice, host: HostReply) -> (outcome: Result<
    (),
    StreamError,
>)
    ensures
        outcome == construction(audio_device, host),
{
    match resolve_device(audio_device, host.inputs, host.outputs) {
        Err(e) => Err(e),
        Ok(_) => match accept_format(host.format) {
            Err(e) => Err(e),
            Ok(_) => {
                if host.started {
                    Ok(())
                } else {
                    Err(StreamError::DeviceUnavailable)
                }
            },
        },
    }
}

} // verus!
