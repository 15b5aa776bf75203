use audiolizer::audio::{
    init_audio_sender, stream_audio, AudioDevice, CaptureAction, CaptureEvent, CaptureState,
    HostReply, SampleFormat, StreamError,
};

fn good() -> HostReply {
    HostReply { inputs: 2, outputs: 1, format: Some(SampleFormat::F32), started: true }
}

/// A driver that performs the supervisor's actions on a host which answers
/// with `host`, until the supervisor waits for a request or ends. It counts
/// the streams it has open and says how many were open at most.
fn settle(mut state: CaptureState, host: HostReply, open: &mut i32, most: &mut i32) -> CaptureState {
    loop {
        let event = match state.action() {
            CaptureAction::Enumerate => {
                CaptureEvent::Enumerated { inputs: host.inputs, outputs: host.outputs }
            }
            CaptureAction::QueryConfig(_) => CaptureEvent::Configured(host.format),
            CaptureAction::BuildStream(_) => {
                if host.started {
                    *open += 1;
                }
                CaptureEvent::Built(host.started)
            }
            CaptureAction::DropStream => {
                *open -= 1;
                CaptureEvent::Dropped
            }
            CaptureAction::AwaitRequest | CaptureAction::Exit => return state,
        };
        if *open > *most {
            *most = *open;
        }
        state = state.step(event);
        assert_eq!(state.is_streaming(), *open == 1);
    }
}

fn serve(
    mut state: CaptureState,
    requests: &[(AudioDevice, HostReply)],
    open: &mut i32,
    most: &mut i32,
) -> CaptureState {
    for (device, host) in requests {
        state = state.step(CaptureEvent::Requested(*device));
        state = settle(state, *host, open, most);
    }
    state
}

#[test]
fn supervisor_starts_by_resolving_the_first_device() {
    let state = init_audio_sender(AudioDevice::Output(0));
    assert_eq!(state, CaptureState::Resolving(AudioDevice::Output(0)));
    assert_eq!(state.action(), CaptureAction::Enumerate);
    assert!(!state.is_streaming());
}

#[test]
fn construction_walks_through_its_phases() {
    let device = AudioDevice::Input(1);
    let state = init_audio_sender(device);
    let state = state.step(CaptureEvent::Enumerated { inputs: 2, outputs: 0 });
    assert_eq!(state, CaptureState::Configuring(device));
    assert_eq!(state.action(), CaptureAction::QueryConfig(device));
    let state = state.step(CaptureEvent::Configured(Some(SampleFormat::F32)));
    assert_eq!(state, CaptureState::Building(device));
    assert_eq!(state.action(), CaptureAction::BuildStream(device));
    let state = state.step(CaptureEvent::Built(true));
    assert_eq!(state, CaptureState::Streaming(device));
    assert_eq!(state.action(), CaptureAction::AwaitRequest);
    assert!(state.is_streaming());
}

#[test]
fn request_for_missing_input_ends_idle() {
    let mut open: i32 = 0;
    let mut most: i32 = 0;
    let state = init_audio_sender(AudioDevice::Input(5));
    let state = settle(state, good(), &mut open, &mut most);
    assert_eq!(state, CaptureState::Idle(StreamError::InvalidIndex));
    assert_eq!(state.action(), CaptureAction::AwaitRequest);
    assert!(!state.is_streaming());
    assert_eq!(most, 0);
}

#[test]
fn missing_index_is_found_before_anything_is_asked_of_the_device() {
    let state = init_audio_sender(AudioDevice::Input(5));
    let state = state.step(CaptureEvent::Enumerated { inputs: 2, outputs: 1 });
    assert_eq!(state, CaptureState::Idle(StreamError::InvalidIndex));
}

#[test]
fn second_request_replaces_the_first() {
    let a = AudioDevice::Input(0);
    let b = AudioDevice::Input(1);
    let mut open: i32 = 0;
    let mut most: i32 = 0;
    let state = settle(init_audio_sender(AudioDevice::Output(0)), good(), &mut open, &mut most);
    let state = serve(state, &[(a, good()), (b, good())], &mut open, &mut most);
    assert_eq!(state, CaptureState::Streaming(b));
    assert_eq!(open, 1);
    assert_eq!(most, 1);
}

#[test]
fn failing_second_request_leaves_nothing_open() {
    let a = AudioDevice::Input(0);
    let b = AudioDevice::Input(1);
    let busy = HostReply { started: false, ..good() };
    let mut open: i32 = 0;
    let mut most: i32 = 0;
    let state = settle(init_audio_sender(a), good(), &mut open, &mut most);
    assert_eq!(state, CaptureState::Streaming(a));
    let state = serve(state, &[(b, busy)], &mut open, &mut most);
    assert_eq!(state, CaptureState::Idle(StreamError::DeviceUnavailable));
    assert_eq!(open, 0);
}

#[test]
fn running_stream_is_dropped_before_the_next_is_built() {
    let a = AudioDevice::Input(0);
    let b = AudioDevice::Output(0);
    let state = CaptureState::Streaming(a).step(CaptureEvent::Requested(b));
    assert_eq!(state, CaptureState::Releasing(Some(b)));
    assert_eq!(state.action(), CaptureAction::DropStream);
    assert!(state.is_streaming());
    let state = state.step(CaptureEvent::Dropped);
    assert_eq!(state, CaptureState::Resolving(b));
    assert!(!state.is_streaming());
}

#[test]
fn at_most_one_stream_over_many_requests() {
    let bad_format = HostReply { format: Some(SampleFormat::I16), ..good() };
    let no_config = HostReply { format: None, ..good() };
    let shrunk = HostReply { inputs: 0, ..good() };
    let requests = [
        (AudioDevice::Input(0), good()),
        (AudioDevice::Input(1), good()),
        (AudioDevice::Input(1), shrunk),
        (AudioDevice::Output(0), bad_format),
        (AudioDevice::Output(0), good()),
        (AudioDevice::Output(0), good()),
        (AudioDevice::Input(0), no_config),
        (AudioDevice::Input(1), good()),
    ];
    let mut open: i32 = 0;
    let mut most: i32 = 0;
    let mut state = settle(init_audio_sender(AudioDevice::Output(0)), good(), &mut open, &mut most);
    for n in 0..requests.len() {
        state = serve(state, &requests[n..n + 1], &mut open, &mut most);
        let (device, host) = requests[n];
        match stream_audio(device, host) {
            Ok(()) => {
                assert_eq!(state, CaptureState::Streaming(device));
                assert_eq!(open, 1);
            }
            Err(e) => {
                assert_eq!(state, CaptureState::Idle(e));
                assert_eq!(open, 0);
            }
        }
    }
    assert_eq!(most, 1);
    assert_eq!(state, CaptureState::Streaming(AudioDevice::Input(1)));
}

#[test]
fn all_failed_requests_leave_no_stream() {
    let shrunk = HostReply { inputs: 0, outputs: 0, ..good() };
    let mut open: i32 = 0;
    let mut most: i32 = 0;
    let state = settle(init_audio_sender(AudioDevice::Output(0)), shrunk, &mut open, &mut most);
    let state = serve(
        state,
        &[(AudioDevice::Input(0), shrunk), (AudioDevice::Output(3), shrunk)],
        &mut open,
        &mut most,
    );
    assert_eq!(state, CaptureState::Idle(StreamError::InvalidIndex));
    assert_eq!(most, 0);
}

#[test]
fn index_is_bound_when_the_stream_is_constructed() {
    // two outputs were listed when Output(1) was chosen, one is left now
    let now = HostReply { inputs: 2, outputs: 1, format: Some(SampleFormat::F32), started: true };
    let mut open: i32 = 0;
    let mut most: i32 = 0;
    let state = settle(init_audio_sender(AudioDevice::Output(0)), good(), &mut open, &mut most);
    let state = serve(state, &[(AudioDevice::Output(1), now)], &mut open, &mut most);
    assert_eq!(state, CaptureState::Idle(StreamError::InvalidIndex));
    assert_eq!(open, 0);
}

#[test]
fn closed_channel_ends_the_supervisor_for_good() {
    let state = CaptureState::Idle(StreamError::InvalidIndex).step(CaptureEvent::RequestsClosed);
    assert_eq!(state, CaptureState::Terminated);
    assert_eq!(state.action(), CaptureAction::Exit);
    let state = state.step(CaptureEvent::Requested(AudioDevice::Input(0)));
    assert_eq!(state, CaptureState::Terminated);
    let state = state.step(CaptureEvent::Built(true));
    assert_eq!(state, CaptureState::Terminated);
}

#[test]
fn closed_channel_drops_the_running_stream_first() {
    let state = CaptureState::Streaming(AudioDevice::Input(0)).step(CaptureEvent::RequestsClosed);
    assert_eq!(state, CaptureState::Releasing(None));
    assert_eq!(state.action(), CaptureAction::DropStream);
    let state = state.step(CaptureEvent::Dropped);
    assert_eq!(state, CaptureState::Terminated);
    assert!(!state.is_streaming());
}

#[test]
fn reports_that_answer_nothing_change_nothing() {
    let device = AudioDevice::Input(0);
    let resolving = CaptureState::Resolving(device);
    assert_eq!(resolving.step(CaptureEvent::Built(true)), resolving);
    assert_eq!(resolving.step(CaptureEvent::Requested(AudioDevice::Input(1))), resolving);
    assert_eq!(resolving.step(CaptureEvent::Dropped), resolving);
    let streaming = CaptureState::Streaming(device);
    assert_eq!(streaming.step(CaptureEvent::Built(true)), streaming);
    assert_eq!(streaming.step(CaptureEvent::Enumerated { inputs: 0, outputs: 0 }), streaming);
    let idle = CaptureState::Idle(StreamError::UnsupportedFormat);
    assert_eq!(idle.step(CaptureEvent::Dropped), idle);
    assert_eq!(idle.step(CaptureEvent::Configured(Some(SampleFormat::F32))), idle);
}

#[test]
fn idle_supervisor_takes_the_next_request() {
    let idle = CaptureState::Idle(StreamError::DeviceUnavailable);
    let state = idle.step(CaptureEvent::Requested(AudioDevice::Output(2)));
    assert_eq!(state, CaptureState::Resolving(AudioDevice::Output(2)));
}

#[test]
fn same_device_requested_again_is_opened_again() {
    let device = AudioDevice::Input(0);
    let mut open: i32 = 0;
    let mut most: i32 = 0;
    let state = settle(init_audio_sender(device), good(), &mut open, &mut most);
    let state = state.step(CaptureEvent::Requested(device));
    assert_eq!(state, CaptureState::Releasing(Some(device)));
    let state = settle(state, good(), &mut open, &mut most);
    assert_eq!(state, CaptureState::Streaming(device));
    assert_eq!(most, 1);
}
