use audiolizer::audio::{
    accept_format, device_selectors, iter_audio_devices, resolve_device, stream_audio,
    AudioDevice, HostReply, SampleFormat, StreamError,
};

fn names(list: &[&str]) -> Vec<String> {
    list.iter().map(|s| s.to_string()).collect()
}

#[test]
fn selectors_with_same_tag_and_position_are_equal() {
    assert_eq!(AudioDevice::Input(3), AudioDevice::Input(3));
    assert_eq!(AudioDevice::Output(0), AudioDevice::Output(0));
}

#[test]
fn selectors_with_different_positions_differ() {
    assert_ne!(AudioDevice::Input(0), AudioDevice::Input(1));
    assert_ne!(AudioDevice::Output(2), AudioDevice::Output(7));
}

#[test]
fn input_never_equals_output() {
    assert_ne!(AudioDevice::Input(0), AudioDevice::Output(0));
    assert_ne!(AudioDevice::Output(4), AudioDevice::Input(4));
    assert!(!(AudioDevice::Input(usize::MAX) == AudioDevice::Output(usize::MAX)));
}

#[test]
fn catalog_of_two_inputs_and_one_output() {
    let (inputs, outputs) = iter_audio_devices(
        Some(names(&["microphone", "line in"])),
        Some(names(&["speakers"])),
    );
    assert_eq!(inputs, names(&["microphone", "line in"]));
    assert_eq!(outputs, names(&["speakers"]));
    assert_eq!(
        device_selectors(true, inputs.len()),
        vec![AudioDevice::Input(0), AudioDevice::Input(1)]
    );
    assert_eq!(device_selectors(false, outputs.len()), vec![AudioDevice::Output(0)]);
}

#[test]
fn catalog_keeps_the_hosts_order() {
    let (inputs, _) = iter_audio_devices(Some(names(&["b", "a", "c"])), None);
    assert_eq!(inputs, names(&["b", "a", "c"]));
}

#[test]
fn failed_enumeration_gives_empty_lists() {
    let (inputs, outputs) = iter_audio_devices(None, None);
    assert!(inputs.is_empty());
    assert!(outputs.is_empty());
    let (inputs, outputs) = iter_audio_devices(None, Some(names(&["speakers"])));
    assert!(inputs.is_empty());
    assert_eq!(outputs.len(), 1);
}

#[test]
fn no_selectors_for_an_empty_catalog() {
    assert_eq!(device_selectors(true, 0), Vec::<AudioDevice>::new());
    assert_eq!(device_selectors(false, 0), Vec::<AudioDevice>::new());
}

#[test]
fn resolve_reads_the_list_of_the_selectors_direction() {
    assert_eq!(resolve_device(AudioDevice::Input(1), 2, 0), Ok(1));
    assert_eq!(resolve_device(AudioDevice::Output(0), 0, 1), Ok(0));
    assert_eq!(resolve_device(AudioDevice::Input(0), 0, 5), Err(StreamError::InvalidIndex));
    assert_eq!(resolve_device(AudioDevice::Output(1), 5, 1), Err(StreamError::InvalidIndex));
}

#[test]
fn resolve_rejects_the_first_position_past_the_end() {
    assert_eq!(resolve_device(AudioDevice::Input(2), 2, 9), Err(StreamError::InvalidIndex));
    assert_eq!(resolve_device(AudioDevice::Input(5), 2, 9), Err(StreamError::InvalidIndex));
    assert_eq!(resolve_device(AudioDevice::Output(0), 3, 0), Err(StreamError::InvalidIndex));
}

#[test]
fn only_float_samples_are_accepted() {
    assert_eq!(accept_format(Some(SampleFormat::F32)), Ok(()));
    assert_eq!(accept_format(Some(SampleFormat::I16)), Err(StreamError::UnsupportedFormat));
    assert_eq!(accept_format(Some(SampleFormat::U16)), Err(StreamError::UnsupportedFormat));
    assert_eq!(accept_format(None), Err(StreamError::DeviceUnavailable));
}

fn host(inputs: usize, outputs: usize, format: Option<SampleFormat>, started: bool) -> HostReply {
    HostReply { inputs, outputs, format, started }
}

#[test]
fn construction_succeeds_on_a_float_device_that_starts() {
    let reply = host(2, 1, Some(SampleFormat::F32), true);
    assert_eq!(stream_audio(AudioDevice::Input(1), reply), Ok(()));
    assert_eq!(stream_audio(AudioDevice::Output(0), reply), Ok(()));
}

#[test]
fn construction_fails_with_invalid_index() {
    let reply = host(2, 1, Some(SampleFormat::F32), true);
    assert_eq!(stream_audio(AudioDevice::Input(5), reply), Err(StreamError::InvalidIndex));
    assert_eq!(stream_audio(AudioDevice::Output(1), reply), Err(StreamError::InvalidIndex));
}

#[test]
fn construction_fails_with_unsupported_format() {
    let reply = host(2, 1, Some(SampleFormat::I16), true);
    assert_eq!(stream_audio(AudioDevice::Input(0), reply), Err(StreamError::UnsupportedFormat));
}

#[test]
fn construction_fails_with_device_unavailable() {
    let silent = host(2, 1, None, true);
    assert_eq!(stream_audio(AudioDevice::Input(0), silent), Err(StreamError::DeviceUnavailable));
    let busy = host(2, 1, Some(SampleFormat::F32), false);
    assert_eq!(stream_audio(AudioDevice::Input(0), busy), Err(StreamError::DeviceUnavailable));
}

#[test]
fn the_first_failing_check_decides() {
    let reply = host(0, 0, Some(SampleFormat::U16), false);
    assert_eq!(stream_audio(AudioDevice::Output(0), reply), Err(StreamError::InvalidIndex));
    let reply = host(1, 1, Some(SampleFormat::U16), false);
    assert_eq!(stream_audio(AudioDevice::Output(0), reply), Err(StreamError::UnsupportedFormat));
}
