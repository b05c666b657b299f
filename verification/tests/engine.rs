use kugou_tui::audio::devices::{
    default_label, find_device, is_server_routed, is_sound_server_pcm, list_output_devices,
    open_attempts, output_devices, DeviceInfo, OpenAttempt, DEFAULT_DEVICE_LABEL,
};
use kugou_tui::audio::engine::{
    classify_drain, clamp_to_track, AudioCmd, AudioEvent, AudioSource, DrainOutcome, LoadAction,
    PlaybackState, PlayerOrder, PlayerStatus, Runtime, Shared,
};
use kugou_tui::audio::streaming::StreamingBuffer;
use kugou_tui::audio::volume::sane_volume;

#[test]
fn playback_state_code_round_trips() {
    for state in [
        PlaybackState::Stopped,
        PlaybackState::Loading,
        PlaybackState::Playing,
        PlaybackState::Paused,
    ] {
        assert_eq!(PlaybackState::from_code(state.code()), state);
    }
}

#[test]
fn unknown_code_falls_back_to_stopped() {
    assert_eq!(PlaybackState::from_code(200), PlaybackState::Stopped);
}

#[test]
fn shared_clamps_volume() {
    let mut shared = Shared::new(2.0f32.to_bits());
    assert!((f32::from_bits(shared.volume()) - 1.0).abs() < f32::EPSILON);

    shared.set_volume((-1.0f32).to_bits());
    assert!(f32::from_bits(shared.volume()).abs() < f32::EPSILON);
}

#[test]
fn file_source_drain_is_a_finished_track() {
    assert_eq!(classify_drain(None), DrainOutcome::Finished);
}

#[test]
fn completed_stream_drain_is_a_finished_track() {
    let mut stream = StreamingBuffer::new(Some(4));
    stream.push(b"abcd");
    stream.finish(None);
    assert_eq!(classify_drain(Some(&stream)), DrainOutcome::Finished);
}

#[test]
fn starving_stream_drain_is_an_interruption() {
    let mut stream = StreamingBuffer::new(None);
    stream.push(b"abcd");
    assert_eq!(classify_drain(Some(&stream)), DrainOutcome::Interrupted);
}

#[test]
fn failed_stream_drain_reports_the_reason() {
    let mut stream = StreamingBuffer::new(None);
    stream.finish(Some("连接被重置".to_string()));
    assert_eq!(
        classify_drain(Some(&stream)),
        DrainOutcome::Failed("连接被重置".to_string())
    );
}

#[test]
fn cancelled_stream_drain_is_silent() {
    let mut stream = StreamingBuffer::new(None);
    stream.push(b"abcd");
    stream.cancel();
    assert_eq!(classify_drain(Some(&stream)), DrainOutcome::Silent);
}

#[test]
fn cancellation_takes_precedence_over_error() {
    let mut stream = StreamingBuffer::new(None);
    stream.cancel();
    assert_eq!(classify_drain(Some(&stream)), DrainOutcome::Silent);
}

#[test]
fn sound_server_pcm_detection() {
    assert!(is_sound_server_pcm("pipewire"));
    assert!(is_sound_server_pcm("pulse"));
    for driver in ["default", "sysdefault", "hw:CARD=Device,DEV=0", "null"] {
        assert!(!is_sound_server_pcm(driver), "{driver} 不该被认成服务器本体");
    }
}

#[test]
fn server_routed_devices_are_safe_to_share() {
    for driver in ["default", "pipewire", "pulse"] {
        assert!(is_server_routed(driver), "{driver} 应当被视为可共享");
    }
    for driver in [
        "sysdefault",
        "sysdefault:CARD=Device,DEV=0",
        "hw:CARD=Device,DEV=0",
        "plughw:CARD=0,DEV=0",
        "front:CARD=Device,DEV=0",
        "surround51:CARD=Device,DEV=0",
        "iec958:CARD=Device,DEV=0",
        "dmix",
        "null",
    ] {
        assert!(!is_server_routed(driver), "{driver} 直连硬件，必须被过滤");
    }
}

fn device(driver: &str, name: &str) -> DeviceInfo {
    DeviceInfo {
        driver: Some(driver.to_string()),
        name: Some(name.to_string()),
        has_output_config: true,
    }
}

#[test]
fn with_a_sound_server_only_shared_devices_are_offered() {
    let devices = vec![
        device("sysdefault", "Default Audio Device"),
        device("pipewire", "PipeWire"),
        device("default", "System"),
        device("hw:CARD=Device,DEV=0", "USB"),
    ];
    assert_eq!(
        list_output_devices(&devices),
        vec!["PipeWire".to_string(), "System".to_string()]
    );
    assert_eq!(output_devices(&devices), vec![1, 2]);
    assert!(find_device(&devices, "USB").is_err());
    assert_eq!(find_device(&devices, "System"), Ok(2));
    let attempts = open_attempts(Some("PipeWire"), &devices);
    assert_eq!(attempts.len(), 2);
    assert_eq!(
        attempts[0],
        OpenAttempt::Device { index: 1, label: "PipeWire".to_string() }
    );
    assert!(matches!(attempts[1], OpenAttempt::ServerDefault { .. }));
}

#[test]
fn without_a_sound_server_every_device_is_offered() {
    let devices = vec![device("hw:CARD=Device,DEV=0", "USB"), device("dmix", "Mix")];
    assert_eq!(
        list_output_devices(&devices),
        vec!["USB".to_string(), "Mix".to_string()]
    );
    let attempts = open_attempts(Some("no such device"), &devices);
    assert_eq!(attempts.len(), 1);
    assert!(matches!(attempts[0], OpenAttempt::BareDefault { .. }));
    assert_eq!(default_label(&Vec::new()), DEFAULT_DEVICE_LABEL);
}

#[test]
fn labels_of_the_states() {
    assert_eq!(PlaybackState::Stopped.label(), "已停止");
    assert_eq!(PlaybackState::Loading.label(), "缓冲中");
    assert_eq!(PlaybackState::Playing.label(), "播放中");
    assert_eq!(PlaybackState::Paused.label(), "已暂停");
}

#[test]
fn volumes_that_are_no_numbers_give_the_default() {
    assert_eq!(f32::from_bits(sane_volume(f32::NAN.to_bits())), 0.7);
    assert_eq!(f32::from_bits(sane_volume(f32::INFINITY.to_bits())), 0.7);
    assert_eq!(f32::from_bits(sane_volume(0.25f32.to_bits())), 0.25);
    assert_eq!(f32::from_bits(sane_volume(9.0f32.to_bits())), 1.0);
}

#[test]
fn positions_stay_within_the_track() {
    assert_eq!(clamp_to_track(5000, 3000), 2999);
    assert_eq!(clamp_to_track(1000, 3000), 1000);
    assert_eq!(clamp_to_track(5000, 0), 5000);
}

fn playing(position_ms: u64) -> PlayerStatus {
    PlayerStatus { paused: false, drained: false, position_ms }
}

#[test]
fn a_loaded_track_plays_and_ends_once() {
    let mut runtime = Runtime::started(1.0f32.to_bits());
    let (action, event) =
        runtime.load(&AudioSource::File("/c/a.mp3".to_string()), 0, 4000, Ok(None));
    assert_eq!(action, LoadAction::Play { seek_to: None });
    assert_eq!(event, Some(AudioEvent::Ready { duration_ms: 4000 }));
    assert_eq!(runtime.sync(playing(1500), None), None);
    assert_eq!(runtime.shared.position_ms(), 1500);
    let drained = PlayerStatus { paused: false, drained: true, position_ms: 0 };
    assert_eq!(runtime.sync(drained, None), Some(AudioEvent::TrackFinished));
    assert_eq!(runtime.sync(drained, None), None);
}

#[test]
fn a_starving_stream_is_interrupted_at_its_place() {
    let mut runtime = Runtime::started(1.0f32.to_bits());
    let mut stream = StreamingBuffer::new(None);
    stream.push(b"abcd");
    runtime.load(&AudioSource::Stream(7), 0, 4000, Ok(Some(5000)));
    runtime.sync(playing(1500), Some(&stream));
    let drained = PlayerStatus { paused: false, drained: true, position_ms: 0 };
    assert_eq!(
        runtime.sync(drained, Some(&stream)),
        Some(AudioEvent::StreamInterrupted { position_ms: 1500 })
    );
}

#[test]
fn tracks_that_cannot_be_decoded_fail() {
    let mut runtime = Runtime::started(1.0f32.to_bits());
    let (action, event) = runtime.load(
        &AudioSource::File("/c/a.mp3".to_string()),
        0,
        0,
        Err("坏文件".to_string()),
    );
    assert_eq!(action, LoadAction::Failed);
    assert_eq!(event, Some(AudioEvent::Failed("坏文件".to_string())));
    assert_eq!(runtime.shared.state(), PlaybackState::Stopped);
}

#[test]
fn a_track_can_start_in_its_middle() {
    let mut runtime = Runtime::started(1.0f32.to_bits());
    let (action, _) =
        runtime.load(&AudioSource::File("/c/a.mp3".to_string()), 2500, 4000, Ok(Some(0)));
    assert_eq!(action, LoadAction::Play { seek_to: Some(2500) });
    assert_eq!(runtime.shared.duration_ms(), 4000);
    assert_eq!(runtime.seek_to(9000), Some(3999));
    assert_eq!(runtime.seek_by(-9000), 0);
}

#[test]
fn commands_become_orders_for_the_player() {
    let mut runtime = Runtime::started(1.0f32.to_bits());
    assert_eq!(runtime.handle(AudioCmd::Toggle, false), PlayerOrder::Nothing);
    let load = AudioCmd::Load {
        source: AudioSource::Stream(3),
        start_at_ms: 10,
        expected_duration_ms: 4000,
    };
    assert_eq!(
        runtime.handle(load, false),
        PlayerOrder::Decode {
            source: AudioSource::Stream(3),
            start_at_ms: 10,
            expected_duration_ms: 4000,
        }
    );
    runtime.load(&AudioSource::Stream(3), 10, 4000, Ok(None));
    assert_eq!(runtime.handle(AudioCmd::Toggle, false), PlayerOrder::Pause);
    assert_eq!(runtime.shared.state(), PlaybackState::Paused);
    assert_eq!(runtime.handle(AudioCmd::Toggle, true), PlayerOrder::Resume);
    assert_eq!(runtime.handle(AudioCmd::SeekBy(-20), false), PlayerOrder::SeekTo(0));
    assert_eq!(runtime.handle(AudioCmd::SeekTo(9000), false), PlayerOrder::SeekTo(3999));
    assert_eq!(
        runtime.handle(AudioCmd::UseDevice(None), false),
        PlayerOrder::OpenDevice(None)
    );
    assert_eq!(runtime.handle(AudioCmd::Stop, false), PlayerOrder::Stop);
    assert_eq!(runtime.stream, None);
    assert_eq!(runtime.handle(AudioCmd::Shutdown, false), PlayerOrder::Nothing);
}
