use meeting_transcriber::audio::{
    backlog_drain, decoded_sample_width, timed_drain_continues, BacklogDrain, LoopbackStart,
    LoopbackStop, StartNext,
};
use meeting_transcriber::audio::{
    loopback_capture_result, loopback_unsupported_error, mic_finalize_error, normalize_args,
    normalized_file_name, normalized_or_raw, recording_file_name, CaptureExit, NormalizeOutcome,
    RecordingState, StartRecordingResponse, TARGET_CHANNELS, TARGET_SAMPLE_RATE,
};
use meeting_transcriber::audio::unix_timestamp;

type TestState = RecordingState<u64, &'static str, &'static str, &'static str, &'static str>;

const BUSY: &str = "A recording is already in progress. Stop it before starting a new one.";

fn is_uuid_v4_text(s: &str) -> bool {
    let b = s.as_bytes();
    if b.len() != 36 {
        return false;
    }
    for (i, c) in b.iter().enumerate() {
        if i == 8 || i == 13 || i == 18 || i == 23 {
            if *c != b'-' {
                return false;
            }
        } else if !(c.is_ascii_digit() || (b'a'..=b'f').contains(c)) {
            return false;
        }
    }
    b[14] == b'4' && matches!(b[19], b'8' | b'9' | b'a' | b'b')
}

#[test]
fn rejects_second_recording_while_active() {
    let mut state: TestState = RecordingState::new();

    // First start: the guard admits it and marks the recording as active.
    assert!(!state.is_recording(), "fresh state should have no active recording");
    assert!(state.begin_start(1).is_ok());

    // Second start hits the guard.
    let result = state.begin_start(2);
    assert_eq!(
        result.unwrap_err(),
        "A recording is already in progress. Stop it before starting a new one."
    );
}

#[test]
fn allows_recording_after_stop() {
    let mut state: TestState = RecordingState::new();

    // Start
    assert!(!state.is_recording());
    assert!(state.begin_start(10).is_ok());

    // Stop — clears the flag
    assert_eq!(state.take_started(), Ok(10));

    // Second start should succeed
    assert!(!state.is_recording());
    assert!(state.begin_start(20).is_ok());

    // Confirm it's set
    assert!(state.is_recording());
}

#[test]
fn rejected_start_keeps_first_start_instant() {
    let mut state: TestState = RecordingState::new();
    state.begin_start(5).unwrap();
    assert_eq!(state.begin_start(6).unwrap_err(), BUSY);
    assert_eq!(state.take_started(), Ok(5));
}

#[test]
fn stop_without_recording_is_refused() {
    let mut state: TestState = RecordingState::new();
    assert_eq!(
        state.take_started().unwrap_err(),
        "No recording is currently in progress"
    );
    assert!(!state.is_recording());
}

#[test]
fn recording_id_is_a_fresh_v4_uuid() {
    let mut state: TestState = RecordingState::new();
    let a = state.begin_start(1).unwrap();
    state.take_started().unwrap();
    let b = state.begin_start(2).unwrap();
    assert!(is_uuid_v4_text(&a), "{a}");
    assert!(is_uuid_v4_text(&b), "{b}");
    assert_ne!(a, b);
}

#[test]
fn loopback_parts_are_taken_once() {
    let mut state: TestState = RecordingState::new();
    assert_eq!(
        state.take_stop_flag().unwrap_err(),
        "Loopback stop flag not found"
    );
    assert_eq!(
        state.take_loopback_handle().unwrap_err(),
        "Loopback recording handle not found"
    );
    state.attach_loopback("flag", "handle");
    assert_eq!(state.take_stop_flag(), Ok("flag"));
    assert_eq!(state.take_loopback_handle(), Ok("handle"));
    assert!(state.take_stop_flag().is_err());
    assert!(state.take_loopback_handle().is_err());
}

#[test]
fn mic_parts_are_taken_once() {
    let mut state: TestState = RecordingState::new();
    assert_eq!(state.take_mic_stream(), None);
    assert_eq!(state.take_mic_writer(), None);
    assert_eq!(
        state.take_mic_file_path().unwrap_err(),
        "Mic file path not recorded"
    );
    assert_eq!(state.mic_sample_count(), 0);
    state.attach_mic("stream", "writer", "/tmp/mic_x.wav".to_string(), 42);
    assert_eq!(state.mic_sample_count(), 42);
    assert_eq!(state.take_mic_stream(), Some("stream"));
    assert_eq!(state.take_mic_writer(), Some("writer"));
    assert_eq!(state.take_mic_file_path(), Ok("/tmp/mic_x.wav".to_string()));
    assert_eq!(state.take_mic_stream(), None);
}

#[test]
fn started_response_is_stamped_in_utc() {
    let r = StartRecordingResponse::started_now("id-1".to_string(), true)
        .expect("the system clock reads a time within chrono's calendar");
    assert_eq!(r.recording_id, "id-1");
    assert!(r.mic_enabled);
    assert!(r.started_at.ends_with("+00:00"), "{}", r.started_at);
    let t = r.started_at.find('T').expect("date and time are separated by T");
    assert_eq!(&r.started_at[t - 6..t - 5], "-");
    assert_eq!(&r.started_at[t + 3..t + 4], ":");
    let fraction = &r.started_at[t + 9..r.started_at.len() - 6];
    assert!(matches!(fraction.len(), 0 | 4 | 7 | 10), "{}", r.started_at);
    assert!(chrono::DateTime::parse_from_rfc3339(&r.started_at).is_ok());
}

#[test]
fn started_response_at_a_given_timestamp() {
    let r = StartRecordingResponse::started_at_timestamp("id-2".to_string(), false, 1714555800, 123_000_000)
        .unwrap();
    assert_eq!(r.started_at, "2024-05-01T09:30:00.123+00:00");
    assert_eq!(r.recording_id, "id-2");
    assert!(!r.mic_enabled);
    let r = StartRecordingResponse::started_at_timestamp("x".to_string(), true, 1_000_000_000, 0).unwrap();
    assert_eq!(r.started_at, "2001-09-09T01:46:40+00:00");
    let r = StartRecordingResponse::started_at_timestamp("x".to_string(), true, -1, 500_000).unwrap();
    assert_eq!(r.started_at, "1969-12-31T23:59:59.000500+00:00");
    // Years outside 0..=9999 carry a sign.
    let r = StartRecordingResponse::started_at_timestamp("x".to_string(), true, -62_167_219_201, 0)
        .unwrap();
    assert_eq!(r.started_at, "-0001-12-31T23:59:59+00:00");
    let r = StartRecordingResponse::started_at_timestamp("x".to_string(), true, 253_402_300_800, 1)
        .unwrap();
    assert_eq!(r.started_at, "+10000-01-01T00:00:00.000000001+00:00");
    // Outside chrono's calendar, or with an invalid nanosecond count, there is no time.
    assert!(StartRecordingResponse::started_at_timestamp("x".to_string(), true, i64::MAX, 0).is_none());
    assert!(StartRecordingResponse::started_at_timestamp("x".to_string(), true, 0, 2_000_000_000)
        .is_none());
}

#[test]
fn clock_readings_become_timestamps() {
    assert_eq!(unix_timestamp(true, 1714555800, 5), Some((1714555800, 5)));
    assert_eq!(unix_timestamp(false, 1, 0), Some((-1, 0)));
    assert_eq!(unix_timestamp(false, 1, 250_000_000), Some((-2, 750_000_000)));
    assert_eq!(unix_timestamp(false, 1 << 63, 0), Some((i64::MIN, 0)));
    assert_eq!(unix_timestamp(false, 1 << 63, 1), None);
    assert_eq!(unix_timestamp(true, 1 << 63, 0), None);
    assert_eq!(unix_timestamp(true, 0, 1_000_000_000), None);
}

#[test]
fn capture_file_names() {
    assert_eq!(recording_file_name("mic", "abc"), "mic_abc.wav");
    assert_eq!(recording_file_name("loopback", "r1"), "loopback_r1.wav");
    let n = normalized_file_name();
    assert!(n.starts_with("normalized_") && n.ends_with(".wav"), "{n}");
    assert!(is_uuid_v4_text(&n["normalized_".len()..n.len() - 4]), "{n}");
    assert_ne!(normalized_file_name(), n);
}

#[test]
fn normalization_command_and_fallback() {
    assert_eq!(TARGET_SAMPLE_RATE, 16000);
    assert_eq!(TARGET_CHANNELS, 1);
    assert_eq!(
        normalize_args("/tmp/raw.wav", "/tmp/out.wav"),
        vec![
            "-i",
            "/tmp/raw.wav",
            "-af",
            "loudnorm=I=-16:LRA=11:TP=-1.5",
            "-ar",
            "16000",
            "-ac",
            "1",
            "-c:a",
            "pcm_s16le",
            "-y",
            "/tmp/out.wav"
        ]
    );
    assert_eq!(normalized_or_raw("raw", "norm", NormalizeOutcome::Converted), "norm");
    assert_eq!(normalized_or_raw("raw", "norm", NormalizeOutcome::ConversionFailed), "raw");
    assert_eq!(normalized_or_raw("raw", "norm", NormalizeOutcome::LaunchFailed), "raw");
    assert_eq!(normalized_or_raw("raw", "norm", NormalizeOutcome::SourceMissing), "raw");
}

#[test]
fn stop_errors() {
    assert_eq!(
        loopback_capture_result(CaptureExit::Finished("/tmp/l.wav".to_string())),
        Ok(Some("/tmp/l.wav".to_string()))
    );
    assert_eq!(loopback_capture_result(CaptureExit::NotRunning), Ok(None));
    assert_eq!(
        loopback_capture_result(CaptureExit::Failed("boom".to_string())),
        Err("Loopback capture failed: boom".to_string())
    );
    assert_eq!(
        loopback_capture_result(CaptureExit::Panicked("Any { .. }".to_string())),
        Err("Loopback capture thread panicked: Any { .. }".to_string())
    );
    assert_eq!(
        mic_finalize_error("disk full"),
        "Failed to finalize mic WAV: disk full"
    );
    assert_eq!(
        loopback_unsupported_error(),
        "System audio capture is not yet supported on this OS. Live Mode currently requires Windows — see the project README for details."
    );
}

const UNSUPPORTED: &str = "System audio capture is not yet supported on this OS. Live Mode currently requires Windows — see the project README for details.";

#[test]
fn start_with_system_audio_then_stop_signals_and_joins() {
    let mut state: TestState = RecordingState::new();
    state.begin_start(3).unwrap();
    let next = state.on_loopback_start(
        LoopbackStart::Started { stop_flag: "flag", handle: "handle" },
        false,
    );
    assert!(matches!(next, StartNext::Finish));
    match state.begin_stop() {
        Ok((3, LoopbackStop::SignalThenJoin { stop_flag, handle })) => {
            assert_eq!((stop_flag, handle), ("flag", "handle"));
        }
        _ => panic!("stop should signal and join the capture"),
    }
    assert!(!state.is_recording());
}

#[test]
fn system_audio_and_microphone() {
    let mut state: TestState = RecordingState::new();
    state.begin_start(1).unwrap();
    let next = state.on_loopback_start(LoopbackStart::Started { stop_flag: "f", handle: "h" }, true);
    assert!(matches!(next, StartNext::StartMic));
}

#[test]
fn mic_only_where_system_audio_is_unsupported() {
    let mut state: TestState = RecordingState::new();
    state.begin_start(7).unwrap();
    let next = state.on_loopback_start(LoopbackStart::Unsupported, true);
    assert!(matches!(next, StartNext::StartMic));
    state.attach_mic("stream", "writer", "/tmp/mic.wav".to_string(), 0);
    match state.begin_stop() {
        Ok((7, LoopbackStop::NotCaptured)) => {}
        _ => panic!("a mic-only recording has no capture to join"),
    }
    assert_eq!(state.take_mic_writer(), Some("writer"));
    // The next recording again tries system audio.
    state.begin_start(8).unwrap();
    state.on_loopback_start(LoopbackStart::Started { stop_flag: "f", handle: "h" }, false);
    assert!(matches!(state.begin_stop(), Ok((8, LoopbackStop::SignalThenJoin { .. }))));
}

#[test]
fn stop_takes_capture_parts_even_when_marked_without_system_audio() {
    let mut state: TestState = RecordingState::new();
    state.begin_start(3).unwrap();
    state.on_loopback_start(LoopbackStart::Unsupported, true);
    state.attach_loopback("f", "h");
    match state.begin_stop() {
        Ok((3, LoopbackStop::SignalThenJoin { stop_flag: "f", handle: "h" })) => {}
        _ => panic!("held capture parts are handed over to be stopped"),
    }
    assert_eq!(state.take_stop_flag().unwrap_err(), "Loopback stop flag not found");
    assert_eq!(state.take_loopback_handle().unwrap_err(), "Loopback recording handle not found");
    // The mark does not outlive the recording.
    state.begin_start(4).unwrap();
    match state.begin_stop() {
        Err(m) => assert_eq!(m, "Loopback stop flag not found"),
        _ => panic!("the next recording again expects system audio"),
    }
}

#[test]
fn unsupported_system_audio_without_mic_is_refused() {
    let mut state: TestState = RecordingState::new();
    state.begin_start(1).unwrap();
    match state.on_loopback_start(LoopbackStart::Unsupported, false) {
        StartNext::Fail(m) => assert_eq!(m, UNSUPPORTED),
        _ => panic!("should fail"),
    }
    match state.on_loopback_start(LoopbackStart::Failed("no device".to_string()), true) {
        StartNext::Fail(m) => assert_eq!(m, "no device"),
        _ => panic!("should fail"),
    }
    // As before, the failed start leaves the recording marked as started,
    // and the stop then reports the missing capture.
    assert!(state.is_recording());
    match state.begin_stop() {
        Err(m) => assert_eq!(m, "Loopback stop flag not found"),
        _ => panic!("stop should report the missing capture"),
    }
    assert!(!state.is_recording());
}

#[test]
fn stop_when_idle_changes_nothing() {
    let mut state: TestState = RecordingState::new();
    match state.begin_stop() {
        Err(m) => assert_eq!(m, "No recording is currently in progress"),
        _ => panic!("no recording to stop"),
    }
}

#[test]
fn backlog_drain_decisions() {
    assert!(matches!(backlog_drain(Some(480)), BacklogDrain::SingleRead));
    assert!(matches!(backlog_drain(Some(0)), BacklogDrain::Nothing));
    assert!(matches!(backlog_drain(None), BacklogDrain::TimeBounded));
    assert!(timed_drain_continues(false, 0));
    assert!(timed_drain_continues(false, 199));
    assert!(!timed_drain_continues(false, 200));
    assert!(!timed_drain_continues(true, 0));
}

#[test]
fn sample_widths() {
    assert_eq!(decoded_sample_width(32, true), Some(4));
    assert_eq!(decoded_sample_width(32, false), None);
    assert_eq!(decoded_sample_width(16, true), Some(2));
    assert_eq!(decoded_sample_width(24, false), Some(3));
    assert_eq!(decoded_sample_width(8, false), Some(1));
    assert_eq!(decoded_sample_width(20, false), None);
}
