use std::path::Path;

use meeting_transcriber::file_upload::{
    check_extension, conversion_args, path_extension, path_extension_for, validate_extension,
    validate_extension_for, wav_frame_count,
    ConversionOutcome, UploadAction, UploadEvent, UploadFlow, UploadStage, WavCounts,
};

const ACCEPTED: &str = "Accepted formats: mp3, wav, mp4, m4a";

#[test]
fn extension_matches_std_path() {
    for p in [
        "a/b/song.MP3",
        "song.mp3",
        ".bashrc",
        "foo.",
        "dir.d/file",
        "a/b.tar.gz",
        "song.mp3/",
        "song.mp3//",
        "song.mp3/.",
        "..",
        "a/..",
        ".",
        "./",
        "",
        "/",
        "/x.wav",
        "a/./b.m4a",
        "..wav",
        "a..b",
        "résumé.MP4",
    ] {
        let expected = Path::new(p).extension().map(|e| e.to_str().unwrap().to_string());
        assert_eq!(path_extension(p), expected, "path {p:?}");
    }
}

fn ext(path: &str, windows: bool) -> Option<String> {
    path_extension_for(path, windows)
}

#[test]
fn extension_under_windows_conventions() {
    assert_eq!(ext(r"C:\data\audio.wav\notes", true), None);
    assert_eq!(ext(r"C:\data\audio.wav\notes", false), Some(r"wav\notes".to_string()));
    assert_eq!(ext(r"C:\a\talk.mp3\", true), Some("mp3".to_string()));
    assert_eq!(ext(r"C:\Users\me\Meeting.M4A", true), Some("M4A".to_string()));
    assert_eq!(ext(r"C:\a\.\b.wav\.", true), Some("wav".to_string()));
    assert_eq!(ext(r"C:\a\..", true), None);
    assert_eq!(ext("C:talk.mp3", true), Some("mp3".to_string()));
    assert_eq!(ext("C:.wav", true), None);
    assert_eq!(ext("C:.wav", false), Some("wav".to_string()));
    assert_eq!(ext("D:", true), None);
    assert_eq!(ext(r"C:\", true), None);
    assert_eq!(ext(r"a/b\c.m4a", true), Some("m4a".to_string()));
    assert_eq!(ext("1:x.wav", true), Some("wav".to_string()));
    assert_eq!(
        validate_extension_for(r"C:\a\talk.mp3\", true),
        Ok(())
    );
    assert_eq!(
        validate_extension_for(r"C:\data\audio.wav\notes", true),
        Err(format!("Unsupported file format '.'. {ACCEPTED}"))
    );
    assert_eq!(
        validate_extension_for(r"C:\data\audio.wav\notes", false),
        Err(format!(r"Unsupported file format '.wav\notes'. {ACCEPTED}"))
    );
}

#[test]
fn platform_conventions_follow_std() {
    // On this platform the library reads paths as `std::path` does.
    let windows = std::path::is_separator('\\');
    for p in [r"C:\a\talk.mp3\", r"x\y.wav", "C:.wav", "plain.mp3"] {
        assert_eq!(path_extension(p), ext(p, windows), "path {p:?}");
        let expected = Path::new(p).extension().map(|e| e.to_str().unwrap().to_string());
        assert_eq!(path_extension(p), expected, "path {p:?}");
    }
}

#[test]
fn accepts_known_formats_in_any_case() {
    assert_eq!(validate_extension("meeting.mp3"), Ok(()));
    assert_eq!(validate_extension("C:/Users/me/Meeting.WAV"), Ok(()));
    assert_eq!(validate_extension("clip.Mp4"), Ok(()));
    assert_eq!(validate_extension("voice.m4a"), Ok(()));
    assert_eq!(check_extension("wav"), Ok(()));
}

#[test]
fn rejects_other_formats_with_the_list() {
    assert_eq!(
        validate_extension("notes.TXT"),
        Err(format!("Unsupported file format '.txt'. {ACCEPTED}"))
    );
    assert_eq!(
        validate_extension("no_extension"),
        Err(format!("Unsupported file format '.'. {ACCEPTED}"))
    );
    assert_eq!(
        check_extension("WAV"),
        Err(format!("Unsupported file format '.WAV'. {ACCEPTED}"))
    );
}

#[test]
fn conversion_command() {
    assert_eq!(
        conversion_args("in.mp4", "/tmp/out.wav"),
        vec!["-i", "in.mp4", "-ar", "16000", "-ac", "1", "-c:a", "pcm_s16le", "-y", "/tmp/out.wav"]
    );
    assert_eq!(wav_frame_count(32000, 2), 16000);
    assert_eq!(wav_frame_count(7, 2), 3);
}

fn flow(path: &str) -> UploadFlow {
    UploadFlow::new(path.to_string(), "/tmp/normalized_x.wav".to_string())
}

#[test]
fn successful_upload_runs_every_step_in_order() {
    let mut f = flow("talk.mp3");
    assert_eq!(f.current_stage(), UploadStage::CheckingTool);
    match f.step(UploadEvent::FfmpegProbed(true)) {
        UploadAction::CheckInputExists(p) => assert_eq!(p, "talk.mp3"),
        _ => panic!("should check the input next"),
    }
    match f.step(UploadEvent::InputChecked(true)) {
        UploadAction::RunFfmpeg(args) => {
            assert_eq!(args, conversion_args("talk.mp3", "/tmp/normalized_x.wav"))
        }
        _ => panic!("should convert next"),
    }
    match f.step(UploadEvent::Converted(ConversionOutcome::Exited { success: true, code: Some(0) })) {
        UploadAction::MeasureOutput(p) => assert_eq!(p, "/tmp/normalized_x.wav"),
        _ => panic!("should measure next"),
    }
    let counts = WavCounts { samples: 48000, channels: 1, sample_rate: 16000 };
    match f.step(UploadEvent::Measured(Ok(counts))) {
        UploadAction::Finish { normalized_path, frames, sample_rate } => {
            assert_eq!(normalized_path, "/tmp/normalized_x.wav");
            assert_eq!(frames, 48000);
            assert_eq!(sample_rate, 16000);
        }
        _ => panic!("should finish"),
    }
    assert_eq!(f.current_stage(), UploadStage::Done);
}

fn fail_message(a: UploadAction) -> String {
    match a {
        UploadAction::Fail(m) => m,
        _ => panic!("expected a failure"),
    }
}

#[test]
fn upload_failures() {
    let mut f = flow("talk.mp3");
    assert_eq!(
        fail_message(f.step(UploadEvent::FfmpegProbed(false))),
        "ffmpeg not found on PATH — please reinstall the app or install ffmpeg"
    );
    assert_eq!(f.current_stage(), UploadStage::Done);

    let mut f = flow("slides.pdf");
    assert_eq!(
        fail_message(f.step(UploadEvent::FfmpegProbed(true))),
        format!("Unsupported file format '.pdf'. {ACCEPTED}")
    );

    let mut f = flow("gone.wav");
    f.step(UploadEvent::FfmpegProbed(true));
    assert_eq!(fail_message(f.step(UploadEvent::InputChecked(false))), "File not found: gone.wav");

    let mut f = flow("a.wav");
    f.step(UploadEvent::FfmpegProbed(true));
    f.step(UploadEvent::InputChecked(true));
    assert_eq!(
        fail_message(f.step(UploadEvent::Converted(ConversionOutcome::LaunchFailed(
            "No such file or directory (os error 2)".to_string()
        )))),
        "Failed to run ffmpeg: No such file or directory (os error 2)"
    );

    let mut f = flow("a.wav");
    f.step(UploadEvent::FfmpegProbed(true));
    f.step(UploadEvent::InputChecked(true));
    assert_eq!(
        fail_message(f.step(UploadEvent::Converted(ConversionOutcome::Exited {
            success: false,
            code: Some(1)
        }))),
        "ffmpeg failed to convert the file (exit code: 1). The file may be corrupted or in an unexpected format."
    );

    let mut f = flow("a.wav");
    f.step(UploadEvent::FfmpegProbed(true));
    f.step(UploadEvent::InputChecked(true));
    assert_eq!(
        fail_message(f.step(UploadEvent::Converted(ConversionOutcome::Exited {
            success: false,
            code: None
        }))),
        "ffmpeg failed to convert the file (exit code: -1). The file may be corrupted or in an unexpected format."
    );

    let mut f = flow("a.wav");
    f.step(UploadEvent::FfmpegProbed(true));
    f.step(UploadEvent::InputChecked(true));
    f.step(UploadEvent::Converted(ConversionOutcome::Exited { success: true, code: Some(0) }));
    assert_eq!(
        fail_message(f.step(UploadEvent::Measured(Err("bad header".to_string())))),
        "Failed to open output WAV: bad header"
    );
}

#[test]
fn no_conversion_without_all_checks() {
    // A rejected extension never reaches the conversion, whatever follows.
    let mut f = flow("notes.txt");
    assert!(matches!(f.step(UploadEvent::FfmpegProbed(true)), UploadAction::Fail(_)));
    assert_eq!(f.current_stage(), UploadStage::Done);
}
