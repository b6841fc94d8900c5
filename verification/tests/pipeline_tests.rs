use site_recorder::assembler::{EncodingError, assemble_args, assemble_outcome, frame_pattern};
use site_recorder::encoder::{
    CaptureBackend, EncoderFollowUp, EncoderState, EncoderStopCommand, ScreenEncoderSupervisor,
    capture_args,
};
use site_recorder::naming::{domain_label, frames_dir_path, video_file_name};
use site_recorder::recorder::{RecorderError, RecordingConfig};
use site_recorder::sampler::{FrameSink, frame_file_name, frame_interval_ms};
use site_recorder::strutil::{join_path, u64_to_dec};

#[test]
fn decimal_rendering_is_exact() {
    assert_eq!(u64_to_dec(0), "0");
    assert_eq!(u64_to_dec(7), "7");
    assert_eq!(u64_to_dec(30), "30");
    assert_eq!(u64_to_dec(123456789), "123456789");
    assert_eq!(u64_to_dec(u64::MAX), "18446744073709551615");
}

#[test]
fn paths_join_with_one_separator() {
    assert_eq!(join_path("./out", "file.mp4"), "./out/file.mp4");
    assert_eq!(frames_dir_path("./out", "s1"), "./out/s1");
}

#[test]
fn domain_labels_drop_www_and_tld() {
    assert_eq!(domain_label("github.com"), "github");
    assert_eq!(domain_label("www.github.com"), "github");
    assert_eq!(domain_label("sub.example.co.uk"), "sub");
    assert_eq!(domain_label("localhost"), "localhost");
}

#[test]
fn video_names_derive_from_host_or_session() {
    let url = "https://www.github.com/some/repo".to_string();
    assert_eq!(
        video_file_name(Some(&url), "sid", "20240101_000000", "mp4"),
        "github_20240101_000000.mp4"
    );
    assert_eq!(
        video_file_name(None, "sid", "20240101_000000", "webm"),
        "sid_20240101_000000.webm"
    );
    let hostless = "data:text/plain,x".to_string();
    assert_eq!(
        video_file_name(Some(&hostless), "sid", "20240101_000000", "mp4"),
        "recording_20240101_000000_20240101_000000.mp4"
    );
}

#[test]
fn frame_files_are_zero_padded() {
    assert_eq!(frame_file_name(0), "frame_000000.png");
    assert_eq!(frame_file_name(42), "frame_000042.png");
    assert_eq!(frame_file_name(999999), "frame_999999.png");
    assert_eq!(frame_file_name(1000000), "frame_1000000.png");
}

#[test]
fn frame_sink_numbers_saves_contiguously() {
    let mut sink = FrameSink::for_session("./out", "s1");
    assert_eq!(sink.next_frame_path(), "./out/s1/frame_000000.png");
    sink.frame_saved();
    assert_eq!(sink.next_frame_path(), "./out/s1/frame_000001.png");
    // a failed capture or save is not recorded and consumes no index
    assert_eq!(sink.next_frame_path(), "./out/s1/frame_000001.png");
    sink.frame_saved();
    assert_eq!(sink.frames_written(), 2);
}

#[test]
fn sampler_cadence_divides_one_second() {
    assert_eq!(frame_interval_ms(30), 33);
    assert_eq!(frame_interval_ms(1), 1000);
    assert_eq!(frame_interval_ms(60), 16);
}

#[test]
fn assembly_arguments_are_fixed() {
    let args = assemble_args("./out/s1", "./out/v.mp4", 30);
    assert_eq!(
        args,
        vec![
            "-framerate",
            "30",
            "-i",
            "./out/s1/frame_%06d.png",
            "-c:v",
            "libx264",
            "-pix_fmt",
            "yuv420p",
            "-y",
            "./out/v.mp4",
        ]
    );
    assert_eq!(frame_pattern("d"), "d/frame_%06d.png");
}

#[test]
fn assembly_outcomes_map_to_errors() {
    assert!(assemble_outcome(true, true, String::new()).is_ok());
    assert!(matches!(
        assemble_outcome(false, true, String::new()),
        Err(EncodingError::ToolMissing)
    ));
    match assemble_outcome(true, false, "boom".to_string()) {
        Err(EncodingError::ToolFailed(d)) => assert_eq!(d, "boom"),
        _ => panic!("expected a tool failure"),
    }
}

#[test]
fn capture_arguments_follow_backend_and_quality() {
    let mut config = RecordingConfig::default();
    config.fps = 25;
    config.quality = 80;
    let backend = CaptureBackend::X11Grab { display: ":0".to_string() };
    let args = capture_args(&config, &backend, "out.mp4");
    assert_eq!(
        args,
        vec![
            "-f",
            "x11grab",
            "-framerate",
            "25",
            "-video_size",
            "1920x1080",
            "-i",
            ":0",
            "-c:v",
            "libx264",
            "-preset",
            "ultrafast",
            "-crf",
            "11",
            "-pix_fmt",
            "yuv420p",
            "-y",
            "out.mp4",
        ]
    );
}

#[test]
fn audio_capture_adds_source_and_codec() {
    let mut config = RecordingConfig::default();
    config.audio_enabled = true;
    let args = capture_args(&config, &CaptureBackend::GdiGrab, "o.mp4");
    let strs: Vec<&str> = args.iter().map(|s| s.as_str()).collect();
    assert!(strs.windows(2).any(|w| w == ["-f", "dshow"]));
    assert!(strs.windows(2).any(|w| w == ["-c:a", "aac"]));
}

#[test]
fn encoder_supervisor_two_phase_shutdown() {
    let mut sup = ScreenEncoderSupervisor::new();
    assert!(matches!(
        ScreenEncoderSupervisor::require_tool(false),
        Err(RecorderError::StartFailed(_))
    ));
    assert!(ScreenEncoderSupervisor::require_tool(true).is_ok());

    sup.note_spawned(true, String::new()).unwrap();
    assert_eq!(sup.request_stop(), EncoderStopCommand::SendQuit { wait_ms: 3000 });
    assert_eq!(sup.note_wait_result(false), EncoderFollowUp::ForceKill);
    // a second stop after the handle is consumed is a harmless no-op
    assert_eq!(sup.request_stop(), EncoderStopCommand::NoProcess);
    let _ = EncoderState::Stopped;
}

#[test]
fn dead_encoder_process_fails_the_start() {
    let mut sup = ScreenEncoderSupervisor::new();
    let r = sup.note_spawned(false, "exited with code 1".to_string());
    assert!(matches!(r, Err(RecorderError::StartFailed(_))));
    // nothing was launched, so a stop has nothing to do
    assert_eq!(sup.request_stop(), EncoderStopCommand::NoProcess);
}
