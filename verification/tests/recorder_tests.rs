use site_recorder::recorder::{
    Recorder, RecorderError, RecordingConfig, RecordingMode, VideoFormat,
};

fn config(mode: RecordingMode, fps: u32) -> RecordingConfig {
    let mut c = RecordingConfig::default();
    c.output_dir = "./recordings".to_string();
    c.mode = mode;
    c.fps = fps;
    c
}

#[test]
fn test_recorder_creation() {
    let config = RecordingConfig::default();
    let recorder = Recorder::new(config);
    assert!(!recorder.is_recording());
}

#[test]
fn test_start_stop_recording() {
    let config = RecordingConfig::default();
    let mut recorder = Recorder::new(config);

    recorder
        .start_recording(
            "test-123".to_string(),
            Some("https://example.com".to_string()),
            1_700_000_000,
            "20240101_120000".to_string(),
        )
        .unwrap();
    assert!(recorder.is_recording());

    recorder.stop_recording(1_700_000_005).unwrap();
    let file_path = recorder.finish_stop(true).unwrap();
    assert!(!recorder.is_recording());
    assert_eq!(file_path, "./example_20240101_120000.mp4");
}

#[test]
fn test_video_format_extension() {
    assert_eq!(VideoFormat::Mp4.extension(), "mp4");
    assert_eq!(VideoFormat::Webm.extension(), "webm");
    assert_eq!(VideoFormat::Avi.extension(), "avi");
    assert_eq!(VideoFormat::Mkv.extension(), "mkv");
}

#[test]
fn second_start_fails_and_keeps_first_session() {
    let mut recorder = Recorder::new(config(RecordingMode::Both, 30));
    recorder
        .start_recording("s1".to_string(), None, 100, "stamp1".to_string())
        .unwrap();
    let r = recorder.start_recording("s2".to_string(), None, 200, "stamp2".to_string());
    assert!(matches!(r, Err(RecorderError::StartFailed(_))));
    let meta = recorder.get_metadata().unwrap();
    assert_eq!(meta.session_id, "s1");
    assert_eq!(meta.start_time, 100);
    assert!(recorder.is_recording());
}

#[test]
fn stop_before_start_fails_with_not_active() {
    let mut recorder = Recorder::new(RecordingConfig::default());
    let r = recorder.stop_recording(50);
    assert!(matches!(r, Err(RecorderError::StopFailed(_))));
    assert!(recorder.get_metadata().is_none());
}

#[test]
fn stop_finalizes_end_time_and_duration() {
    let mut recorder = Recorder::new(config(RecordingMode::Both, 30));
    recorder
        .start_recording("both-1".to_string(), None, 1000, "st".to_string())
        .unwrap();
    recorder.stop_recording(1042).unwrap();
    recorder.finish_stop(false).unwrap();
    let meta = recorder.get_metadata().unwrap();
    assert_eq!(meta.start_time, 1000);
    assert_eq!(meta.end_time, Some(1042));
    assert!(meta.end_time.unwrap() > meta.start_time);
    assert_eq!(meta.duration_secs, Some(42));
}

#[test]
fn failed_assembly_returns_frame_directory() {
    let mut recorder = Recorder::new(config(RecordingMode::Browser, 10));
    recorder
        .start_recording("b1".to_string(), None, 10, "t".to_string())
        .unwrap();
    let plan = recorder.stop_recording(20).unwrap();
    assert!(plan.stop_sampler);
    assert!(!plan.stop_screen);
    let path = recorder.finish_stop(false).unwrap();
    assert_eq!(path, "./recordings/b1");
}

#[test]
fn screen_mode_session_yields_mp4_and_stops() {
    let mut recorder = Recorder::new(config(RecordingMode::Screen, 30));
    let plan = recorder
        .start_recording("s1".to_string(), None, 10_000, "20240102_030405".to_string())
        .unwrap();
    assert!(plan.screen_output.is_some());
    assert!(plan.sampler_dir.is_none());
    assert_eq!(plan.warm_up_ms, 0);
    let stop_plan = recorder.stop_recording(10_002).unwrap();
    assert!(stop_plan.stop_screen);
    assert!(!stop_plan.stop_sampler);
    let path = recorder.finish_stop(true).unwrap();
    assert!(path.ends_with(".mp4"));
    assert!(!recorder.is_recording());
    assert_eq!(recorder.get_metadata().unwrap().duration_secs, Some(2));
}

#[test]
fn browser_mode_without_source_returns_frame_directory() {
    let mut recorder = Recorder::new(config(RecordingMode::Browser, 30));
    recorder
        .start_recording("s2".to_string(), None, 500, "20240102_030406".to_string())
        .unwrap();
    recorder.stop_recording(501).unwrap();
    let path = recorder.finish_stop(false).unwrap();
    assert_eq!(path, "./recordings/s2");
    assert!(!recorder.is_recording());
}

#[test]
fn two_cycles_produce_distinct_ids_and_paths() {
    let mut recorder = Recorder::new(config(RecordingMode::Both, 30));

    let plan1 = recorder
        .start_recording("cycle-1".to_string(), None, 100, "20240101_000001".to_string())
        .unwrap();
    recorder.stop_recording(105).unwrap();
    let path1 = recorder.finish_stop(true).unwrap();
    let id1 = recorder.get_metadata().unwrap().session_id;

    let plan2 = recorder
        .start_recording("cycle-2".to_string(), None, 200, "20240101_000002".to_string())
        .unwrap();
    recorder.stop_recording(205).unwrap();
    let path2 = recorder.finish_stop(true).unwrap();
    let id2 = recorder.get_metadata().unwrap().session_id;

    assert_ne!(id1, id2);
    assert_ne!(path1, path2);
    assert_ne!(plan1.sampler_dir.unwrap(), plan2.sampler_dir.unwrap());
}

#[test]
fn pause_and_resume_require_active_session() {
    let mut recorder = Recorder::new(RecordingConfig::default());
    assert!(matches!(
        recorder.pause_recording(),
        Err(RecorderError::RecordingError(_))
    ));
    assert!(matches!(
        recorder.resume_recording(),
        Err(RecorderError::RecordingError(_))
    ));
    recorder
        .start_recording("p".to_string(), None, 1, "s".to_string())
        .unwrap();
    assert!(recorder.pause_recording().is_ok());
    assert!(recorder.resume_recording().is_ok());
}

#[test]
fn get_duration_tracks_running_session() {
    let mut recorder = Recorder::new(RecordingConfig::default());
    assert_eq!(recorder.get_duration(10), None);
    recorder
        .start_recording("d".to_string(), None, 100, "s".to_string())
        .unwrap();
    assert_eq!(recorder.get_duration(130), Some(30));
    recorder.stop_recording(150).unwrap();
    recorder.finish_stop(true).unwrap();
    assert_eq!(recorder.get_duration(1000), Some(50));
}

#[test]
fn both_mode_plan_orders_producers_with_warm_up() {
    let mut recorder = Recorder::new(config(RecordingMode::Both, 30));
    let plan = recorder
        .start_recording("w".to_string(), None, 0, "20240101_111111".to_string())
        .unwrap();
    assert_eq!(plan.output_dir, "./recordings");
    assert_eq!(
        plan.screen_output.as_deref(),
        Some("./recordings/w_20240101_111111.mp4")
    );
    assert_eq!(plan.sampler_dir.as_deref(), Some("./recordings/w"));
    assert_eq!(plan.warm_up_ms, 1000);
}

#[test]
fn aborted_start_leaves_recorder_idle() {
    let mut recorder = Recorder::new(RecordingConfig::default());
    recorder
        .start_recording("a".to_string(), None, 5, "s".to_string())
        .unwrap();
    recorder.abort_start().unwrap();
    assert!(!recorder.is_recording());
    assert!(recorder.get_metadata().is_none());
    assert!(recorder
        .start_recording("a2".to_string(), None, 6, "s2".to_string())
        .is_ok());
}

#[test]
fn clocked_start_and_stop_use_the_wall_clock() {
    let mut recorder = Recorder::new(config(RecordingMode::Screen, 30));
    let plan = recorder
        .start_recording_now("clocked".to_string(), None)
        .unwrap();
    assert!(plan.screen_output.unwrap().ends_with(".mp4"));
    assert!(recorder.is_recording());
    recorder.stop_recording_now().unwrap();
    let path = recorder.finish_stop(true).unwrap();
    assert!(path.ends_with(".mp4"));
    let meta = recorder.get_metadata().unwrap();
    assert!(meta.end_time.unwrap() >= meta.start_time);
    assert!(meta.duration_secs.unwrap() < 60);
}
