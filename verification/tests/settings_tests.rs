use site_recorder::recorder::{RecordingMode, VideoFormat};
use site_recorder::settings::{
    Commands, CrawlArgs, DispatchAction, RecordingModeArg, RecordingSettings,
    build_recording_config, dispatch_command, recording_mode_from_settings,
};

fn crawl_args() -> CrawlArgs {
    CrawlArgs {
        url: "https://example.com".to_string(),
        max_pages: 100,
        delay: 2000,
        output: "./recordings".to_string(),
        recording_mode: RecordingModeArg::Both,
        fps: 30,
        audio: false,
        headless: true,
        screen_width: 1920,
        screen_height: 1080,
        auth_url: None,
        username: None,
        password: None,
        sitemap: None,
        daemon: false,
        progress: true,
        log_file: None,
        pid_file: None,
    }
}

#[test]
fn settings_follow_the_crawl_arguments() {
    let mut args = crawl_args();
    args.auth_url = Some("https://example.com/login".to_string());
    args.recording_mode = RecordingModeArg::Screen;
    let settings = RecordingSettings::from_crawl_args(args);
    assert_eq!(settings.url, "https://example.com");
    assert_eq!(settings.max_pages, 100);
    assert_eq!(settings.delay_ms, 2000);
    assert!(settings.headless);
    assert_eq!(settings.output_dir, "./recordings");
    assert_eq!(settings.fps, Some(30));
    assert!(settings.requires_auth);
    assert_eq!(settings.recording_mode.as_deref(), Some("screen"));
    assert_eq!(settings.enable_audio, Some(false));
    assert_eq!(settings.username_selector, None);
}

#[test]
fn recording_mode_names_select_producers() {
    let mut settings = RecordingSettings::from_crawl_args(crawl_args());
    assert_eq!(recording_mode_from_settings(&settings), RecordingMode::Both);
    settings.recording_mode = Some("screen".to_string());
    assert_eq!(recording_mode_from_settings(&settings), RecordingMode::Screen);
    settings.recording_mode = Some("browser".to_string());
    assert_eq!(recording_mode_from_settings(&settings), RecordingMode::Browser);
    settings.recording_mode = Some("unknown".to_string());
    assert_eq!(recording_mode_from_settings(&settings), RecordingMode::Both);
    settings.recording_mode = None;
    assert_eq!(recording_mode_from_settings(&settings), RecordingMode::Both);
}

#[test]
fn recording_config_takes_defaults_for_unset_values() {
    let mut settings = RecordingSettings::from_crawl_args(crawl_args());
    settings.fps = None;
    settings.enable_audio = None;
    settings.screen_width = None;
    settings.screen_height = None;
    let config = build_recording_config(&settings);
    assert_eq!(config.output_dir, "./recordings");
    assert_eq!(config.format, VideoFormat::Mp4);
    assert_eq!(config.fps, 30);
    assert_eq!(config.quality, 80);
    assert!(!config.audio_enabled);
    assert_eq!(config.mode, RecordingMode::Both);
    assert_eq!(config.screen_width, Some(1920));
    assert_eq!(config.screen_height, Some(1080));
}

#[test]
fn crawl_command_turns_into_its_arguments() {
    let cmd = Commands::Crawl {
        url: "https://example.com".to_string(),
        max_pages: 5,
        delay: 10,
        output: "./o".to_string(),
        recording_mode: RecordingModeArg::Browser,
        fps: 15,
        audio: true,
        headless: false,
        screen_width: 800,
        screen_height: 600,
        auth_url: None,
        username: Some("u".to_string()),
        password: Some("p".to_string()),
        sitemap: None,
    };
    let args = cmd.into_crawl_args();
    assert_eq!(args.url, "https://example.com");
    assert_eq!(args.max_pages, 5);
    assert_eq!(args.fps, 15);
    assert!(args.audio);
    assert_eq!(args.username.as_deref(), Some("u"));
    assert!(!args.daemon);
    assert_eq!(args.pid_file, None);
}

#[test]
fn commands_dispatch_to_their_actions() {
    match dispatch_command(Some(Commands::Resume { session_id: "s9".to_string() })) {
        DispatchAction::ResumeSession(id) => assert_eq!(id, "s9"),
        _ => panic!("expected a resume"),
    }
    match dispatch_command(Some(Commands::List { output: "./r".to_string() })) {
        DispatchAction::ListSessions(dir) => assert_eq!(dir, "./r"),
        _ => panic!("expected a listing"),
    }
    assert!(matches!(dispatch_command(Some(Commands::Gui)), DispatchAction::LaunchGui));
    assert!(matches!(dispatch_command(None), DispatchAction::LaunchGui));
    let crawl = Commands::Crawl {
        url: "https://example.com".to_string(),
        max_pages: 50,
        delay: 2000,
        output: "./recordings".to_string(),
        recording_mode: RecordingModeArg::Both,
        fps: 30,
        audio: false,
        headless: false,
        screen_width: 1920,
        screen_height: 1080,
        auth_url: None,
        username: None,
        password: None,
        sitemap: None,
    };
    match dispatch_command(Some(crawl)) {
        DispatchAction::RunCrawl(args) => assert_eq!(args.max_pages, 50),
        _ => panic!("expected a crawl"),
    }
}
