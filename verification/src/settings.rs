//! Command-line and recording settings: the parsed command's data, its
//! conversion into the crawl settings, and the choice of recording
//! configuration those settings imply.  The argument parsing itself
//! happens in the surrounding shell; this module owns every decision
//! made on the parsed values.

use vstd::prelude::*;
use vstd::string::*;
use crate::recorder::{RecordingConfig, RecordingMode, VideoFormat};

verus! {

/// The recording mode as named on the command line.
#[derive(Clone, Copy, Debug, PartialEq, Eq, Structural)]
pub enum RecordingModeArg {
    /// Record screen only.
    Screen,
    /// Record browser screenshots only.
    Browser,
    /// Record both screen and screenshots.
    Both,
}

/// The arguments of one crawl run.
#[derive(Debug)]
pub struct CrawlArgs {
    pub url: String,
    pub max_pages: usize,
    pub delay: u64,
    pub output: String,
    pub recording_mode: RecordingModeArg,
    pub fps: u32,
    pub audio: bool,
    pub headless: bool,
    pub screen_width: u32,
    pub screen_height: u32,
    pub auth_url: Option<String>,
    pub username: Option<String>,
    pub password: Option<String>,
    pub sitemap: Option<String>,
    pub daemon: bool,
    pub progress: bool,
    pub log_file: Option<String>,
    pub pid_file: Option<String>,
}

/// The subcommands of the application.
#[derive(Debug)]
pub enum Commands {
    /// Start recording with the graphical shell (the default).
    Gui,
    /// Run one crawl without the graphical shell.
    Crawl {
        url: String,
        max_pages: usize,
        delay: u64,
        output: String,
        recording_mode: RecordingModeArg,
        fps: u32,
        audio: bool,
        headless: bool,
        screen_width: u32,
        screen_height: u32,
        auth_url: Option<String>,
        username: Option<String>,
        password: Option<String>,
        sitemap: Option<String>,
    },
    /// Resume an interrupted session.
    Resume { session_id: String },
    /// List previous recording sessions.
    List { output: String },
}

/// The top-level command line: a subcommand and the global verbosity
/// switches.
#[derive(Debug)]
pub struct Cli {
    pub command: Option<Commands>,
    pub verbose: bool,
    pub quiet: bool,
}

impl Commands {
    /// Takes the crawl arguments out of a `Crawl` command.  Only a
    /// `Crawl` command carries them; nothing else may be handed in.
    pub fn into_crawl_args(self) -> (r: CrawlArgs)
        requires
            self is Crawl,
        ensures
            ({
                &&& r.url == self->Crawl_url
                &&& r.max_pages == self->Crawl_max_pages
                &&& r.delay == self->Crawl_delay
                &&& r.output == self->Crawl_output
                &&& r.recording_mode == self->Crawl_recording_mode
                &&& r.fps == self->Crawl_fps
                &&& r.audio == self->Crawl_audio
                &&& r.headless == self->Crawl_headless
                &&& r.screen_width == self->Crawl_screen_width
                &&& r.screen_height == self->Crawl_screen_height
                &&& r.auth_url == self->Crawl_auth_url
                &&& r.username == self->Crawl_username
                &&& r.password == self->Crawl_password
                &&& r.sitemap == self->Crawl_sitemap
                &&& !r.daemon
                &&& !r.progress
                &&& r.log_file is None
                &&& r.pid_file is None
            }),
    {
        match self {
            Commands::Crawl {
                url,
                max_pages,
                delay,
                output,
                recording_mode,
                fps,
                audio,
                headless,
                screen_width,
                screen_height,
                auth_url,
                username,
                password,
                sitemap,
            } => CrawlArgs {
                url,
                max_pages,
                delay,
                output,
                recording_mode,
                fps,
                audio,
                headless,
                screen_width,
                screen_height,
                auth_url,
                username,
                password,
                sitemap,
                daemon: false,
                progress: false,
                log_file: None,
                pid_file: None,
            },
            _ => vstd::pervasive::unreached(),
        }
    }
}

/// The name a recording mode goes by in the settings.
pub open spec fn mode_name_of(m: RecordingModeArg) -> Seq<char> {
    match m {
        RecordingModeArg::Screen => "screen"@,
        RecordingModeArg::Browser => "browser"@,
        RecordingModeArg::Both => "both"@,
    }
}

/// The settings a recording run works from.
#[derive(Debug)]
pub struct RecordingSettings {
    pub url: String,
    pub max_pages: usize,
    pub delay_ms: u64,
    pub headless: bool,
    pub output_dir: String,
    pub fps: Option<u32>,
    pub requires_auth: bool,
    pub auth_url: Option<String>,
    pub username: Option<String>,
    pub password: Option<String>,
    pub username_selector: Option<String>,
    pub password_selector: Option<String>,
    pub submit_selector: Option<String>,
    pub recording_mode: Option<String>,
    pub enable_audio: Option<bool>,
    pub screen_width: Option<u32>,
    pub screen_height: Option<u32>,
    pub daemon: bool,
    pub progress: bool,
    pub log_file: Option<String>,
    pub pid_file: Option<String>,
}

impl RecordingSettings {
    /// The settings a crawl command implies: authentication is
    /// required exactly when a login URL was given, the recording mode
    /// keeps its command-line name, and no form selectors are preset.
    pub fn from_crawl_args(args: CrawlArgs) -> (r: Self)
        ensures
            ({
                &&& r.url == args.url
                &&& r.max_pages == args.max_pages
                &&& r.delay_ms == args.delay
                &&& r.headless == args.headless
                &&& r.output_dir == args.output
                &&& r.fps == Some(args.fps)
                &&& r.requires_auth == (args.auth_url is Some)
                &&& r.auth_url == args.auth_url
                &&& r.username == args.username
                &&& r.password == args.password
                &&& r.username_selector is None
                &&& r.password_selector is None
                &&& r.submit_selector is None
                &&& r.recording_mode.deep_view() == Some(mode_name_of(args.recording_mode))
                &&& r.enable_audio == Some(args.audio)
                &&& r.screen_width == Some(args.screen_width)
                &&& r.screen_height == Some(args.screen_height)
                &&& r.daemon == args.daemon
                &&& r.progress == args.progress
                &&& r.log_file == args.log_file
                &&& r.pid_file == args.pid_file
            }),
    {
        let requires_auth = args.auth_url.is_some();
        RecordingSettings {
            url: args.url,
            max_pages: args.max_pages,
            delay_ms: args.delay,
            headless: args.headless,
            output_dir: args.output,
            fps: Some(args.fps),
            requires_auth,
            auth_url: args.auth_url,
            username: args.username,
            password: args.password,
            username_selector: None,
            password_selector: None,
            submit_selector: None,
            recording_mode: Some(
                match args.recording_mode {
                    RecordingModeArg::Screen => "screen".to_owned(),
                    RecordingModeArg::Browser => "browser".to_owned(),
                    RecordingModeArg::Both => "both".to_owned(),
                },
            ),
            enable_audio: Some(args.audio),
            screen_width: Some(args.screen_width),
            screen_height: Some(args.screen_height),
            daemon: args.daemon,
            progress: args.progress,
            log_file: args.log_file,
            pid_file: args.pid_file,
        }
    }
}

/// The producer mode a settings name selects: `screen` and `browser`
/// select their single producer; anything else (including `both`, an
/// unknown name, or no name) selects both.
pub open spec fn mode_of_name(m: Option<Seq<char>>) -> RecordingMode {
    match m {
        Some(s) => {
            if s == "screen"@ {
                RecordingMode::Screen
            } else if s == "browser"@ {
                RecordingMode::Browser
            } else {
                RecordingMode::Both
            }
        },
        None => RecordingMode::Both,
    }
}

/// Reads the recording mode out of the settings.
pub fn recording_mode_from_settings(settings: &RecordingSettings) -> (r: RecordingMode)
    ensures
        r == mode_of_name(settings.recording_mode.deep_view()),
{
    match &settings.recording_mode {
        Some(m) => {
            let screen: String = "screen".to_owned();
            let browser: String = "browser".to_owned();
            if screen.eq(m) {
                RecordingMode::Screen
            } else if browser.eq(m) {
                RecordingMode::Browser
            } else {
                RecordingMode::Both
            }
        },
        None => RecordingMode::Both,
    }
}

/// The recorder configuration the settings imply: mp4 at quality 80,
/// the configured cadence (30 when unset), audio off unless enabled,
/// and a 1920x1080 screen unless given.
pub fn build_recording_config(settings: &RecordingSettings) -> (c: RecordingConfig)
    ensures
        c.output_dir == settings.output_dir,
        c.format == VideoFormat::Mp4,
        c.fps == settings.fps.unwrap_or(30),
        c.quality == 80,
        c.audio_enabled == settings.enable_audio.unwrap_or(false),
        c.mode == mode_of_name(settings.recording_mode.deep_view()),
        c.screen_width == if settings.screen_width is Some {
            settings.screen_width
        } else {
            Some(1920u32)
        },
        c.screen_height == if settings.screen_height is Some {
            settings.screen_height
        } else {
            Some(1080u32)
        },
        settings.fps.unwrap_or(30) >= 1 ==> c.valid(),
{
    RecordingConfig {
        output_dir: settings.output_dir.clone(),
        format: VideoFormat::Mp4,
        fps: match settings.fps {
            Some(f) => f,
            None => 30,
        },
        quality: 80,
        audio_enabled: match settings.enable_audio {
            Some(a) => a,
            None => false,
        },
        mode: recording_mode_from_settings(settings),
        screen_width: match settings.screen_width {
            Some(w) => Some(w),
            None => Some(1920),
        },
        screen_height: match settings.screen_height {
            Some(h) => Some(h),
            None => Some(1080),
        },
    }
}

/// What the shell must run for a parsed command.
#[derive(Debug)]
pub enum DispatchAction {
    /// Run one crawl with these arguments.
    RunCrawl(CrawlArgs),
    /// Resume the named session.
    ResumeSession(String),
    /// List the sessions under this directory.
    ListSessions(String),
    /// Launch the graphical shell.
    LaunchGui,
}

/// Decides what a parsed command runs: a crawl with its arguments, a
/// resume, a listing, or — for the explicit choice and for no command
/// at all — the graphical shell.
pub fn dispatch_command(command: Option<Commands>) -> (r: DispatchAction)
    ensures
        match command {
            Some(c) => {
                if c is Crawl {
                    r matches DispatchAction::RunCrawl(args) && args.url == c->Crawl_url
                        && args.max_pages == c->Crawl_max_pages && args.output == c->Crawl_output
                } else if c is Resume {
                    r matches DispatchAction::ResumeSession(id) && id == c->Resume_session_id
                } else if c is List {
                    r matches DispatchAction::ListSessions(dir) && dir == c->List_output
                } else {
                    r is LaunchGui
                }
            },
            None => r is LaunchGui,
        },
{
    match command {
        Some(cmd) => {
            if matches!(cmd, Commands::Crawl { .. }) {
                DispatchAction::RunCrawl(cmd.into_crawl_args())
            } else {
                match cmd {
                    Commands::Resume { session_id } => DispatchAction::ResumeSession(session_id),
                    Commands::List { output } => DispatchAction::ListSessions(output),
                    _ => DispatchAction::LaunchGui,
                }
            }
        },
        None => DispatchAction::LaunchGui,
    }
}

} // verus!
