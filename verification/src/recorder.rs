//! The recording orchestrator: one session lifecycle over two capture
//! producers (a whole-screen encoder and a browser frame sampler).
//!
//! The orchestrator owns the session state machine
//! `Idle -> Starting -> Recording -> Stopping -> Idle` and decides, per
//! configured mode, which producers run and what artifact the session
//! ends with.  The blocking work around it (directory creation, process
//! spawning, waiting) is carried out by the caller following the plans
//! these methods return.

use vstd::prelude::*;
use vstd::string::*;
use crate::naming::{frames_dir_of, frames_dir_path, video_file_name, video_file_of};
use crate::strutil::{join_path, joined_path};

verus! {

/// Errors of the recording lifecycle.
#[derive(Debug)]
pub enum RecorderError {
    /// A session could not be started: one is already active, the
    /// output directory could not be created, or the encoder process
    /// failed to launch.
    StartFailed(String),
    /// A session could not be stopped: none is active, or its metadata
    /// is gone.
    StopFailed(String),
    /// A lifecycle operation was used while no session was recording.
    RecordingError(String),
    /// An input/output failure reported by the surroundings.
    IoError(String),
    /// The external encoder was missing or exited with a failure.
    EncodingError(String),
}

/// Container format of the video artifact.
#[derive(Clone, Copy, Debug, PartialEq, Eq, Structural)]
pub enum VideoFormat {
    Mp4,
    Webm,
    Avi,
    Mkv,
}

impl VideoFormat {
    /// The file extension this format is written under.
    pub open spec fn ext_spec(self) -> Seq<char> {
        match self {
            VideoFormat::Mp4 => "mp4"@,
            VideoFormat::Webm => "webm"@,
            VideoFormat::Avi => "avi"@,
            VideoFormat::Mkv => "mkv"@,
        }
    }

    pub fn extension(&self) -> (r: &str)
        ensures
            r@ == self.ext_spec(),
    {
        match self {
            VideoFormat::Mp4 => "mp4",
            VideoFormat::Webm => "webm",
            VideoFormat::Avi => "avi",
            VideoFormat::Mkv => "mkv",
        }
    }
}

/// Which producers a session runs.
#[derive(Clone, Copy, Debug, PartialEq, Eq, Structural)]
pub enum RecordingMode {
    /// The whole-screen encoder only.
    Screen,
    /// The browser frame sampler only.
    Browser,
    /// Both producers at once.
    Both,
}

/// Whether the whole-screen encoder runs in mode `m`.
pub open spec fn mode_has_screen(m: RecordingMode) -> bool {
    m == RecordingMode::Screen || m == RecordingMode::Both
}

/// Whether the browser frame sampler runs in mode `m`.
pub open spec fn mode_has_browser(m: RecordingMode) -> bool {
    m == RecordingMode::Browser || m == RecordingMode::Both
}

/// Settings a recorder is built with; fixed for its lifetime.
#[derive(Debug)]
pub struct RecordingConfig {
    pub output_dir: String,
    pub format: VideoFormat,
    pub fps: u32,
    pub quality: u32,
    pub audio_enabled: bool,
    pub mode: RecordingMode,
    pub screen_width: Option<u32>,
    pub screen_height: Option<u32>,
}

impl RecordingConfig {
    /// A usable configuration: the sampler needs a positive cadence and
    /// quality is a percentage.
    pub open spec fn valid(self) -> bool {
        1 <= self.fps && self.quality <= 100
    }
}

impl Default for RecordingConfig {
    /// 30 frames per second, quality 80, both producers, 1920x1080,
    /// mp4, written to the current directory.
    fn default() -> (c: Self)
        ensures
            c.valid(),
            c.output_dir@ == "."@,
            c.format == VideoFormat::Mp4,
            c.fps == 30,
            c.quality == 80,
            !c.audio_enabled,
            c.mode == RecordingMode::Both,
            c.screen_width == Some(1920u32),
            c.screen_height == Some(1080u32),
    {
        RecordingConfig {
            output_dir: ".".to_owned(),
            format: VideoFormat::Mp4,
            fps: 30,
            quality: 80,
            audio_enabled: false,
            mode: RecordingMode::Both,
            screen_width: Some(1920),
            screen_height: Some(1080),
        }
    }
}

/// What is known of one session; built at start, finalized at stop.
#[derive(Debug)]
pub struct RecordingMetadata {
    pub session_id: String,
    pub url: Option<String>,
    pub start_time: i64,
    pub end_time: Option<i64>,
    pub duration_secs: Option<u64>,
    pub file_path: Option<String>,
    pub format: VideoFormat,
}

impl DeepView for RecordingMetadata {
    type V = MetaModel;

    open spec fn deep_view(&self) -> MetaModel {
        MetaModel {
            session_id: self.session_id@,
            url: self.url.deep_view(),
            start_time: self.start_time as int,
            end_time: match self.end_time {
                Some(t) => Some(t as int),
                None => None,
            },
            duration_secs: match self.duration_secs {
                Some(d) => Some(d as int),
                None => None,
            },
            file_path: self.file_path.deep_view(),
            format: self.format,
        }
    }
}

/// The lifecycle states of one orchestrator.  Transitions attempted
/// from any other state than the expected one are rejected.
#[derive(Clone, Copy, Debug, PartialEq, Eq, Structural)]
pub enum SessionPhase {
    Idle,
    Starting,
    Recording,
    Stopping,
}

/// Mathematical state of a session's metadata.
pub ghost struct MetaModel {
    pub session_id: Seq<char>,
    pub url: Option<Seq<char>>,
    pub start_time: int,
    pub end_time: Option<int>,
    pub duration_secs: Option<int>,
    pub file_path: Option<Seq<char>>,
    pub format: VideoFormat,
}

/// Mathematical state of an orchestrator.
pub ghost struct RecorderModel {
    pub phase: SessionPhase,
    pub metadata: Option<MetaModel>,
    pub tab_attached: bool,
    pub output_dir: Seq<char>,
    pub format: VideoFormat,
    pub mode: RecordingMode,
    pub fps: int,
}

/// What `get_duration` reports in state `m` at wall-clock `now`: the
/// final duration once the end time is set, the running elapsed time
/// while active, and nothing otherwise.
pub open spec fn duration_view(m: RecorderModel, now: int) -> Option<int> {
    match m.metadata {
        None => None,
        Some(meta) => {
            if meta.end_time is Some {
                Some(duration_of(meta.start_time, meta.end_time->0))
            } else if m.phase == SessionPhase::Starting || m.phase == SessionPhase::Recording {
                Some(duration_of(meta.start_time, now))
            } else {
                None
            }
        },
    }
}

/// Elapsed whole seconds from `start` to `end`, never negative.
pub open spec fn duration_of(start: int, end: int) -> int {
    if end >= start {
        end - start
    } else {
        0
    }
}

/// The metadata a session starts with.
pub open spec fn start_meta(
    m: RecorderModel,
    session_id: Seq<char>,
    url: Option<Seq<char>>,
    now: int,
    stamp: Seq<char>,
) -> MetaModel {
    MetaModel {
        session_id: session_id,
        url: url,
        start_time: now,
        end_time: None,
        duration_secs: None,
        file_path: Some(
            joined_path(m.output_dir, video_file_of(url, session_id, stamp, m.format.ext_spec())),
        ),
        format: m.format,
    }
}

/// Whether `start` succeeds in state `m`.
pub open spec fn start_allowed(m: RecorderModel) -> bool {
    m.phase == SessionPhase::Idle
}

/// The state transition of `start_recording`; a rejected start leaves
/// the state untouched.
pub open spec fn spec_start(
    m: RecorderModel,
    session_id: Seq<char>,
    url: Option<Seq<char>>,
    now: int,
    stamp: Seq<char>,
) -> RecorderModel {
    if start_allowed(m) {
        RecorderModel {
            phase: SessionPhase::Starting,
            metadata: Some(start_meta(m, session_id, url, now, stamp)),
            ..m
        }
    } else {
        m
    }
}

/// Whether `stop` succeeds in state `m`: only an active session (one
/// being started or recording) can be stopped.
pub open spec fn stop_allowed(m: RecorderModel) -> bool {
    m.phase == SessionPhase::Starting || m.phase == SessionPhase::Recording
}

/// The state transition of `stop_recording`: the end time and duration
/// are finalized and the producers are about to be wound down.
pub open spec fn spec_stop(m: RecorderModel, now: int) -> RecorderModel {
    if stop_allowed(m) {
        let meta = m.metadata->0;
        RecorderModel {
            phase: SessionPhase::Stopping,
            metadata: Some(
                MetaModel {
                    end_time: Some(now),
                    duration_secs: Some(duration_of(meta.start_time, now)),
                    ..meta
                },
            ),
            ..m
        }
    } else {
        m
    }
}

/// The artifact path a session ends with: the video file, unless the
/// mode sampled browser frames and assembly did not succeed, in which
/// case the raw frame directory stands in.
pub open spec fn final_artifact_of(m: RecorderModel, assembled: bool) -> Seq<char> {
    if mode_has_browser(m.mode) && !assembled {
        frames_dir_of(m.output_dir, m.metadata->0.session_id)
    } else {
        m.metadata->0.file_path->0
    }
}

/// The state transition of `finish_stop`.
pub open spec fn spec_finish(m: RecorderModel, assembled: bool) -> RecorderModel {
    if m.phase == SessionPhase::Stopping {
        RecorderModel {
            phase: SessionPhase::Idle,
            metadata: Some(
                MetaModel { file_path: Some(final_artifact_of(m, assembled)), ..m.metadata->0 },
            ),
            ..m
        }
    } else {
        m
    }
}

/// What the caller must carry out after a successful `start_recording`.
#[derive(Debug)]
pub struct StartPlan {
    /// Create this directory before anything is written.
    pub output_dir: String,
    /// Launch the whole-screen encoder writing to this file.
    pub screen_output: Option<String>,
    /// After launching the encoder, wait this long before starting the
    /// sampler, so the encoder has attached to the screen.
    pub warm_up_ms: u64,
    /// Create this directory and run the frame sampler into it.
    pub sampler_dir: Option<String>,
}

/// One pending assembly of sampled frames into a video.
#[derive(Debug)]
pub struct AssembleJob {
    pub frames_dir: String,
    pub video_path: String,
    pub fps: u32,
}

/// What the caller must carry out after a successful `stop_recording`.
#[derive(Debug)]
pub struct StopPlan {
    /// Wind the whole-screen encoder down (gracefully, then forcefully).
    pub stop_screen: bool,
    /// Signal the frame sampler to exit.
    pub stop_sampler: bool,
    /// After signaling the sampler, wait this long so the final frame
    /// write is not raced by assembly.
    pub settle_ms: u64,
    /// Assemble the sampled frames into the video artifact.
    pub assemble: Option<AssembleJob>,
}

/// The recording orchestrator: owns the session state, selects the
/// producers for the configured mode, and coordinates start and stop.
pub struct Recorder {
    config: RecordingConfig,
    phase: SessionPhase,
    metadata: Option<RecordingMetadata>,
    tab_attached: bool,
}

impl Recorder {
    /// The mathematical state of this orchestrator.
    pub closed spec fn model(self) -> RecorderModel {
        RecorderModel {
            phase: self.phase,
            metadata: self.metadata.deep_view(),
            tab_attached: self.tab_attached,
            output_dir: self.config.output_dir@,
            format: self.config.format,
            mode: self.config.mode,
            fps: self.config.fps as int,
        }
    }

    /// An active session: one being started or recording.
    pub open spec fn active(self) -> bool {
        stop_allowed(self.model())
    }

    /// Internal consistency: any non-idle session carries metadata with
    /// an assigned output path and, until stop, no end time.
    pub closed spec fn wf(self) -> bool {
        &&& self.config.valid()
        &&& self.phase != SessionPhase::Idle ==> {
            &&& self.metadata is Some
            &&& self.metadata->0.file_path is Some
        }
        &&& self.active() ==> self.metadata->0.end_time is None
    }

    pub closed spec fn config_spec(self) -> RecordingConfig {
        self.config
    }

    /// A fresh, idle orchestrator for the given settings.
    pub fn new(config: RecordingConfig) -> (r: Recorder)
        requires
            config.valid(),
        ensures
            r.wf(),
            r.model().phase == SessionPhase::Idle,
            r.model().metadata is None,
            !r.model().tab_attached,
            r.config_spec() == config,
    {
        Recorder { config, phase: SessionPhase::Idle, metadata: None, tab_attached: false }
    }

    /// The settings this orchestrator was built with.
    pub fn config(&self) -> (r: &RecordingConfig)
        ensures
            *r == self.config_spec(),
    {
        &self.config
    }

    /// Records that a capture source (a live browser tab) has been
    /// attached for the frame sampler to poll.
    pub fn set_browser_tab(&mut self)
        ensures
            final(self).model() == (RecorderModel { tab_attached: true, ..old(self).model() }),
            final(self).wf() == old(self).wf(),
    {
        self.tab_attached = true;
    }

    /// Whether a session is active (being started or recording).
    pub fn is_recording(&self) -> (r: bool)
        ensures
            r == self.active(),
    {
        match self.phase {
            SessionPhase::Starting | SessionPhase::Recording => true,
            _ => false,
        }
    }

    /// Starts a session: rejected with `StartFailed` while any session
    /// is active or winding down, leaving the state untouched.
    /// Otherwise builds the session metadata (the artifact path is
    /// derived from the target's host, or the session id, plus the
    /// timestamp `stamp`) and returns the plan of producers to launch:
    /// the screen encoder first, then, after a warm-up wait in `Both`
    /// mode, the frame sampler.  `now` and `stamp` are the wall-clock
    /// reading at the moment of the call.
    pub fn start_recording(
        &mut self,
        session_id: String,
        url: Option<String>,
        now: i64,
        stamp: String,
    ) -> (r: Result<StartPlan, RecorderError>)
        requires
            old(self).wf(),
        ensures
            final(self).wf(),
            final(self).model() == spec_start(
                old(self).model(),
                session_id@,
                url.deep_view(),
                now as int,
                stamp@,
            ),
            !start_allowed(old(self).model()) ==> {
                &&& r matches Err(e) && e is StartFailed
                &&& *final(self) == *old(self)
            },
            start_allowed(old(self).model()) ==> {
                &&& r matches Ok(plan)
                &&& plan.output_dir@ == old(self).model().output_dir
                &&& plan.screen_output.deep_view() == if mode_has_screen(old(self).model().mode) {
                    Some(final(self).model().metadata->0.file_path->0)
                } else {
                    None::<Seq<char>>
                }
                &&& plan.sampler_dir.deep_view() == if mode_has_browser(old(self).model().mode) {
                    Some(frames_dir_of(old(self).model().output_dir, session_id@))
                } else {
                    None::<Seq<char>>
                }
                &&& plan.warm_up_ms == if old(self).model().mode == RecordingMode::Both {
                    1000int
                } else {
                    0int
                }
            },
    {
        match self.phase {
            SessionPhase::Idle => {},
            _ => {
                return Err(RecorderError::StartFailed("Already recording".to_owned()));
            },
        }
        let file_name = video_file_name(
            url.as_ref(),
            session_id.as_str(),
            stamp.as_str(),
            self.config.format.extension(),
        );
        let output_path = join_path(self.config.output_dir.as_str(), file_name.as_str());
        let screen_output = if matches!(self.config.mode, RecordingMode::Screen | RecordingMode::Both) {
            Some(output_path.clone())
        } else {
            None
        };
        let sampler_dir = if matches!(self.config.mode, RecordingMode::Browser | RecordingMode::Both) {
            Some(frames_dir_path(self.config.output_dir.as_str(), session_id.as_str()))
        } else {
            None
        };
        let warm_up_ms: u64 = if matches!(self.config.mode, RecordingMode::Both) {
            1000
        } else {
            0
        };
        self.metadata = Some(
            RecordingMetadata {
                session_id,
                url,
                start_time: now,
                end_time: None,
                duration_secs: None,
                file_path: Some(output_path),
                format: self.config.format,
            },
        );
        self.phase = SessionPhase::Starting;
        let plan = StartPlan {
            output_dir: self.config.output_dir.clone(),
            screen_output,
            warm_up_ms,
            sampler_dir,
        };
        Ok(plan)
    }

    /// Records that every planned producer is up: the session moves
    /// from `Starting` to `Recording`.  Rejected in any other phase.
    pub fn producers_started(&mut self) -> (r: Result<(), RecorderError>)
        requires
            old(self).wf(),
        ensures
            final(self).wf(),
            old(self).model().phase == SessionPhase::Starting ==> r is Ok && final(self).model()
                == (RecorderModel { phase: SessionPhase::Recording, ..old(self).model() }),
            old(self).model().phase != SessionPhase::Starting ==> {
                &&& r matches Err(e) && e is StartFailed
                &&& *final(self) == *old(self)
            },
    {
        match self.phase {
            SessionPhase::Starting => {
                self.phase = SessionPhase::Recording;
                Ok(())
            },
            _ => Err(RecorderError::StartFailed("No start in progress".to_owned())),
        }
    }

    /// Abandons a start whose producers could not be launched: the
    /// session returns to `Idle` with no metadata kept (a failed start
    /// leaves no side effects beyond the created directories).
    pub fn abort_start(&mut self) -> (r: Result<(), RecorderError>)
        requires
            old(self).wf(),
        ensures
            final(self).wf(),
            old(self).model().phase == SessionPhase::Starting ==> r is Ok && final(self).model()
                == (RecorderModel {
                phase: SessionPhase::Idle,
                metadata: None::<MetaModel>,
                ..old(self).model()
            }),
            old(self).model().phase != SessionPhase::Starting ==> {
                &&& r matches Err(e) && e is StartFailed
                &&& *final(self) == *old(self)
            },
    {
        match self.phase {
            SessionPhase::Starting => {
                self.phase = SessionPhase::Idle;
                self.metadata = None;
                Ok(())
            },
            _ => Err(RecorderError::StartFailed("No start in progress".to_owned())),
        }
    }

    /// Stops the active session: rejected with `StopFailed` when none
    /// is active.  Otherwise finalizes the end time and duration and
    /// returns the wind-down plan: which producers to stop, how long to
    /// let the sampler settle, and the assembly to run when the mode
    /// sampled browser frames.  `now` is the wall-clock reading at the
    /// moment of the call.
    pub fn stop_recording(&mut self, now: i64) -> (r: Result<StopPlan, RecorderError>)
        requires
            old(self).wf(),
        ensures
            final(self).wf(),
            final(self).model() == spec_stop(old(self).model(), now as int),
            !stop_allowed(old(self).model()) ==> {
                &&& r matches Err(e) && e is StopFailed
                &&& *final(self) == *old(self)
            },
            stop_allowed(old(self).model()) ==> {
                &&& r matches Ok(plan)
                &&& plan.stop_screen == mode_has_screen(old(self).model().mode)
                &&& plan.stop_sampler == mode_has_browser(old(self).model().mode)
                &&& plan.settle_ms == if mode_has_browser(old(self).model().mode) {
                    500int
                } else {
                    0int
                }
                &&& plan.assemble.deep_view() == (if mode_has_browser(
                    old(self).model().mode,
                ) {
                    Some(
                        AssembleJobModel {
                            frames_dir: frames_dir_of(
                                old(self).model().output_dir,
                                old(self).model().metadata->0.session_id,
                            ),
                            video_path: old(self).model().metadata->0.file_path->0,
                            fps: old(self).model().fps,
                        },
                    )
                } else {
                    None::<AssembleJobModel>
                })
            },
    {
        match self.phase {
            SessionPhase::Starting | SessionPhase::Recording => {},
            _ => {
                return Err(RecorderError::StopFailed("Not currently recording".to_owned()));
            },
        }
        let meta = self.metadata.as_mut().unwrap();
        let start = meta.start_time;
        let duration: u64 = if now >= start {
            ((now as i128) - (start as i128)) as u64
        } else {
            0
        };
        meta.end_time = Some(now);
        meta.duration_secs = Some(duration);
        let stop_screen = matches!(self.config.mode, RecordingMode::Screen | RecordingMode::Both);
        let stop_sampler = matches!(self.config.mode, RecordingMode::Browser | RecordingMode::Both);
        let assemble = if stop_sampler {
            Some(
                AssembleJob {
                    frames_dir: frames_dir_path(
                        self.config.output_dir.as_str(),
                        meta.session_id.as_str(),
                    ),
                    video_path: meta.file_path.as_ref().unwrap().clone(),
                    fps: self.config.fps,
                },
            )
        } else {
            None
        };
        self.phase = SessionPhase::Stopping;
        let plan = StopPlan {
            stop_screen,
            stop_sampler,
            settle_ms: if stop_sampler {
                500
            } else {
                0
            },
            assemble,
        };
        Ok(plan)
    }

    /// `start_recording` at the clock's current reading: the state
    /// change and plan are those of some wall-clock time and stamp the
    /// clock handed out at the moment of the call.
    pub fn start_recording_now(&mut self, session_id: String, url: Option<String>) -> (r: Result<
        StartPlan,
        RecorderError,
    >)
        requires
            old(self).wf(),
        ensures
            final(self).wf(),
            (exists|t: int, st: Seq<char>|
                final(self).model() == spec_start(
                    old(self).model(),
                    session_id@,
                    url.deep_view(),
                    t,
                    st,
                )),
            !start_allowed(old(self).model()) ==> {
                &&& r matches Err(e) && e is StartFailed
                &&& *final(self) == *old(self)
            },
            start_allowed(old(self).model()) ==> {
                &&& r matches Ok(plan)
                &&& plan.output_dir@ == old(self).model().output_dir
                &&& plan.screen_output.deep_view() == if mode_has_screen(old(self).model().mode) {
                    Some(final(self).model().metadata->0.file_path->0)
                } else {
                    None::<Seq<char>>
                }
                &&& plan.sampler_dir.deep_view() == if mode_has_browser(old(self).model().mode) {
                    Some(frames_dir_of(old(self).model().output_dir, session_id@))
                } else {
                    None::<Seq<char>>
                }
                &&& plan.warm_up_ms == if old(self).model().mode == RecordingMode::Both {
                    1000int
                } else {
                    0int
                }
            },
    {
        let now = crate::clock::unix_now();
        let stamp = crate::clock::compact_timestamp();
        let ghost t = now as int;
        let ghost st = stamp@;
        let r = self.start_recording(session_id, url, now, stamp);
        proof {
            assert(self.model() == spec_start(
                old(self).model(),
                session_id@,
                url.deep_view(),
                t,
                st,
            ));
        }
        r
    }

    /// `stop_recording` at the clock's current reading: the end time
    /// and duration are finalized against some wall-clock time the
    /// clock handed out at the moment of the call.
    pub fn stop_recording_now(&mut self) -> (r: Result<StopPlan, RecorderError>)
        requires
            old(self).wf(),
        ensures
            final(self).wf(),
            (exists|t: int| final(self).model() == spec_stop(old(self).model(), t)),
            !stop_allowed(old(self).model()) ==> {
                &&& r matches Err(e) && e is StopFailed
                &&& *final(self) == *old(self)
            },
            stop_allowed(old(self).model()) ==> {
                &&& r matches Ok(plan)
                &&& plan.stop_screen == mode_has_screen(old(self).model().mode)
                &&& plan.stop_sampler == mode_has_browser(old(self).model().mode)
                &&& plan.settle_ms == if mode_has_browser(old(self).model().mode) {
                    500int
                } else {
                    0int
                }
                &&& plan.assemble.deep_view() == (if mode_has_browser(
                    old(self).model().mode,
                ) {
                    Some(
                        AssembleJobModel {
                            frames_dir: frames_dir_of(
                                old(self).model().output_dir,
                                old(self).model().metadata->0.session_id,
                            ),
                            video_path: old(self).model().metadata->0.file_path->0,
                            fps: old(self).model().fps,
                        },
                    )
                } else {
                    None::<AssembleJobModel>
                })
            },
    {
        let now = crate::clock::unix_now();
        let ghost t = now as int;
        let r = self.stop_recording(now);
        proof {
            assert(self.model() == spec_stop(old(self).model(), t));
        }
        r
    }

    /// Ends the wind-down once the producers have exited and any
    /// assembly has run.  Always yields an artifact path: the video
    /// file, or — when the mode sampled browser frames and assembly did
    /// not succeed — the raw frame directory, so a failed encoder never
    /// loses the session's data.  The metadata keeps the returned path.
    pub fn finish_stop(&mut self, assembled: bool) -> (r: Result<String, RecorderError>)
        requires
            old(self).wf(),
        ensures
            final(self).wf(),
            final(self).model() == spec_finish(old(self).model(), assembled),
            old(self).model().phase != SessionPhase::Stopping ==> {
                &&& r matches Err(e) && e is StopFailed
                &&& *final(self) == *old(self)
            },
            old(self).model().phase == SessionPhase::Stopping ==> {
                &&& r matches Ok(path)
                &&& path@ == final_artifact_of(old(self).model(), assembled)
            },
    {
        match self.phase {
            SessionPhase::Stopping => {},
            _ => {
                return Err(RecorderError::StopFailed("No stop in progress".to_owned()));
            },
        }
        let meta = self.metadata.as_mut().unwrap();
        let keep_video = matches!(self.config.mode, RecordingMode::Screen) || assembled;
        let path: String = if keep_video {
            meta.file_path.as_ref().unwrap().clone()
        } else {
            frames_dir_path(self.config.output_dir.as_str(), meta.session_id.as_str())
        };
        meta.file_path = Some(path.clone());
        self.phase = SessionPhase::Idle;
        Ok(path)
    }

    /// A pause is accepted only while a session is active; the capture
    /// cadence itself is not altered.
    pub fn pause_recording(&mut self) -> (r: Result<(), RecorderError>)
        ensures
            *final(self) == *old(self),
            old(self).active() ==> r is Ok,
            !old(self).active() ==> (r matches Err(e) && e is RecordingError),
    {
        if !self.is_recording() {
            return Err(RecorderError::RecordingError("Not currently recording".to_owned()));
        }
        Ok(())
    }

    /// A resume is accepted only while a session is active; the capture
    /// cadence itself is not altered.
    pub fn resume_recording(&mut self) -> (r: Result<(), RecorderError>)
        ensures
            *final(self) == *old(self),
            old(self).active() ==> r is Ok,
            !old(self).active() ==> (r matches Err(e) && e is RecordingError),
    {
        if !self.is_recording() {
            return Err(RecorderError::RecordingError("Not currently recording".to_owned()));
        }
        Ok(())
    }

    /// A snapshot of the session metadata, if any session has started.
    pub fn get_metadata(&self) -> (r: Option<RecordingMetadata>)
        ensures
            r.deep_view() == self.model().metadata,
    {
        match &self.metadata {
            None => None,
            Some(m) => Some(
                RecordingMetadata {
                    session_id: m.session_id.clone(),
                    url: match &m.url {
                        Some(u) => Some(u.clone()),
                        None => None,
                    },
                    start_time: m.start_time,
                    end_time: m.end_time,
                    duration_secs: m.duration_secs,
                    file_path: match &m.file_path {
                        Some(p) => Some(p.clone()),
                        None => None,
                    },
                    format: m.format,
                },
            ),
        }
    }

    /// Elapsed whole seconds of the session: up to its end time once
    /// finalized, else up to `now` (the current wall-clock reading)
    /// while active; `None` when no session has started or an aborted
    /// one left nothing.
    pub fn get_duration(&self, now: i64) -> (r: Option<u64>)
        ensures
            ({
                let expect = duration_view(self.model(), now as int);
                match r {
                    Some(d) => expect == Some(d as int),
                    None => expect is None,
                }
            }),
    {
        match &self.metadata {
            None => None,
            Some(m) => {
                match m.end_time {
                    Some(end) => Some(
                        if end >= m.start_time {
                            ((end as i128) - (m.start_time as i128)) as u64
                        } else {
                            0
                        },
                    ),
                    None => {
                        if self.is_recording() {
                            Some(
                                if now >= m.start_time {
                                    ((now as i128) - (m.start_time as i128)) as u64
                                } else {
                                    0
                                },
                            )
                        } else {
                            None
                        }
                    },
                }
            },
        }
    }
}

impl Default for Recorder {
    /// An idle orchestrator with the default configuration.
    fn default() -> (r: Self)
        ensures
            r.wf(),
            r.model().phase == SessionPhase::Idle,
            r.model().metadata is None,
    {
        Recorder::new(RecordingConfig::default())
    }
}

/// Mathematical state of an assembly job.
pub ghost struct AssembleJobModel {
    pub frames_dir: Seq<char>,
    pub video_path: Seq<char>,
    pub fps: int,
}

impl DeepView for AssembleJob {
    type V = AssembleJobModel;

    open spec fn deep_view(&self) -> AssembleJobModel {
        AssembleJobModel {
            frames_dir: self.frames_dir@,
            video_path: self.video_path@,
            fps: self.fps as int,
        }
    }
}

/// Starting while a session is already active is rejected and leaves
/// that session's state exactly as it was.
pub proof fn law_second_start_rejected(
    m: RecorderModel,
    sid1: Seq<char>,
    url1: Option<Seq<char>>,
    t1: int,
    stamp1: Seq<char>,
    sid2: Seq<char>,
    url2: Option<Seq<char>>,
    t2: int,
    stamp2: Seq<char>,
)
    requires
        start_allowed(m),
    ensures
        !start_allowed(spec_start(m, sid1, url1, t1, stamp1)),
        spec_start(spec_start(m, sid1, url1, t1, stamp1), sid2, url2, t2, stamp2) == spec_start(
            m,
            sid1,
            url1,
            t1,
            stamp1,
        ),
{
}

/// Stopping before any start is rejected and changes nothing.
pub proof fn law_stop_before_start_rejected(m: RecorderModel, t: int)
    requires
        m.phase == SessionPhase::Idle,
    ensures
        !stop_allowed(m),
        spec_stop(m, t) == m,
{
}

/// A session started at `t0` and stopped at a later `t1` ends with
/// `end_time == t1 > start_time` and a duration of exactly the whole
/// seconds between them, whatever its producers did.
pub proof fn law_stop_finalizes_duration(
    m: RecorderModel,
    sid: Seq<char>,
    url: Option<Seq<char>>,
    t0: int,
    stamp: Seq<char>,
    t1: int,
)
    requires
        start_allowed(m),
        m.mode == RecordingMode::Both,
        t0 < t1,
    ensures
        ({
            let stopped = spec_stop(spec_start(m, sid, url, t0, stamp), t1);
            &&& stopped.metadata->0.start_time == t0
            &&& stopped.metadata->0.end_time == Some(t1)
            &&& stopped.metadata->0.end_time->0 > stopped.metadata->0.start_time
            &&& stopped.metadata->0.duration_secs == Some(t1 - t0)
        }),
{
}

/// When the mode sampled browser frames and the external encoder was
/// unavailable (assembly did not run), the session still ends with the
/// raw frame directory as its artifact.
pub proof fn law_failed_assembly_keeps_frames(m: RecorderModel, assembled: bool)
    requires
        m.phase == SessionPhase::Stopping,
        m.metadata is Some,
        mode_has_browser(m.mode),
        !assembled,
    ensures
        final_artifact_of(m, assembled) == frames_dir_of(m.output_dir, m.metadata->0.session_id),
        spec_finish(m, assembled).metadata->0.file_path == Some(
            frames_dir_of(m.output_dir, m.metadata->0.session_id),
        ),
{
}

/// A full start/stop cycle returns the orchestrator to `Idle`, so a
/// further session may start; successive cycles share no state but
/// the configuration.
pub proof fn law_cycle_returns_to_idle(
    m: RecorderModel,
    sid: Seq<char>,
    url: Option<Seq<char>>,
    t0: int,
    stamp: Seq<char>,
    t1: int,
    assembled: bool,
)
    requires
        start_allowed(m),
    ensures
        ({
            let done = spec_finish(spec_stop(spec_start(m, sid, url, t0, stamp), t1), assembled);
            &&& done.phase == SessionPhase::Idle
            &&& start_allowed(done)
            &&& done.output_dir == m.output_dir
            &&& done.mode == m.mode
        }),
{
}

} // verus!
