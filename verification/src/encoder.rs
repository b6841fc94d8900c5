//! The whole-screen encoder supervisor: builds the external encoder's
//! argument list for the platform's capture backend and owns the
//! subprocess handle through launch, graceful stop and forced
//! termination.

use vstd::prelude::*;
use vstd::string::*;
use crate::recorder::{RecorderError, RecordingConfig};
use crate::strutil::{dec_str, u32_to_dec};

verus! {

/// The capture source handed to the external encoder, one variant per
/// platform: an X11 display grabber, a device index, or the desktop
/// grabber.  Selected once at launch.
#[derive(Debug)]
pub enum CaptureBackend {
    /// Grab an X11 display (the display name, e.g. `:0`).
    X11Grab { display: String },
    /// Grab the screen-capture device by index.
    AvFoundation,
    /// Grab the whole desktop.
    GdiGrab,
}

/// The configured capture width, 1920 when unset.
pub open spec fn width_of(c: RecordingConfig) -> int {
    match c.screen_width {
        Some(w) => w as int,
        None => 1920,
    }
}

/// The configured capture height, 1080 when unset.
pub open spec fn height_of(c: RecordingConfig) -> int {
    match c.screen_height {
        Some(h) => h as int,
        None => 1080,
    }
}

/// The constant-rate factor handed to the encoder: quality 0 maps to
/// the worst factor 51 and quality 100 to the best factor 0.
pub open spec fn crf_of(quality: int) -> int {
    51 - quality * 51 / 100
}

/// The capture-source arguments for backend `b`.
pub open spec fn input_args_of(b: CaptureBackend, fps: int, w: int, h: int) -> Seq<Seq<char>> {
    match b {
        CaptureBackend::X11Grab { display } => seq![
            "-f"@,
            "x11grab"@,
            "-framerate"@,
            dec_str(fps as nat),
            "-video_size"@,
            dec_str(w as nat) + "x"@ + dec_str(h as nat),
            "-i"@,
            display@,
        ],
        CaptureBackend::AvFoundation => seq![
            "-f"@,
            "avfoundation"@,
            "-framerate"@,
            dec_str(fps as nat),
            "-i"@,
            "1"@,
        ],
        CaptureBackend::GdiGrab => seq![
            "-f"@,
            "gdigrab"@,
            "-framerate"@,
            dec_str(fps as nat),
            "-i"@,
            "desktop"@,
        ],
    }
}

/// The audio-capture arguments for backend `b`.
pub open spec fn audio_args_of(b: CaptureBackend) -> Seq<Seq<char>> {
    match b {
        CaptureBackend::X11Grab { .. } => seq!["-f"@, "pulse"@, "-i"@, "default"@],
        CaptureBackend::AvFoundation => seq!["-f"@, "avfoundation"@, "-i"@, ":0"@],
        CaptureBackend::GdiGrab => seq!["-f"@, "dshow"@, "-i"@, "audio=\"Microphone\""@],
    }
}

/// The fixed codec and pixel-format profile, with the computed
/// constant-rate factor.
pub open spec fn codec_args_of(quality: int) -> Seq<Seq<char>> {
    seq![
        "-c:v"@,
        "libx264"@,
        "-preset"@,
        "ultrafast"@,
        "-crf"@,
        dec_str(crf_of(quality) as nat),
        "-pix_fmt"@,
        "yuv420p"@,
    ]
}

/// The complete argument list of the long-running screen capture:
/// capture source, optional audio source, codec profile, optional
/// audio codec, and the (overwritten) output path.
pub open spec fn capture_args_of(c: RecordingConfig, b: CaptureBackend, out: Seq<char>) -> Seq<
    Seq<char>,
> {
    input_args_of(b, c.fps as int, width_of(c), height_of(c)) + (if c.audio_enabled {
        audio_args_of(b)
    } else {
        Seq::empty()
    }) + codec_args_of(c.quality as int) + (if c.audio_enabled {
        seq!["-c:a"@, "aac"@]
    } else {
        Seq::empty()
    }) + seq!["-y"@, out]
}

/// Builds the external encoder's argument list for one screen-capture
/// launch.
pub fn capture_args(config: &RecordingConfig, backend: &CaptureBackend, output_path: &str) -> (r:
    Vec<String>)
    requires
        config.valid(),
    ensures
        r.deep_view() == capture_args_of(*config, *backend, output_path@),
{
    let mut v: Vec<String> = Vec::new();
    match backend {
        CaptureBackend::X11Grab { display } => {
            v.push("-f".to_owned());
            v.push("x11grab".to_owned());
            v.push("-framerate".to_owned());
            v.push(u32_to_dec(config.fps));
            v.push("-video_size".to_owned());
            let mut size = u32_to_dec(match config.screen_width {
                Some(w) => w,
                None => 1920,
            });
            size.append("x");
            let hs = u32_to_dec(match config.screen_height {
                Some(h) => h,
                None => 1080,
            });
            size.append(hs.as_str());
            v.push(size);
            v.push("-i".to_owned());
            v.push(display.clone());
        },
        CaptureBackend::AvFoundation => {
            v.push("-f".to_owned());
            v.push("avfoundation".to_owned());
            v.push("-framerate".to_owned());
            v.push(u32_to_dec(config.fps));
            v.push("-i".to_owned());
            v.push("1".to_owned());
        },
        CaptureBackend::GdiGrab => {
            v.push("-f".to_owned());
            v.push("gdigrab".to_owned());
            v.push("-framerate".to_owned());
            v.push(u32_to_dec(config.fps));
            v.push("-i".to_owned());
            v.push("desktop".to_owned());
        },
    }
    if config.audio_enabled {
        match backend {
            CaptureBackend::X11Grab { .. } => {
                v.push("-f".to_owned());
                v.push("pulse".to_owned());
                v.push("-i".to_owned());
                v.push("default".to_owned());
            },
            CaptureBackend::AvFoundation => {
                v.push("-f".to_owned());
                v.push("avfoundation".to_owned());
                v.push("-i".to_owned());
                v.push(":0".to_owned());
            },
            CaptureBackend::GdiGrab => {
                v.push("-f".to_owned());
                v.push("dshow".to_owned());
                v.push("-i".to_owned());
                v.push("audio=\"Microphone\"".to_owned());
            },
        }
    }
    v.push("-c:v".to_owned());
    v.push("libx264".to_owned());
    v.push("-preset".to_owned());
    v.push("ultrafast".to_owned());
    v.push("-crf".to_owned());
    v.push(u32_to_dec(51 - config.quality * 51 / 100));
    v.push("-pix_fmt".to_owned());
    v.push("yuv420p".to_owned());
    if config.audio_enabled {
        v.push("-c:a".to_owned());
        v.push("aac".to_owned());
    }
    v.push("-y".to_owned());
    v.push(output_path.to_owned());
    proof {
        assert(v.deep_view() =~~= capture_args_of(*config, *backend, output_path@));
    }
    v
}

/// What the supervisor knows of the encoder subprocess.  The handle is
/// consumed exactly once: after a stop, no further launch or stop acts.
#[derive(Clone, Copy, Debug, PartialEq, Eq, Structural)]
pub enum EncoderState {
    /// No subprocess has been spawned (or the spawn was rejected).
    NotLaunched,
    /// The subprocess is running under supervision.
    Running,
    /// A graceful stop was requested; the exit wait is pending.
    WindingDown,
    /// The subprocess has exited (or was terminated); the handle is
    /// consumed.
    Stopped,
}

/// What the caller must do after `request_stop`.
#[derive(Clone, Copy, Debug, PartialEq, Eq, Structural)]
pub enum EncoderStopCommand {
    /// Write a single quit byte to the process's input, close it, and
    /// wait up to `wait_ms` for a natural exit, so the encoder can
    /// flush and finalize its container.
    SendQuit { wait_ms: u64 },
    /// There is no process to stop; the stop is an idempotent no-op.
    NoProcess,
}

/// What the caller must do after reporting the wait's outcome.
#[derive(Clone, Copy, Debug, PartialEq, Eq, Structural)]
pub enum EncoderFollowUp {
    /// The process exited on its own; nothing is left to do.
    Done,
    /// The process outlived the timeout: terminate it forcefully and
    /// block until it exits.
    ForceKill,
}

/// Supervises the external whole-screen encoder subprocess for one
/// session.
pub struct ScreenEncoderSupervisor {
    state: EncoderState,
}

impl ScreenEncoderSupervisor {
    pub closed spec fn state_spec(self) -> EncoderState {
        self.state
    }

    pub fn new() -> (r: ScreenEncoderSupervisor)
        ensures
            r.state_spec() == EncoderState::NotLaunched,
    {
        ScreenEncoderSupervisor { state: EncoderState::NotLaunched }
    }

    /// Decides on the availability probe of the external encoder: a
    /// missing tool rejects the launch.
    pub fn require_tool(present: bool) -> (r: Result<(), RecorderError>)
        ensures
            present ==> r is Ok,
            !present ==> (r matches Err(e) && e is StartFailed),
    {
        if present {
            Ok(())
        } else {
            Err(
                RecorderError::StartFailed(
                    "FFmpeg not found. Please install FFmpeg for screen recording.".to_owned(),
                ),
            )
        }
    }

    /// Records the single liveness check made right after the spawn:
    /// a process already gone is a failed start (with the diagnostics
    /// that were captured), otherwise the encoder is under supervision.
    pub fn note_spawned(&mut self, alive: bool, diagnostics: String) -> (r: Result<
        (),
        RecorderError,
    >)
        ensures
            old(self).state_spec() != EncoderState::NotLaunched ==> {
                &&& (r matches Err(e) && e is StartFailed)
                &&& *final(self) == *old(self)
            },
            old(self).state_spec() == EncoderState::NotLaunched && alive ==> {
                &&& r is Ok
                &&& final(self).state_spec() == EncoderState::Running
            },
            old(self).state_spec() == EncoderState::NotLaunched && !alive ==> {
                &&& (r matches Err(e) && e is StartFailed)
                &&& final(self).state_spec() == EncoderState::NotLaunched
            },
    {
        match self.state {
            EncoderState::NotLaunched => {
                if alive {
                    self.state = EncoderState::Running;
                    Ok(())
                } else {
                    let mut msg = "FFmpeg failed to start: ".to_owned();
                    msg.append(diagnostics.as_str());
                    Err(RecorderError::StartFailed(msg))
                }
            },
            _ => Err(RecorderError::StartFailed("Encoder already launched".to_owned())),
        }
    }

    /// Requests the two-phase shutdown.  While the encoder runs, the
    /// caller is told to send the quit byte and wait; in every other
    /// state the stop is an idempotent no-op (a double stop does not
    /// error).
    pub fn request_stop(&mut self) -> (r: EncoderStopCommand)
        ensures
            old(self).state_spec() == EncoderState::Running ==> r == (EncoderStopCommand::SendQuit {
                wait_ms: 3000u64,
            }) && final(self).state_spec() == EncoderState::WindingDown,
            old(self).state_spec() != EncoderState::Running ==> r == EncoderStopCommand::NoProcess
                && *final(self) == *old(self),
    {
        match self.state {
            EncoderState::Running => {
                self.state = EncoderState::WindingDown;
                EncoderStopCommand::SendQuit { wait_ms: 3000 }
            },
            _ => EncoderStopCommand::NoProcess,
        }
    }

    /// Takes the outcome of the graceful wait: an exit ends the
    /// supervision, anything else demands a forced termination.  The
    /// handle is consumed either way.
    pub fn note_wait_result(&mut self, exited: bool) -> (r: EncoderFollowUp)
        ensures
            old(self).state_spec() == EncoderState::WindingDown ==> {
                &&& final(self).state_spec() == EncoderState::Stopped
                &&& r == if exited {
                    EncoderFollowUp::Done
                } else {
                    EncoderFollowUp::ForceKill
                }
            },
            old(self).state_spec() != EncoderState::WindingDown ==> r == EncoderFollowUp::Done
                && *final(self) == *old(self),
    {
        match self.state {
            EncoderState::WindingDown => {
                self.state = EncoderState::Stopped;
                if exited {
                    EncoderFollowUp::Done
                } else {
                    EncoderFollowUp::ForceKill
                }
            },
            _ => EncoderFollowUp::Done,
        }
    }
}

} // verus!
