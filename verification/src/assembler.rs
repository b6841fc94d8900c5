//! The video assembler: turns one session's directory of numbered
//! still frames into a single video file through one external encoder
//! invocation.  A missing tool is a recoverable condition — the frames
//! on disk remain a valid fallback artifact — and a failing tool
//! surfaces its diagnostic stream.  The assembler holds no state
//! across calls.

use vstd::prelude::*;
use vstd::string::*;
use crate::strutil::{dec_str, joined_path, join_path, u32_to_dec};

verus! {

/// Why an assembly produced no video.
#[derive(Debug)]
pub enum EncodingError {
    /// The external encoder binary is not reachable; the frames remain
    /// on disk as the artifact.
    ToolMissing,
    /// The external encoder exited with a non-zero status; carries its
    /// diagnostic stream.
    ToolFailed(String),
}

/// The input pattern matching this crate's frame numbering: six
/// zero-padded decimal places.
pub open spec fn frame_pattern_of(frames_dir: Seq<char>) -> Seq<char> {
    joined_path(frames_dir, "frame_%06d.png"@)
}

/// The frame-number input pattern for `frames_dir`.
pub fn frame_pattern(frames_dir: &str) -> (r: String)
    ensures
        r@ == frame_pattern_of(frames_dir@),
{
    join_path(frames_dir, "frame_%06d.png")
}

/// The complete argument list of one assembly invocation: fixed frame
/// rate, the input frame-number pattern, the fixed codec and
/// pixel-format profile, overwriting the output path.
pub open spec fn assemble_args_of(frames_dir: Seq<char>, out: Seq<char>, fps: int) -> Seq<
    Seq<char>,
> {
    seq![
        "-framerate"@,
        dec_str(fps as nat),
        "-i"@,
        frame_pattern_of(frames_dir),
        "-c:v"@,
        "libx264"@,
        "-pix_fmt"@,
        "yuv420p"@,
        "-y"@,
        out,
    ]
}

/// Builds the external encoder's argument list for one assembly run.
pub fn assemble_args(frames_dir: &str, output_path: &str, fps: u32) -> (r: Vec<String>)
    ensures
        r.deep_view() == assemble_args_of(frames_dir@, output_path@, fps as int),
{
    let mut v: Vec<String> = Vec::new();
    v.push("-framerate".to_owned());
    v.push(u32_to_dec(fps));
    v.push("-i".to_owned());
    v.push(frame_pattern(frames_dir));
    v.push("-c:v".to_owned());
    v.push("libx264".to_owned());
    v.push("-pix_fmt".to_owned());
    v.push("yuv420p".to_owned());
    v.push("-y".to_owned());
    v.push(output_path.to_owned());
    proof {
        assert(v.deep_view() =~~= assemble_args_of(frames_dir@, output_path@, fps as int));
    }
    v
}

/// Judges one assembly attempt from what the surroundings observed:
/// whether the tool was reachable, whether its invocation ran to
/// completion with a zero exit status, and its diagnostic stream.
/// Fails fast with `ToolMissing` before any invocation when the tool
/// is absent; surfaces a failed run as `ToolFailed` with the
/// diagnostics; succeeds exactly when the tool was present and exited
/// cleanly.
pub fn assemble_outcome(tool_present: bool, exit_ok: bool, diagnostics: String) -> (r: Result<
    (),
    EncodingError,
>)
    ensures
        !tool_present ==> (r matches Err(e) && e is ToolMissing),
        tool_present && !exit_ok ==> (r matches Err(e) && e matches EncodingError::ToolFailed(d)
            && d@ == diagnostics@),
        tool_present && exit_ok ==> r is Ok,
{
    if !tool_present {
        Err(EncodingError::ToolMissing)
    } else if !exit_ok {
        Err(EncodingError::ToolFailed(diagnostics))
    } else {
        Ok(())
    }
}

} // verus!
