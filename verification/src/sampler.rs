//! The browser frame sampler's bookkeeping: sequential, gap-free frame
//! numbering within one session, the per-frame file names, and the
//! sampling cadence.
//!
//! The sampling loop itself runs outside the orchestrator's control
//! path; each iteration asks this sink for the next frame's path and
//! reports back whether the frame was saved.  Failed captures and
//! failed saves consume no number, so the written sequence stays
//! compact for the assembler, which assumes contiguity.

use vstd::prelude::*;
use vstd::string::*;
use crate::naming::frames_dir_of;
use crate::strutil::{dec_str, joined_path, u64_to_dec, join_path};

verus! {

/// `k` zero characters.
pub open spec fn zeros(k: nat) -> Seq<char> {
    Seq::new(k, |i: int| '0')
}

/// How many zeros pad the decimal form of `i` to six places (none once
/// the index outgrows them).
pub open spec fn pad_width(i: nat) -> nat {
    if i < 10 {
        5
    } else if i < 100 {
        4
    } else if i < 1000 {
        3
    } else if i < 10000 {
        2
    } else if i < 100000 {
        1
    } else {
        0
    }
}

/// The file name of frame `i`: `frame_` then the index in six
/// zero-padded decimal places, as `.png`.
pub open spec fn frame_file_of(i: nat) -> Seq<char> {
    "frame_"@ + zeros(pad_width(i)) + dec_str(i) + ".png"@
}

fn pad_str(i: u64) -> (r: &'static str)
    ensures
        r@ == zeros(pad_width(i as nat)),
{
    proof {
        reveal_strlit("00000");
        reveal_strlit("0000");
        reveal_strlit("000");
        reveal_strlit("00");
        reveal_strlit("0");
        reveal_strlit("");
    }
    let r: &'static str = if i < 10 {
        "00000"
    } else if i < 100 {
        "0000"
    } else if i < 1000 {
        "000"
    } else if i < 10000 {
        "00"
    } else if i < 100000 {
        "0"
    } else {
        ""
    };
    proof {
        assert(r@ =~= zeros(pad_width(i as nat)));
    }
    r
}

/// Builds the file name of frame `i`.
pub fn frame_file_name(i: u64) -> (r: String)
    ensures
        r@ == frame_file_of(i as nat),
{
    let mut s = "frame_".to_owned();
    s.append(pad_str(i));
    let digits = u64_to_dec(i);
    s.append(digits.as_str());
    s.append(".png");
    s
}

/// The indices written after `n` successful saves: `0, 1, ..., n - 1`.
pub open spec fn written_indices_of(n: nat) -> Seq<int> {
    Seq::new(n, |i: int| i)
}

/// Numbers the frames of one producer in one session.  Numbering
/// starts at zero and a number is consumed only by a successful save.
pub struct FrameSink {
    frames_dir: String,
    next_index: u64,
}

impl FrameSink {
    /// The directory this sink writes into.
    pub closed spec fn dir_spec(self) -> Seq<char> {
        self.frames_dir@
    }

    /// How many frames have been saved (also the next unused index).
    pub closed spec fn count(self) -> nat {
        self.next_index as nat
    }

    /// A fresh sink for one session's frame directory, starting at
    /// index zero.
    pub fn new(frames_dir: String) -> (r: FrameSink)
        ensures
            r.dir_spec() == frames_dir@,
            r.count() == 0,
    {
        FrameSink { frames_dir, next_index: 0 }
    }

    /// The sink for session `session_id` under `output_dir`.
    pub fn for_session(output_dir: &str, session_id: &str) -> (r: FrameSink)
        ensures
            r.dir_spec() == frames_dir_of(output_dir@, session_id@),
            r.count() == 0,
    {
        FrameSink::new(join_path(output_dir, session_id))
    }

    /// Where the next captured frame must be written.
    pub fn next_frame_path(&self) -> (r: String)
        ensures
            r@ == joined_path(self.dir_spec(), frame_file_of(self.count())),
    {
        let name = frame_file_name(self.next_index);
        join_path(self.frames_dir.as_str(), name.as_str())
    }

    /// Records one successfully saved frame: exactly the next index is
    /// consumed, keeping the written sequence contiguous.  A failed
    /// capture or save is simply not recorded and consumes no index.
    pub fn frame_saved(&mut self)
        requires
            old(self).count() < u64::MAX,
        ensures
            final(self).dir_spec() == old(self).dir_spec(),
            final(self).count() == old(self).count() + 1,
            written_indices_of(final(self).count()) =~= written_indices_of(old(self).count()).push(
                old(self).count() as int,
            ),
    {
        self.next_index = self.next_index + 1;
    }

    /// How many frames were saved, as a machine integer.
    pub fn frames_written(&self) -> (r: u64)
        ensures
            r as nat == self.count(),
    {
        self.next_index
    }
}

/// The sleep between two samples at `fps` frames per second.
pub fn frame_interval_ms(fps: u32) -> (r: u64)
    requires
        fps >= 1,
    ensures
        r == 1000int / (fps as int),
{
    1000 / (fps as u64)
}

/// The indices written during one session for one producer are
/// contiguous from zero with no gaps: after `n` saves they are exactly
/// `0 .. n`, and one more save appends exactly the next index.  A
/// failed save changes the count, and so this sequence, not at all.
pub proof fn law_frame_numbering_contiguous(n: nat)
    ensures
        written_indices_of(n).len() == n,
        forall|k: int| 0 <= k < n ==> written_indices_of(n)[k] == k,
        written_indices_of(n + 1) =~= written_indices_of(n).push(n as int),
{
}

} // verus!
