//! Derivation of artifact names: the video file is named after the host
//! of the visited site (falling back to a timestamped default), and the
//! still-frame directory after the session id.

use vstd::prelude::*;
use vstd::string::*;
use crate::strutil::{join_path, joined_path};

verus! {

/// The host part of `url`, when `url` parses as an absolute URL whose
/// scheme has a host; determined by the text of the URL alone.
pub uninterp spec fn host_of(url: Seq<char>) -> Option<Seq<char>>;

/// Relies on `url::Url::parse` and `url::Url::host_str`: parsing is a
/// pure function of the input text, and the host is `None` exactly when
/// the input is not an absolute URL or its scheme carries no host.
#[verifier::external_body]
fn parse_host(url: &str) -> (r: Option<String>)
    ensures
        r is Some <==> host_of(url@) is Some,
        r is Some ==> r->0@ == host_of(url@)->0,
{
    match url::Url::parse(url) {
        Ok(u) => u.host_str().map(|h| h.to_string()),
        Err(_) => None,
    }
}

/// `h` with a leading `www.` removed, if present.
pub open spec fn strip_www(h: Seq<char>) -> Seq<char> {
    if h.len() >= 4 && h.subrange(0, 4) == "www."@ {
        h.skip(4)
    } else {
        h
    }
}

/// Number of characters before the first `'.'` of `h` (all of `h` when
/// it has none).
pub open spec fn label_len(h: Seq<char>) -> nat
    decreases h.len(),
{
    if h.len() == 0 || h[0] == '.' {
        0
    } else {
        1 + label_len(h.drop_first())
    }
}

/// The part of `h` before its first `'.'`.
pub open spec fn leading_label(h: Seq<char>) -> Seq<char> {
    h.take(label_len(h) as int)
}

/// The name a host contributes to the artifact: its first label, after
/// dropping a `www.` prefix.
pub open spec fn domain_label_of(h: Seq<char>) -> Seq<char> {
    leading_label(strip_www(h))
}

proof fn lemma_label_len_at(s: Seq<char>, j: int)
    requires
        0 <= j <= s.len(),
        forall|k: int| 0 <= k < j ==> s[k] != '.',
        j == s.len() || s[j] == '.',
    ensures
        label_len(s) == j,
    decreases j,
{
    if j == 0 {
    } else {
        assert(s[0] != '.');
        let t = s.drop_first();
        assert(forall|k: int| 0 <= k < j - 1 ==> t[k] == s[k + 1] && t[k] != '.');
        assert(j - 1 == t.len() || t[j - 1] == '.');
        lemma_label_len_at(t, j - 1);
    }
}

/// The first label of `host` once a `www.` prefix is dropped.
pub fn domain_label(host: &str) -> (r: String)
    ensures
        r@ == domain_label_of(host@),
{
    proof {
        reveal_strlit("www.");
    }
    let n = host.unicode_len();
    let start: usize = if n >= 4 && host.get_char(0) == 'w' && host.get_char(1) == 'w'
        && host.get_char(2) == 'w' && host.get_char(3) == '.' {
        proof {
            assert(host@.subrange(0, 4) =~= "www."@);
        }
        4
    } else {
        proof {
            if host@.len() >= 4 && host@.subrange(0, 4) == "www."@ {
                assert(host@[0] == "www."@[0]);
                assert(host@[1] == "www."@[1]);
                assert(host@[2] == "www."@[2]);
                assert(host@[3] == "www."@[3]);
            }
        }
        0
    };
    let ghost stripped = strip_www(host@);
    proof {
        assert(stripped =~= host@.skip(start as int));
    }
    let mut i: usize = start;
    while i < n && host.get_char(i) != '.'
        invariant
            start <= i <= n,
            n == host@.len(),
            stripped == host@.skip(start as int),
            forall|k: int| start <= k < i ==> host@[k] != '.',
        decreases n - i,
    {
        i = i + 1;
    }
    proof {
        assert(forall|k: int| 0 <= k < i - start ==> stripped[k] == host@[k + start]);
        lemma_label_len_at(stripped, i - start);
        assert(leading_label(stripped) =~= host@.subrange(start as int, i as int));
    }
    host.substring_char(start, i).to_owned()
}

/// The artifact base name for a session: the domain label of the target
/// URL's host when there is one, otherwise a timestamped default.
pub open spec fn video_name_of(url: Option<Seq<char>>, session_id: Seq<char>, stamp: Seq<char>) -> Seq<
    char,
> {
    match url {
        Some(u) => match host_of(u) {
            Some(h) => domain_label_of(h),
            None => "recording_"@ + stamp,
        },
        None => session_id,
    }
}

/// The file name of the session's video artifact.
pub open spec fn video_file_of(
    url: Option<Seq<char>>,
    session_id: Seq<char>,
    stamp: Seq<char>,
    ext: Seq<char>,
) -> Seq<char> {
    video_name_of(url, session_id, stamp) + "_"@ + stamp + "."@ + ext
}

/// Builds the video file name `<name>_<stamp>.<ext>`, naming the video
/// after the target's host when one is known.
pub fn video_file_name(url: Option<&String>, session_id: &str, stamp: &str, ext: &str) -> (r:
    String)
    ensures
        r@ == video_file_of(
            match url {
                Some(u) => Some(u@),
                None => None,
            },
            session_id@,
            stamp@,
            ext@,
        ),
{
    let mut name: String = match url {
        Some(u) => match parse_host(u.as_str()) {
            Some(h) => domain_label(h.as_str()),
            None => {
                let mut s = "recording_".to_owned();
                s.append(stamp);
                s
            },
        },
        None => session_id.to_owned(),
    };
    name.append("_");
    name.append(stamp);
    name.append(".");
    name.append(ext);
    name
}

/// The directory that one session's sampled frames are written to.
pub open spec fn frames_dir_of(output_dir: Seq<char>, session_id: Seq<char>) -> Seq<char> {
    joined_path(output_dir, session_id)
}

/// Path of the per-session frame directory `<output_dir>/<session_id>`.
pub fn frames_dir_path(output_dir: &str, session_id: &str) -> (r: String)
    ensures
        r@ == frames_dir_of(output_dir@, session_id@),
{
    join_path(output_dir, session_id)
}

/// Sessions with distinct ids write their frames to distinct
/// directories under one output directory.
pub proof fn lemma_distinct_sessions_distinct_dirs(
    output_dir: Seq<char>,
    id1: Seq<char>,
    id2: Seq<char>,
)
    requires
        id1 != id2,
    ensures
        frames_dir_of(output_dir, id1) != frames_dir_of(output_dir, id2),
{
    reveal_strlit("/");
    let p1 = frames_dir_of(output_dir, id1);
    let p2 = frames_dir_of(output_dir, id2);
    assert(p1.len() == output_dir.len() + 1 + id1.len());
    assert(p2.len() == output_dir.len() + 1 + id2.len());
    if id1.len() != id2.len() {
        assert(p1.len() != p2.len());
    } else {
        if forall|k: int| 0 <= k < id1.len() ==> id1[k] == id2[k] {
            assert(id1 =~= id2);
            assert(false);
        }
        let k = choose|k: int| 0 <= k < id1.len() && id1[k] != id2[k];
        assert(p1[output_dir.len() + 1 + k] == id1[k]);
        assert(p2[output_dir.len() + 1 + k] == id2[k]);
        assert(p1 != p2);
    }
}

} // verus!
