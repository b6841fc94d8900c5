//! The scripted login's decisions: how a comma-separated selector
//! list is split into candidates, when a form field counts as
//! pre-filled, when the local-address shortcut applies, and how a
//! failed step is reported.  Driving the browser — finding elements,
//! typing, clicking — happens in the surroundings, which try the
//! candidates in the order given here and report what succeeded.

use vstd::prelude::*;
use vstd::string::*;
use crate::session::SessionError;

verus! {

/// Whether `p` occurs in `s` starting at `i`.
pub open spec fn is_match_at(s: Seq<char>, p: Seq<char>, i: int) -> bool {
    0 <= i && i + p.len() <= s.len() && s.subrange(i, i + p.len()) == p
}

/// Whether `p` occurs anywhere in `s`.
pub open spec fn contains_seq(s: Seq<char>, p: Seq<char>) -> bool {
    exists|i: int| is_match_at(s, p, i)
}

fn match_at(s: &str, p: &str, i: usize) -> (r: bool)
    requires
        i + p@.len() <= s@.len(),
        s@.len() <= usize::MAX,
    ensures
        r == is_match_at(s@, p@, i as int),
{
    let m = p.unicode_len();
    let mut j: usize = 0;
    while j < m
        invariant
            j <= m,
            i + m <= s@.len(),
            s@.len() <= usize::MAX,
            m == p@.len(),
            forall|t: int| 0 <= t < j ==> s@[i + t] == p@[t],
        decreases m - j,
    {
        if s.get_char(i + j) != p.get_char(j) {
            proof {
                if is_match_at(s@, p@, i as int) {
                    assert(s@.subrange(i as int, i + m) == p@);
                    assert(s@.subrange(i as int, i + m)[j as int] == s@[i + j]);
                    assert(false);
                }
            }
            return false;
        }
        j = j + 1;
    }
    proof {
        assert(s@.subrange(i as int, i + m) =~= p@);
    }
    true
}

/// Whether `p` occurs in `s`.
pub fn contains_str(s: &str, p: &str) -> (r: bool)
    ensures
        r == contains_seq(s@, p@),
{
    let n = s.unicode_len();
    let m = p.unicode_len();
    if m == 0 {
        proof {
            assert(s@.subrange(0, 0) =~= p@);
            assert(is_match_at(s@, p@, 0));
        }
        return true;
    }
    if m > n {
        proof {
            assert forall|i: int| !is_match_at(s@, p@, i) by {
                if 0 <= i && i + p@.len() <= s@.len() {
                    assert(false);
                }
            }
        }
        return false;
    }
    let mut i: usize = 0;
    while i <= n - m
        invariant
            1 <= m <= n,
            n == s@.len(),
            m == p@.len(),
            i <= n - m + 1,
            forall|k: int| 0 <= k < i ==> !is_match_at(s@, p@, k),
        decreases n - i,
    {
        if match_at(s, p, i) {
            return true;
        }
        i = i + 1;
    }
    proof {
        assert forall|k: int| !is_match_at(s@, p@, k) by {
            if 0 <= k && k + p@.len() <= s@.len() {
                assert(k < i);
            }
        }
    }
    false
}

/// Whether the page address points at the local machine, where forms
/// may come pre-filled.
pub open spec fn local_address(u: Seq<char>) -> bool {
    contains_seq(u, "localhost"@) || contains_seq(u, "127.0.0.1"@)
}

/// Whether `url` points at the local machine.
pub fn is_local_address(url: &str) -> (r: bool)
    ensures
        r == local_address(url@),
{
    contains_str(url, "localhost") || contains_str(url, "127.0.0.1")
}

/// The whitespace that trimming removes.
pub open spec fn is_space(c: char) -> bool {
    c == ' ' || c == '\t' || c == '\n' || c == '\r'
}

/// `s` with leading whitespace removed.
pub open spec fn trim_start_spec(s: Seq<char>) -> Seq<char>
    decreases s.len(),
{
    if s.len() > 0 && is_space(s[0]) {
        trim_start_spec(s.drop_first())
    } else {
        s
    }
}

/// `s` with trailing whitespace removed.
pub open spec fn trim_end_spec(s: Seq<char>) -> Seq<char>
    decreases s.len(),
{
    if s.len() > 0 && is_space(s.last()) {
        trim_end_spec(s.drop_last())
    } else {
        s
    }
}

/// `s` with surrounding whitespace removed.
pub open spec fn trim_spec(s: Seq<char>) -> Seq<char> {
    trim_end_spec(trim_start_spec(s))
}

fn is_space_char(c: char) -> (r: bool)
    ensures
        r == is_space(c),
{
    c == ' ' || c == '\t' || c == '\n' || c == '\r'
}

/// `s` with surrounding whitespace removed.
pub fn trim_str(s: &str) -> (r: String)
    ensures
        r@ == trim_spec(s@),
{
    let n = s.unicode_len();
    let mut lo: usize = 0;
    proof {
        assert(s@.skip(0) =~= s@);
    }
    while lo < n && is_space_char(s.get_char(lo))
        invariant
            lo <= n,
            n == s@.len(),
            trim_start_spec(s@) == trim_start_spec(s@.skip(lo as int)),
        decreases n - lo,
    {
        proof {
            assert(s@.skip(lo as int).drop_first() =~= s@.skip(lo + 1));
        }
        lo = lo + 1;
    }
    let ghost t = s@.skip(lo as int);
    proof {
        assert(trim_start_spec(s@) == t);
    }
    let mut hi: usize = n;
    proof {
        assert(t.take(n - lo as int) =~= t);
    }
    while hi > lo && is_space_char(s.get_char(hi - 1))
        invariant
            lo <= hi <= n,
            n == s@.len(),
            t == s@.skip(lo as int),
            trim_end_spec(t) == trim_end_spec(t.take(hi - lo as int)),
        decreases hi,
    {
        proof {
            assert(t.take(hi - lo as int).last() == s@[hi - 1]);
            assert(t.take(hi - lo as int).drop_last() =~= t.take(hi - 1 - lo as int));
        }
        hi = hi - 1;
    }
    proof {
        if hi > lo {
            assert(t.take(hi - lo as int).last() == s@[hi - 1]);
        }
        assert(trim_end_spec(t) == t.take(hi - lo as int));
        assert(t.take(hi - lo as int) =~= s@.subrange(lo as int, hi as int));
    }
    s.substring_char(lo, hi).to_owned()
}

/// Splitting on commas, carrying the piece being accumulated.
pub open spec fn split_acc(s: Seq<char>, cur: Seq<char>) -> Seq<Seq<char>>
    decreases s.len(),
{
    if s.len() == 0 {
        seq![cur]
    } else if s[0] == ',' {
        seq![cur] + split_acc(s.drop_first(), Seq::empty())
    } else {
        split_acc(s.drop_first(), cur.push(s[0]))
    }
}

/// The comma-separated pieces of `s` (one empty piece for an empty
/// `s`, as splitting does).
pub open spec fn comma_pieces(s: Seq<char>) -> Seq<Seq<char>> {
    split_acc(s, Seq::empty())
}

/// The selector candidates of a comma-separated list: each piece with
/// its surrounding whitespace removed, in order.
pub open spec fn selector_list_of(s: Seq<char>) -> Seq<Seq<char>> {
    comma_pieces(s).map_values(|p: Seq<char>| trim_spec(p))
}

/// Splits a comma-separated selector list into trimmed candidates,
/// kept in order: the surroundings try them one by one until an
/// element responds.
pub fn selector_candidates(s: &str) -> (r: Vec<String>)
    ensures
        r.deep_view() == selector_list_of(s@),
{
    let n = s.unicode_len();
    let mut out: Vec<String> = Vec::new();
    let ghost mut raw: Seq<Seq<char>> = Seq::empty();
    let mut start: usize = 0;
    let mut i: usize = 0;
    proof {
        assert(s@.skip(0) =~= s@);
        assert(s@.subrange(0, 0) =~= Seq::<char>::empty());
        assert(raw + split_acc(s@, Seq::empty()) =~= split_acc(s@, Seq::empty()));
    }
    while i < n
        invariant
            start <= i <= n,
            n == s@.len(),
            comma_pieces(s@) == raw + split_acc(
                s@.skip(i as int),
                s@.subrange(start as int, i as int),
            ),
            out@.len() == raw.len(),
            forall|k: int| 0 <= k < raw.len() ==> out@[k]@ == trim_spec(raw[k]),
        decreases n - i,
    {
        let ghost cur = s@.subrange(start as int, i as int);
        if s.get_char(i) == ',' {
            let piece = s.substring_char(start, i);
            out.push(trim_str(piece));
            proof {
                assert(s@.skip(i as int)[0] == s@[i as int]);
                assert(s@.skip(i as int).drop_first() =~= s@.skip(i + 1));
                assert(split_acc(s@.skip(i as int), cur) == seq![cur] + split_acc(
                    s@.skip(i + 1),
                    Seq::empty(),
                ));
                assert(raw + (seq![cur] + split_acc(s@.skip(i + 1), Seq::empty())) =~= (
                raw.push(cur)) + split_acc(s@.skip(i + 1), Seq::empty()));
                raw = raw.push(cur);
                assert(Seq::<char>::empty() =~= s@.subrange(i + 1, i + 1));
            }
            start = i + 1;
        } else {
            proof {
                assert(s@.skip(i as int)[0] == s@[i as int]);
                assert(s@.skip(i as int).drop_first() =~= s@.skip(i + 1));
                assert(split_acc(s@.skip(i as int), cur) == split_acc(
                    s@.skip(i + 1),
                    cur.push(s@[i as int]),
                ));
                assert(cur.push(s@[i as int]) =~= s@.subrange(start as int, i + 1));
            }
        }
        i = i + 1;
    }
    let last_piece = s.substring_char(start, n);
    out.push(trim_str(last_piece));
    proof {
        assert(s@.skip(n as int) =~= Seq::<char>::empty());
        assert(split_acc(s@.skip(n as int), s@.subrange(start as int, n as int)) == seq![
            s@.subrange(start as int, n as int),
        ]);
        raw = raw.push(s@.subrange(start as int, n as int));
        assert(comma_pieces(s@) =~= raw);
        assert(out.deep_view() =~= comma_pieces(s@).map_values(|p: Seq<char>| trim_spec(p)));
    }
    out
}

/// Whether a form field's current value counts as pre-filled: it has
/// one, and it is not only whitespace.
pub fn field_prefilled(value: Option<&String>) -> (r: bool)
    ensures
        r == match value {
            Some(v) => trim_spec(v@).len() > 0,
            None => false,
        },
{
    match value {
        Some(v) => {
            let trimmed = trim_str(v.as_str());
            trimmed.as_str().unicode_len() > 0
        },
        None => false,
    }
}

/// How the login form is driven.
#[derive(Clone, Copy, Debug, PartialEq, Eq, Structural)]
pub enum LoginPlan {
    /// On a local address with both fields already filled, only the
    /// submit button is clicked.
    SubmitOnly,
    /// Fill the username, then the password, then submit.
    FillThenSubmit,
}

/// Decides how the login form is driven: the filling is skipped only
/// on a local address whose username and password fields are both
/// pre-filled.
pub fn plan_login(current_url: &str, username_prefilled: bool, password_prefilled: bool) -> (r:
    LoginPlan)
    ensures
        r == if local_address(current_url@) && username_prefilled && password_prefilled {
            LoginPlan::SubmitOnly
        } else {
            LoginPlan::FillThenSubmit
        },
{
    if is_local_address(current_url) && username_prefilled && password_prefilled {
        LoginPlan::SubmitOnly
    } else {
        LoginPlan::FillThenSubmit
    }
}

/// Judges one login step: the step succeeded when any candidate
/// selector responded; otherwise the login fails, naming the part of
/// the form that could not be found.
pub fn require_step(any_candidate_succeeded: bool, what: &str) -> (r: Result<(), SessionError>)
    ensures
        any_candidate_succeeded ==> r is Ok,
        !any_candidate_succeeded ==> (r matches Err(e) && e matches SessionError::AuthFailed(msg)
            && msg@ == "Could not find "@ + what@),
{
    if any_candidate_succeeded {
        Ok(())
    } else {
        let mut msg = "Could not find ".to_owned();
        msg.append(what);
        Err(SessionError::AuthFailed(msg))
    }
}

} // verus!
