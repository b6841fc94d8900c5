//! The crawl loop's decisions: the shared status one crawl run keeps,
//! when a run may begin, what each iteration does next, and how a
//! page visit is recorded.  The loop body's outside work — navigating,
//! reading page content, sleeping — happens in the surroundings, which
//! feed every outcome back in here.

use vstd::prelude::*;
use vstd::string::*;

verus! {

/// The observable status of one crawl run.
#[derive(Debug)]
pub struct CrawlStatus {
    pub is_running: bool,
    pub current_url: String,
    pub pages_visited: usize,
    pub pages_discovered: usize,
    pub session_id: String,
}

impl Default for CrawlStatus {
    /// Not running, nothing visited, no session.
    fn default() -> (r: Self)
        ensures
            !r.is_running,
            r.current_url@ == Seq::<char>::empty(),
            r.pages_visited == 0,
            r.pages_discovered == 0,
            r.session_id@ == Seq::<char>::empty(),
    {
        CrawlStatus {
            is_running: false,
            current_url: String::new(),
            pages_visited: 0,
            pages_discovered: 0,
            session_id: String::new(),
        }
    }
}

impl CrawlStatus {
    /// Begins a run at the given target: rejected while one is already
    /// in progress (leaving the status untouched); otherwise the run
    /// is marked live under a fresh session id derived from the
    /// wall-clock stamp, with its counters reset.  Returns the session
    /// id.
    pub fn begin_run(&mut self, url: &str, stamp: &str) -> (r: Result<String, String>)
        ensures
            old(self).is_running ==> {
                &&& (r matches Err(e) && e@ == "Recording already in progress"@)
                &&& *final(self) == *old(self)
            },
            !old(self).is_running ==> {
                &&& (r matches Ok(sid) && sid@ == "session_"@ + stamp@)
                &&& final(self).is_running
                &&& final(self).session_id@ == "session_"@ + stamp@
                &&& final(self).current_url@ == url@
                &&& final(self).pages_visited == 0
                &&& final(self).pages_discovered == 0
            },
    {
        if self.is_running {
            return Err("Recording already in progress".to_owned());
        }
        let mut sid = "session_".to_owned();
        sid.append(stamp);
        self.is_running = true;
        self.session_id = sid.clone();
        self.current_url = url.to_owned();
        self.pages_visited = 0;
        self.pages_discovered = 0;
        Ok(sid)
    }

    /// Records one successful page visit and the size of the frontier
    /// after its links were added.
    pub fn record_visit(&mut self, url: String, discovered: usize)
        requires
            old(self).pages_visited < usize::MAX,
        ensures
            final(self).pages_visited == old(self).pages_visited + 1,
            final(self).current_url == url,
            final(self).pages_discovered == discovered,
            final(self).is_running == old(self).is_running,
            final(self).session_id == old(self).session_id,
    {
        self.pages_visited = self.pages_visited + 1;
        self.current_url = url;
        self.pages_discovered = discovered;
    }

    /// Marks the run as over.
    pub fn finish_run(&mut self)
        ensures
            !final(self).is_running,
            final(self).current_url == old(self).current_url,
            final(self).pages_visited == old(self).pages_visited,
            final(self).pages_discovered == old(self).pages_discovered,
            final(self).session_id == old(self).session_id,
    {
        self.is_running = false;
    }
}

/// Why a crawl loop ends.
#[derive(Clone, Copy, Debug, PartialEq, Eq, Structural)]
pub enum FinishReason {
    /// The operator (or a shutdown signal) stopped the run.
    Stopped,
    /// The configured page limit was reached.
    PageLimit,
    /// The frontier has no unvisited page left.
    Exhausted,
}

/// What one crawl iteration does.
#[derive(Debug)]
pub enum CrawlStep {
    /// Wind the run down for the given reason.
    Finish(FinishReason),
    /// Visit this page next.
    Visit(String),
}

/// Decides one crawl iteration, in this order: a requested stop ends
/// the run; then the page limit; then an exhausted frontier; otherwise
/// the next page is visited.
pub fn next_crawl_step(
    stop_requested: bool,
    pages_visited: usize,
    max_pages: usize,
    next_url: Option<String>,
) -> (r: CrawlStep)
    ensures
        stop_requested ==> r == CrawlStep::Finish(FinishReason::Stopped),
        !stop_requested && pages_visited >= max_pages ==> r == CrawlStep::Finish(
            FinishReason::PageLimit,
        ),
        !stop_requested && pages_visited < max_pages ==> match next_url {
            Some(url) => r matches CrawlStep::Visit(u) && u == url,
            None => r == CrawlStep::Finish(FinishReason::Exhausted),
        },
{
    if stop_requested {
        CrawlStep::Finish(FinishReason::Stopped)
    } else if pages_visited >= max_pages {
        CrawlStep::Finish(FinishReason::PageLimit)
    } else {
        match next_url {
            Some(url) => CrawlStep::Visit(url),
            None => CrawlStep::Finish(FinishReason::Exhausted),
        }
    }
}

} // verus!
