//! Daemon-mode bookkeeping: the PID file the daemon advertises itself
//! under and the shutdown flag that signal handlers raise and the
//! crawl loop polls.  Forking, signal registration and the PID file
//! I/O belong to the surrounding shell.

use vstd::prelude::*;

verus! {

/// Owns the daemon's state: where its PID file lives (if any) and
/// whether a shutdown was requested.
pub struct DaemonManager {
    pub pid_file: Option<String>,
    stop_requested: bool,
}

impl DaemonManager {
    /// The PID file path, if one was configured.
    pub closed spec fn pid_file_spec(self) -> Option<Seq<char>> {
        self.pid_file.deep_view()
    }

    /// Whether a shutdown was requested.
    pub closed spec fn stop_requested_spec(self) -> bool {
        self.stop_requested
    }

    /// A manager with no shutdown requested yet.
    pub fn new(pid_file: Option<String>) -> (r: DaemonManager)
        ensures
            r.pid_file_spec() == pid_file.deep_view(),
            !r.stop_requested_spec(),
    {
        DaemonManager { pid_file, stop_requested: false }
    }

    /// Raises the shutdown flag; called when a termination signal
    /// arrives.  Once raised it stays raised.
    pub fn request_stop(&mut self)
        ensures
            final(self).stop_requested_spec(),
            final(self).pid_file_spec() == old(self).pid_file_spec(),
    {
        self.stop_requested = true;
    }

    /// Whether shutdown was requested; the crawl loop polls this to
    /// wind down gracefully.
    pub fn should_stop(&self) -> (r: bool)
        ensures
            r == self.stop_requested_spec(),
    {
        self.stop_requested
    }
}

} // verus!
