//! What the browser collaborator is driven with: navigation options,
//! scrolling behavior and the scripts the incremental scroll runs.
//! The browser itself — launching, navigating, screenshotting — is an
//! external collaborator of the orchestrator.

use vstd::prelude::*;
use vstd::string::*;
use crate::strutil::{dec_str, u32_to_dec};

verus! {

/// Errors of driving the browser.
#[derive(Debug)]
pub enum BrowserError {
    /// The browser process could not be launched.
    LaunchFailed(String),
    /// A navigation did not complete.
    NavigationError(String),
    /// A navigation or wait ran out of time.
    Timeout(String),
    /// Any other browser failure.
    BrowserError(String),
}

/// How a page is scrolled after it loads.
#[derive(Clone, Copy, Debug, PartialEq, Eq, Structural)]
pub enum ScrollBehavior {
    /// Leave the page where it loaded.
    NoScroll,
    /// Jump straight to the bottom.
    ToBottom,
    /// Scroll down in `steps` equal stops, pausing `delay_ms` between
    /// them.
    Incremental { steps: u32, delay_ms: u64 },
}

/// How one navigation behaves.
#[derive(Debug)]
pub struct NavigationOptions {
    pub timeout_ms: u64,
    pub wait_for_idle: bool,
    pub scroll_behavior: ScrollBehavior,
}

impl Default for NavigationOptions {
    /// Thirty-second timeout, wait for the page to settle, scroll in
    /// five stops half a second apart.
    fn default() -> (r: Self)
        ensures
            r.timeout_ms == 30000,
            r.wait_for_idle,
            r.scroll_behavior == (ScrollBehavior::Incremental { steps: 5u32, delay_ms: 500u64 }),
    {
        NavigationOptions {
            timeout_ms: 30000,
            wait_for_idle: true,
            scroll_behavior: ScrollBehavior::Incremental { steps: 5, delay_ms: 500 },
        }
    }
}

/// The script of stop `i` of an incremental scroll over `steps`
/// stops: it scrolls to `i/steps` of the page's height.
pub open spec fn scroll_step_script_of(i: nat, steps: nat) -> Seq<char> {
    "window.scrollTo(0, document.body.scrollHeight * "@ + dec_str(i) + " / "@ + dec_str(steps)
        + ");"@
}

/// Builds the script of stop `i` of an incremental scroll.
pub fn scroll_step_script(i: u32, steps: u32) -> (r: String)
    ensures
        r@ == scroll_step_script_of(i as nat, steps as nat),
{
    let mut s = "window.scrollTo(0, document.body.scrollHeight * ".to_owned();
    let istr = u32_to_dec(i);
    s.append(istr.as_str());
    s.append(" / ");
    let sstr = u32_to_dec(steps);
    s.append(sstr.as_str());
    s.append(");");
    s
}

} // verus!
