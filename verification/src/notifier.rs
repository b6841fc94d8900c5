//! Desktop notification composition: every notification the crawler
//! and recorder raise is composed here, with its exact wording pinned,
//! and handed to the surroundings as a plain request for delivery.

use vstd::prelude::*;
use vstd::string::*;
use crate::strutil::{dec_str, u64_to_dec, usize_to_dec};

verus! {

/// Errors of notification delivery.
#[derive(Debug)]
pub enum NotifierError {
    /// The notification could not be handed to the desktop.
    SendFailed(String),
    /// Any other notification failure.
    NotificationError(String),
}

/// Severity of a notification.
#[derive(Clone, Copy, Debug, PartialEq, Eq, Structural)]
pub enum NotificationLevel {
    Info,
    Success,
    Warning,
    Error,
}

/// How notifications present themselves.
#[derive(Debug)]
pub struct NotificationConfig {
    pub app_name: String,
    pub icon: Option<String>,
    pub timeout_ms: i32,
}

impl Default for NotificationConfig {
    /// Application name `SiteRecorder`, no icon, five-second timeout.
    fn default() -> (c: Self)
        ensures
            c.app_name@ == "SiteRecorder"@,
            c.icon is None,
            c.timeout_ms == 5000,
    {
        NotificationConfig { app_name: "SiteRecorder".to_owned(), icon: None, timeout_ms: 5000 }
    }
}

/// One composed notification, ready for delivery by the surroundings.
#[derive(Debug)]
pub struct NotificationRequest {
    pub app_name: String,
    pub icon: Option<String>,
    pub timeout_ms: i32,
    pub summary: String,
    pub body: String,
    pub level: NotificationLevel,
}

/// Composes the notifications of the recording application.
pub struct Notifier {
    pub config: NotificationConfig,
}

impl Notifier {
    pub fn new(config: NotificationConfig) -> (r: Notifier)
        ensures
            r.config == config,
    {
        Notifier { config }
    }

    /// Composes one notification under this notifier's presentation
    /// settings.
    pub fn send(&self, title: &str, message: &str, level: NotificationLevel) -> (r:
        NotificationRequest)
        ensures
            r.app_name@ == self.config.app_name@,
            r.icon.deep_view() == self.config.icon.deep_view(),
            r.timeout_ms == self.config.timeout_ms,
            r.summary@ == title@,
            r.body@ == message@,
            r.level == level,
    {
        NotificationRequest {
            app_name: self.config.app_name.clone(),
            icon: match &self.config.icon {
                Some(i) => Some(i.clone()),
                None => None,
            },
            timeout_ms: self.config.timeout_ms,
            summary: title.to_owned(),
            body: message.to_owned(),
            level,
        }
    }

    pub fn notify_info(&self, title: &str, message: &str) -> (r: NotificationRequest)
        ensures
            r.summary@ == title@,
            r.body@ == message@,
            r.level == NotificationLevel::Info,
            r.app_name@ == self.config.app_name@,
            r.timeout_ms == self.config.timeout_ms,
    {
        self.send(title, message, NotificationLevel::Info)
    }

    pub fn notify_success(&self, title: &str, message: &str) -> (r: NotificationRequest)
        ensures
            r.summary@ == title@,
            r.body@ == message@,
            r.level == NotificationLevel::Success,
            r.app_name@ == self.config.app_name@,
            r.timeout_ms == self.config.timeout_ms,
    {
        self.send(title, message, NotificationLevel::Success)
    }

    pub fn notify_warning(&self, title: &str, message: &str) -> (r: NotificationRequest)
        ensures
            r.summary@ == title@,
            r.body@ == message@,
            r.level == NotificationLevel::Warning,
            r.app_name@ == self.config.app_name@,
            r.timeout_ms == self.config.timeout_ms,
    {
        self.send(title, message, NotificationLevel::Warning)
    }

    pub fn notify_error(&self, title: &str, message: &str) -> (r: NotificationRequest)
        ensures
            r.summary@ == title@,
            r.body@ == message@,
            r.level == NotificationLevel::Error,
            r.app_name@ == self.config.app_name@,
            r.timeout_ms == self.config.timeout_ms,
    {
        self.send(title, message, NotificationLevel::Error)
    }

    /// "Recording Started": session `session_id` has begun recording.
    pub fn notify_recording_started(&self, session_id: &str) -> (r: NotificationRequest)
        ensures
            r.summary@ == "Recording Started"@,
            r.body@ == "Session "@ + session_id@ + " recording has started"@,
            r.level == NotificationLevel::Info,
    {
        let mut body = "Session ".to_owned();
        body.append(session_id);
        body.append(" recording has started");
        self.notify_info("Recording Started", body.as_str())
    }

    /// "Recording Completed": session `session_id` finished after
    /// `duration_secs` seconds.
    pub fn notify_recording_stopped(&self, session_id: &str, duration_secs: u64) -> (r:
        NotificationRequest)
        ensures
            r.summary@ == "Recording Completed"@,
            r.body@ == "Session "@ + session_id@ + " recording completed. Duration: "@ + dec_str(
                duration_secs as nat,
            ) + " seconds"@,
            r.level == NotificationLevel::Success,
    {
        let mut body = "Session ".to_owned();
        body.append(session_id);
        body.append(" recording completed. Duration: ");
        let secs = u64_to_dec(duration_secs);
        body.append(secs.as_str());
        body.append(" seconds");
        self.notify_success("Recording Completed", body.as_str())
    }

    /// "Crawl Started": the crawl of `url` has begun.
    pub fn notify_crawl_started(&self, url: &str) -> (r: NotificationRequest)
        ensures
            r.summary@ == "Crawl Started"@,
            r.body@ == "Started crawling "@ + url@,
            r.level == NotificationLevel::Info,
    {
        let mut body = "Started crawling ".to_owned();
        body.append(url);
        self.notify_info("Crawl Started", body.as_str())
    }

    /// "Crawl Completed": `total_pages` pages were visited.
    pub fn notify_crawl_completed(&self, total_pages: usize) -> (r: NotificationRequest)
        ensures
            r.summary@ == "Crawl Completed"@,
            r.body@ == "Successfully visited "@ + dec_str(total_pages as nat) + " pages"@,
            r.level == NotificationLevel::Success,
    {
        let mut body = "Successfully visited ".to_owned();
        let pages = usize_to_dec(total_pages);
        body.append(pages.as_str());
        body.append(" pages");
        self.notify_success("Crawl Completed", body.as_str())
    }

    /// "Error Occurred", carrying the error's message.
    pub fn notify_error_occurred(&self, error_msg: &str) -> (r: NotificationRequest)
        ensures
            r.summary@ == "Error Occurred"@,
            r.body@ == error_msg@,
            r.level == NotificationLevel::Error,
    {
        self.notify_error("Error Occurred", error_msg)
    }

    /// "Export Completed": the recording was exported to `file_path`.
    pub fn notify_export_completed(&self, file_path: &str) -> (r: NotificationRequest)
        ensures
            r.summary@ == "Export Completed"@,
            r.body@ == "Recording exported to "@ + file_path@,
            r.level == NotificationLevel::Success,
    {
        let mut body = "Recording exported to ".to_owned();
        body.append(file_path);
        self.notify_success("Export Completed", body.as_str())
    }
}

impl Default for Notifier {
    /// A notifier with the default presentation settings.
    fn default() -> (r: Self)
        ensures
            r.config.app_name@ == "SiteRecorder"@,
            r.config.icon is None,
            r.config.timeout_ms == 5000,
    {
        Notifier::new(NotificationConfig::default())
    }
}

} // verus!
