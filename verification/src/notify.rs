//! Job-event notifications.
//!
//! Zero or one notification channel is active per daemon run.  The events
//! carry enough context to render an alert without a database read; the
//! channel that renders and delivers them lives outside the library, and
//! every delivery failure is logged and dropped — notifications are
//! best-effort and never block a state transition.

use vstd::prelude::*;

verus! {

/// Which notification channel a daemon run uses.
#[derive(Debug, Clone, PartialEq, Eq, Structural)]
pub enum NotificationChannelType {
    /// No notifications.
    Disabled,
    /// A Slack incoming-webhook channel.
    Slack,
}

/// Configuration of the notification system.
#[derive(Debug, Clone)]
pub struct NotificationConfig {
    pub channel: NotificationChannelType,
    /// Webhook URL, required when the Slack channel is selected.
    pub slack_webhook: Option<String>,
}

/// An event worth telling the operator about.
#[derive(Debug, Clone)]
pub enum JobEvent {
    Started {
        job_id: String,
        device_label: String,
        device_uuid: String,
        source: String,
        destination: String,
    },
    Completed { job_id: String, device_label: String, total_bytes: u64, duration_secs: u64 },
    Failed { job_id: String, device_label: String, error: String },
}

/// Whether the configuration names a usable channel: notifications are sent
/// only when the Slack channel is selected and a non-empty webhook is set.
pub fn notifier_enabled(config: &NotificationConfig) -> (r: bool)
    ensures
        r <==> (config.channel == NotificationChannelType::Slack && (
        config.slack_webhook matches Some(w) && w@.len() > 0)),
{
    match config.channel {
        NotificationChannelType::Disabled => false,
        NotificationChannelType::Slack => match &config.slack_webhook {
            Some(w) => w.as_str().unicode_len() > 0,
            None => false,
        },
    }
}

} // verus!
