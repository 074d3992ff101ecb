//! Desktop notification rules: the severity filter, the urgency mapping
//! and the per-type summary line. Showing the notification is platform
//! I/O and stays with the caller, which works from the plan built here.

use vstd::prelude::*;

use crate::config::Phase9Config;
use crate::models::{Alert, AlertSeverity, AlertType};

verus! {

/// Urgency level of a desktop notification.
#[derive(Debug, Clone, Copy, PartialEq, Eq, Structural)]
pub enum NotificationUrgency {
    Low,
    Normal,
    Critical,
}

/// Urgency for a severity: Emergency and Critical are urgent, Warning is
/// normal, everything below is low.
pub open spec fn spec_urgency_for(severity: AlertSeverity) -> NotificationUrgency {
    match severity {
        AlertSeverity::Emergency => NotificationUrgency::Critical,
        AlertSeverity::Critical => NotificationUrgency::Critical,
        AlertSeverity::Warning => NotificationUrgency::Normal,
        AlertSeverity::Notice => NotificationUrgency::Low,
        AlertSeverity::Info => NotificationUrgency::Low,
    }
}

/// Urgency for a severity.
#[verifier::when_used_as_spec(spec_urgency_for)]
pub fn urgency_for(severity: AlertSeverity) -> (r: NotificationUrgency)
    ensures
        r == spec_urgency_for(severity),
{
    match severity {
        AlertSeverity::Emergency => NotificationUrgency::Critical,
        AlertSeverity::Critical => NotificationUrgency::Critical,
        AlertSeverity::Warning => NotificationUrgency::Normal,
        AlertSeverity::Notice => NotificationUrgency::Low,
        AlertSeverity::Info => NotificationUrgency::Low,
    }
}

/// Human summary line for an alert type.
pub open spec fn spec_summary_for(ty: AlertType) -> Seq<char> {
    match ty {
        AlertType::DxSpot => "\u{1f399} DX Spot"@,
        AlertType::SatellitePass => "\u{1f6f0} Satellite Pass"@,
        AlertType::KpSpike => "\u{26a1} Geomagnetic Storm"@,
        AlertType::XrayFlare => "\u{2600} Solar Flare"@,
        AlertType::Aurora => "\u{1f30c} Aurora Alert"@,
        AlertType::Cme => "\u{1f30a} CME Detected"@,
    }
}

/// Human summary line for an alert type.
pub fn summary_for(ty: AlertType) -> (r: &'static str)
    ensures
        r@ == spec_summary_for(ty),
{
    match ty {
        AlertType::DxSpot => "\u{1f399} DX Spot",
        AlertType::SatellitePass => "\u{1f6f0} Satellite Pass",
        AlertType::KpSpike => "\u{26a1} Geomagnetic Storm",
        AlertType::XrayFlare => "\u{2600} Solar Flare",
        AlertType::Aurora => "\u{1f30c} Aurora Alert",
        AlertType::Cme => "\u{1f30a} CME Detected",
    }
}

/// Everything the caller needs to show one notification.
#[derive(Debug)]
pub struct NotificationPlan {
    pub summary: String,
    pub body: String,
    pub urgency: NotificationUrgency,
    /// Display timeout in milliseconds.
    pub timeout_ms: u64,
}

/// Notification sender: decides, from the configured minimum severity,
/// which alerts reach the desktop and how.
pub struct NotificationSender {
    pub config: Phase9Config,
}

impl NotificationSender {
    /// Create a new notification sender.
    pub fn new(config: Phase9Config) -> (r: Self)
        ensures
            r.config == config,
    {
        NotificationSender { config }
    }

    /// Whether an alert of this severity reaches the desktop.
    pub open spec fn spec_should_notify(&self, severity: AlertSeverity) -> bool {
        severity.spec_rank() >= self.config.notification_min_severity.spec_rank()
    }

    /// Plan the notification for an alert: nothing below the configured
    /// minimum severity; otherwise the per-type summary, the alert message
    /// as body, the severity's urgency, and the configured timeout.
    pub fn plan_alert(&self, alert: &Alert) -> (r: Option<NotificationPlan>)
        ensures
            r is Some <==> self.spec_should_notify(alert.severity),
            r is Some ==> ({
                let plan = r.unwrap();
                &&& plan.summary@ == spec_summary_for(alert.alert_type)
                &&& plan.body == alert.message
                &&& plan.urgency == spec_urgency_for(alert.severity)
                &&& plan.timeout_ms == self.config.notification_timeout_seconds * 1000
            }),
    {
        if alert.severity.rank() < self.config.notification_min_severity.rank() {
            return None;
        }
        Some(
            NotificationPlan {
                summary: summary_for(alert.alert_type).to_owned(),
                body: alert.message.clone(),
                urgency: urgency_for(alert.severity),
                timeout_ms: (self.config.notification_timeout_seconds as u64) * 1000,
            },
        )
    }
}

} // verus!
