//! Configuration of the alert rules and of the alert sinks. A single
//! immutable configuration is built once at startup and passed by reference
//! to every component.

use vstd::prelude::*;

use crate::models::AlertSeverity;

verus! {

/// Watch-rule configuration. Frequencies are in kilohertz, the Kp
/// thresholds in tenths, the elevation threshold in whole degrees.
#[derive(Debug)]
pub struct AlertConfig {
    // Spot monitoring
    pub dx_alerts_enabled: bool,
    /// Watched band centres in kilohertz (`14074` is 14.074 MHz).
    pub watched_bands: Vec<u64>,
    pub watched_modes: Vec<String>,
    pub dx_min_frequency: Option<u64>,
    pub dx_max_frequency: Option<u64>,
    // Satellite pass notifications
    pub satellite_alerts_enabled: bool,
    /// Elevation threshold in whole degrees.
    pub satellite_elevation_threshold: i32,
    pub watched_satellites: Vec<String>,
    pub satellite_countdown_enabled: bool,
    // Space weather
    pub space_weather_alerts_enabled: bool,
    /// Kp level, in tenths, at or above which aurora alerts fire.
    pub kp_alert_threshold: i32,
    /// Kp rise, in tenths, at or above which a spike alert fires.
    pub kp_spike_threshold: i32,
    /// Watched X-ray class tags (`"M"`, `"X"`).
    pub xray_alert_classes: Vec<String>,
    pub aurora_alert_level: String,
    pub cme_alerts_enabled: bool,
    // Display behaviour
    pub alert_duration_seconds: u64,
    pub alert_flash_enabled: bool,
    pub audio_alerts_enabled: bool,
}

impl AlertConfig {
    /// The alert lifetime is positive and at most a year, so that expiry
    /// arithmetic stays inside the representable epoch range.
    pub open spec fn wf(self) -> bool {
        1 <= self.alert_duration_seconds <= 31536000
    }
}

impl Clone for AlertConfig {
    fn clone(&self) -> (r: Self)
        ensures
            r.dx_alerts_enabled == self.dx_alerts_enabled,
            r.watched_bands@ == self.watched_bands@,
            r.watched_modes@ == self.watched_modes@,
            r.dx_min_frequency == self.dx_min_frequency,
            r.dx_max_frequency == self.dx_max_frequency,
            r.satellite_alerts_enabled == self.satellite_alerts_enabled,
            r.satellite_elevation_threshold == self.satellite_elevation_threshold,
            r.watched_satellites@ == self.watched_satellites@,
            r.satellite_countdown_enabled == self.satellite_countdown_enabled,
            r.space_weather_alerts_enabled == self.space_weather_alerts_enabled,
            r.kp_alert_threshold == self.kp_alert_threshold,
            r.kp_spike_threshold == self.kp_spike_threshold,
            r.xray_alert_classes@ == self.xray_alert_classes@,
            r.aurora_alert_level == self.aurora_alert_level,
            r.cme_alerts_enabled == self.cme_alerts_enabled,
            r.alert_duration_seconds == self.alert_duration_seconds,
            r.alert_flash_enabled == self.alert_flash_enabled,
            r.audio_alerts_enabled == self.audio_alerts_enabled,
    {
        AlertConfig {
            dx_alerts_enabled: self.dx_alerts_enabled,
            watched_bands: self.watched_bands.clone(),
            watched_modes: clone_strings(&self.watched_modes),
            dx_min_frequency: self.dx_min_frequency,
            dx_max_frequency: self.dx_max_frequency,
            satellite_alerts_enabled: self.satellite_alerts_enabled,
            satellite_elevation_threshold: self.satellite_elevation_threshold,
            watched_satellites: clone_strings(&self.watched_satellites),
            satellite_countdown_enabled: self.satellite_countdown_enabled,
            space_weather_alerts_enabled: self.space_weather_alerts_enabled,
            kp_alert_threshold: self.kp_alert_threshold,
            kp_spike_threshold: self.kp_spike_threshold,
            xray_alert_classes: clone_strings(&self.xray_alert_classes),
            aurora_alert_level: self.aurora_alert_level.clone(),
            cme_alerts_enabled: self.cme_alerts_enabled,
            alert_duration_seconds: self.alert_duration_seconds,
            alert_flash_enabled: self.alert_flash_enabled,
            audio_alerts_enabled: self.audio_alerts_enabled,
        }
    }
}

/// Element-wise copy of a list of strings.
pub fn clone_strings(v: &Vec<String>) -> (r: Vec<String>)
    ensures
        r@ == v@,
{
    let mut r: Vec<String> = Vec::new();
    let mut i: usize = 0;
    #[verifier::loop_isolation(false)]
    while i < v.len()
        invariant
            0 <= i <= v@.len(),
            r@ == v@.take(i as int),
        decreases v@.len() - i,
    {
        r.push(v[i].clone());
        proof {
            assert(r@ =~= v@.take(i as int + 1));
        }
        i += 1;
    }
    proof {
        assert(r@ =~= v@);
    }
    r
}

impl Default for AlertConfig {
    /// The stock watch list: the common FT8 band centres, FT8 and CW modes,
    /// the two most watched satellites, Kp thresholds 5.0 and 2.0, M- and
    /// X-class flares, half-minute alerts.
    fn default() -> (r: Self)
        ensures
            r.dx_alerts_enabled,
            r.watched_bands@ =~= seq![14074u64, 7074u64, 3573u64],
            r.watched_modes@.len() == 2 && r.watched_modes@[0]@ == "FT8"@
                && r.watched_modes@[1]@ == "CW"@,
            r.dx_min_frequency is None,
            r.dx_max_frequency is None,
            r.satellite_alerts_enabled,
            r.satellite_elevation_threshold == 30,
            r.watched_satellites@.len() == 2 && r.watched_satellites@[0]@ == "ISS"@
                && r.watched_satellites@[1]@ == "SO-50"@,
            r.satellite_countdown_enabled,
            r.space_weather_alerts_enabled,
            r.kp_alert_threshold == 50,
            r.kp_spike_threshold == 20,
            r.xray_alert_classes@.len() == 2 && r.xray_alert_classes@[0]@ == "M"@
                && r.xray_alert_classes@[1]@ == "X"@,
            r.aurora_alert_level@ == "Moderate"@,
            r.cme_alerts_enabled,
            r.alert_duration_seconds == 30,
            r.alert_flash_enabled,
            !r.audio_alerts_enabled,
            r.wf(),
    {
        let mut watched_bands: Vec<u64> = Vec::new();
        watched_bands.push(14074);
        watched_bands.push(7074);
        watched_bands.push(3573);
        let mut watched_modes: Vec<String> = Vec::new();
        watched_modes.push("FT8".to_owned());
        watched_modes.push("CW".to_owned());
        let mut watched_satellites: Vec<String> = Vec::new();
        watched_satellites.push("ISS".to_owned());
        watched_satellites.push("SO-50".to_owned());
        let mut xray_alert_classes: Vec<String> = Vec::new();
        xray_alert_classes.push("M".to_owned());
        xray_alert_classes.push("X".to_owned());
        proof {
            assert(watched_bands@ =~= seq![14074u64, 7074u64, 3573u64]);
        }
        AlertConfig {
            dx_alerts_enabled: true,
            watched_bands,
            watched_modes,
            dx_min_frequency: None,
            dx_max_frequency: None,
            satellite_alerts_enabled: true,
            satellite_elevation_threshold: 30,
            watched_satellites,
            satellite_countdown_enabled: true,
            space_weather_alerts_enabled: true,
            kp_alert_threshold: 50,
            kp_spike_threshold: 20,
            xray_alert_classes,
            aurora_alert_level: "Moderate".to_owned(),
            cme_alerts_enabled: true,
            alert_duration_seconds: 30,
            alert_flash_enabled: true,
            audio_alerts_enabled: false,
        }
    }
}

/// Configuration of the four alert sinks.
#[derive(Debug)]
pub struct Phase9Config {
    // Durable history store
    pub history_enabled: bool,
    pub history_db_path: String,
    pub history_retention_days: u32,
    pub history_max_entries: usize,
    // Desktop notifications
    pub desktop_notifications_enabled: bool,
    pub notification_timeout_seconds: u32,
    pub notification_min_severity: AlertSeverity,
    // Broker publishing
    pub mqtt_enabled: bool,
    pub mqtt_broker_url: String,
    pub mqtt_client_id: String,
    pub mqtt_topic_prefix: String,
    pub mqtt_qos: u8,
    // Live dashboard
    pub web_dashboard_enabled: bool,
    pub web_dashboard_port: u16,
    pub web_dashboard_host: String,
}

impl Clone for Phase9Config {
    fn clone(&self) -> (r: Self)
        ensures
            r == *self,
    {
        Phase9Config {
            history_enabled: self.history_enabled,
            history_db_path: self.history_db_path.clone(),
            history_retention_days: self.history_retention_days,
            history_max_entries: self.history_max_entries,
            desktop_notifications_enabled: self.desktop_notifications_enabled,
            notification_timeout_seconds: self.notification_timeout_seconds,
            notification_min_severity: self.notification_min_severity,
            mqtt_enabled: self.mqtt_enabled,
            mqtt_broker_url: self.mqtt_broker_url.clone(),
            mqtt_client_id: self.mqtt_client_id.clone(),
            mqtt_topic_prefix: self.mqtt_topic_prefix.clone(),
            mqtt_qos: self.mqtt_qos,
            web_dashboard_enabled: self.web_dashboard_enabled,
            web_dashboard_port: self.web_dashboard_port,
            web_dashboard_host: self.web_dashboard_host.clone(),
        }
    }
}

impl Default for Phase9Config {
    /// Stock sink configuration: history on with a month of retention,
    /// the outward-facing sinks off.
    fn default() -> (r: Self)
        ensures
            r.history_enabled,
            r.history_db_path@ == "~/.hamclock/alerts.db"@,
            r.history_retention_days == 30,
            r.history_max_entries == 10000,
            !r.desktop_notifications_enabled,
            r.notification_timeout_seconds == 10,
            r.notification_min_severity == AlertSeverity::Warning,
            !r.mqtt_enabled,
            r.mqtt_broker_url@ == "mqtt://localhost:1883"@,
            r.mqtt_client_id@ == "hamclock"@,
            r.mqtt_topic_prefix@ == "hamclock/alerts"@,
            r.mqtt_qos == 1,
            !r.web_dashboard_enabled,
            r.web_dashboard_port == 8080,
            r.web_dashboard_host@ == "127.0.0.1"@,
    {
        Phase9Config {
            history_enabled: true,
            history_db_path: "~/.hamclock/alerts.db".to_owned(),
            history_retention_days: 30,
            history_max_entries: 10000,
            desktop_notifications_enabled: false,
            notification_timeout_seconds: 10,
            notification_min_severity: AlertSeverity::Warning,
            mqtt_enabled: false,
            mqtt_broker_url: "mqtt://localhost:1883".to_owned(),
            mqtt_client_id: "hamclock".to_owned(),
            mqtt_topic_prefix: "hamclock/alerts".to_owned(),
            mqtt_qos: 1,
            web_dashboard_enabled: false,
            web_dashboard_port: 8080,
            web_dashboard_host: "127.0.0.1".to_owned(),
        }
    }
}

} // verus!
