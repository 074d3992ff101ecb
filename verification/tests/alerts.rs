//! Detection-cycle behaviour: rule firing, deduplication, the ledger
//! lifecycle, and end-to-end distribution.

use hamclock::config::AlertConfig;
use hamclock::detector::AlertDetector;
use hamclock::channels::AlertChannels;
use hamclock::history::AlertHistory;
use hamclock::config::Phase9Config;
use hamclock::models::{Alert, AlertSeverity, AlertState, AlertType, AppData, DxSpot, SatelliteData};

fn quiet_config() -> AlertConfig {
    let mut cfg = AlertConfig::default();
    cfg.dx_alerts_enabled = false;
    cfg.satellite_alerts_enabled = false;
    cfg.space_weather_alerts_enabled = false;
    cfg.cme_alerts_enabled = false;
    cfg
}

fn count_of(data: &AppData, ty: AlertType) -> usize {
    data.alert_state.active_alerts.iter().filter(|a| a.alert_type == ty).count()
}

#[test]
fn test_dedup_window_suppresses_same_type() {
    let mut state = AlertState::new();
    let a1 = Alert::new(AlertType::Aurora, AlertSeverity::Notice, "one".to_string(), 600, 1000);
    let a2 = Alert::new(AlertType::Aurora, AlertSeverity::Notice, "two".to_string(), 600, 1200);
    let a3 = Alert::new(AlertType::KpSpike, AlertSeverity::Notice, "three".to_string(), 600, 1200);
    let a4 = Alert::new(AlertType::Aurora, AlertSeverity::Notice, "four".to_string(), 600, 1301);
    assert!(state.add_alert(a1));
    // same type, 200 s later, first still active: suppressed
    assert!(!state.add_alert(a2));
    // another type is independent
    assert!(state.add_alert(a3));
    // same type again, 301 s after the first: accepted
    assert!(state.add_alert(a4));
    assert_eq!(state.active_alerts.len(), 3);
    // no two active alerts of one type were created within the window
    for i in 0..state.active_alerts.len() {
        for j in 0..state.active_alerts.len() {
            if i != j && state.active_alerts[i].alert_type == state.active_alerts[j].alert_type {
                let d = state.active_alerts[i].created_at - state.active_alerts[j].created_at;
                assert!(d.abs() >= 300);
            }
        }
    }
}

#[test]
fn test_expired_alert_does_not_block() {
    let mut state = AlertState::new();
    // expires at 1030
    let a1 = Alert::new(AlertType::Cme, AlertSeverity::Notice, "one".to_string(), 30, 1000);
    assert!(state.add_alert(a1));
    // 100 s later, inside the window, but the first has expired
    let a2 = Alert::new(AlertType::Cme, AlertSeverity::Notice, "two".to_string(), 30, 1100);
    assert!(state.add_alert(a2));
    assert_eq!(state.active_alerts.len(), 2);
}

#[test]
fn test_cleanup_expired_removes_expired_and_acknowledged() {
    let mut state = AlertState::new();
    let a1 = Alert::new(AlertType::Cme, AlertSeverity::Notice, "old".to_string(), 30, 1000);
    let a2 = Alert::new(AlertType::Aurora, AlertSeverity::Notice, "live".to_string(), 600, 1000);
    let a3 = Alert::new(AlertType::KpSpike, AlertSeverity::Notice, "acked".to_string(), 600, 1010);
    state.add_alert(a1);
    state.add_alert(a2);
    state.add_alert(a3);
    state.acknowledge_latest();
    state.cleanup_expired(1100);
    assert_eq!(state.active_alerts.len(), 1);
    assert_eq!(state.active_alerts[0].alert_type, AlertType::Aurora);
}

#[test]
fn test_cleanup_idempotent() {
    let mut state = AlertState::new();
    state.add_alert(Alert::new(AlertType::Cme, AlertSeverity::Notice, "a".to_string(), 30, 1000));
    state.add_alert(Alert::new(AlertType::Aurora, AlertSeverity::Notice, "b".to_string(), 600, 1000));
    state.cleanup_expired(1100);
    let first: Vec<String> = state.active_alerts.iter().map(|a| a.id.clone()).collect();
    state.cleanup_expired(1100);
    let second: Vec<String> = state.active_alerts.iter().map(|a| a.id.clone()).collect();
    assert_eq!(first, second);
}

#[test]
fn test_acknowledge_all() {
    let mut state = AlertState::new();
    state.add_alert(Alert::new(AlertType::Cme, AlertSeverity::Notice, "a".to_string(), 600, 1000));
    state.add_alert(Alert::new(AlertType::Aurora, AlertSeverity::Notice, "b".to_string(), 600, 1000));
    state.acknowledge_all();
    assert!(state.active_alerts.iter().all(|a| a.acknowledged));
    state.cleanup_expired(1001);
    assert!(state.active_alerts.is_empty());
}

#[test]
fn test_satellite_pass_fires_once_per_crossing() {
    // elevations 10,20,31,40,25,35 with threshold 30: alerts at 31 and 35
    let mut cfg = quiet_config();
    cfg.satellite_alerts_enabled = true;
    cfg.satellite_elevation_threshold = 30;
    cfg.watched_satellites = vec!["ISS".to_string()];
    let detector = AlertDetector::new(cfg);
    let mut data = AppData::new();
    let mut fired = 0;
    for (i, el) in [10, 20, 31, 40, 25, 35].iter().enumerate() {
        data.satellites = vec![SatelliteData {
            name: "ISS".to_string(),
            elevation: *el,
            azimuth: 180,
            range: 500,
            doppler_shift: 0,
        }];
        let before = data.alert_state.active_alerts.len();
        detector.check_satellite_alerts(&mut data, 1000 + (i as i64) * 400);
        fired += data.alert_state.active_alerts.len() - before;
    }
    assert_eq!(fired, 2);
}

#[test]
fn test_aurora_level_triggered() {
    // Kp 4,6,6,6,3 with threshold 5 yields 3 aurora alerts
    let mut cfg = quiet_config();
    cfg.space_weather_alerts_enabled = true;
    cfg.kp_alert_threshold = 50;
    cfg.kp_spike_threshold = 1000;  // keep the spike rule quiet
    let detector = AlertDetector::new(cfg);
    let mut data = AppData::new();
    let mut fired = 0;
    for (i, kp) in [40, 60, 60, 60, 30].iter().enumerate() {
        data.space_weather.kp = *kp;
        let before = count_of(&data, AlertType::Aurora);
        detector.check_space_weather_alerts(&mut data, 1000 + (i as i64) * 60);
        fired += count_of(&data, AlertType::Aurora) - before;
    }
    assert_eq!(fired, 3);
}

#[test]
fn test_xray_fires_only_on_class_change() {
    // flux classifying B,B,M,M,X,X,M with M and X watched yields 3 alerts
    let mut cfg = quiet_config();
    cfg.space_weather_alerts_enabled = true;
    cfg.kp_alert_threshold = 1000;
    cfg.kp_spike_threshold = 1000;
    cfg.xray_alert_classes = vec!["M".to_string(), "X".to_string()];
    let detector = AlertDetector::new(cfg);
    let mut data = AppData::new();
    let mut fired = 0;
    for (i, flux) in [5, 5, 500, 500, 1500, 1500, 500].iter().enumerate() {
        data.space_weather.kp = 0;
        data.space_weather.flux = *flux;
        data.alert_state.last_flux = *flux;  // keep the CME rule quiet
        let before = count_of(&data, AlertType::XrayFlare);
        detector.check_space_weather_alerts(&mut data, 1000 + (i as i64) * 120);
        fired += count_of(&data, AlertType::XrayFlare) - before;
    }
    assert_eq!(fired, 3);
}

#[test]
fn test_kp_spike_message_and_severity() {
    let mut cfg = quiet_config();
    cfg.space_weather_alerts_enabled = true;
    cfg.kp_alert_threshold = 1000;
    cfg.kp_spike_threshold = 20;
    let detector = AlertDetector::new(cfg);
    let mut data = AppData::new();
    data.alert_state.last_kp = 30;
    data.space_weather.kp = 65;
    detector.check_space_weather_alerts(&mut data, 2000);
    assert_eq!(data.alert_state.active_alerts.len(), 1);
    let alert = &data.alert_state.active_alerts[0];
    assert_eq!(alert.alert_type, AlertType::KpSpike);
    assert_eq!(alert.severity, AlertSeverity::Critical);
    assert_eq!(alert.message, "\u{26a0} Kp SPIKE: 6.5 (+3.5) - ACTIVE");
    assert_eq!(alert.id, "KpSpike-2000");
    assert_eq!(alert.expires_at, 2030);
}

#[test]
fn test_dx_spot_matching_case_insensitive_and_window() {
    let mut cfg = quiet_config();
    cfg.dx_alerts_enabled = true;
    cfg.watched_bands = vec![];
    cfg.watched_modes = vec!["FT8".to_string()];
    cfg.dx_min_frequency = Some(14000);
    cfg.dx_max_frequency = Some(14500);
    let detector = AlertDetector::new(cfg);
    let mut data = AppData::new();
    data.dx_spots = vec![
        // mode matches case-insensitively, frequency inside the window
        DxSpot {
            frequency: 14074,
            callsign: "DL1ABC".to_string(),
            spotter: "W1AW".to_string(),
            mode: "ft8".to_string(),
            time: 1000,
        },
        // outside the frequency window
        DxSpot {
            frequency: 7074,
            callsign: "JA1XYZ".to_string(),
            spotter: "W1AW".to_string(),
            mode: "FT8".to_string(),
            time: 1000,
        },
    ];
    detector.check_dx_alerts(&mut data, 1000);
    assert_eq!(data.alert_state.active_alerts.len(), 1);
    assert_eq!(
        data.alert_state.active_alerts[0].message,
        "NEW DX: 14.074 MHz ft8 DL1ABC by W1AW"
    );
    assert_eq!(data.alert_state.last_dx_spots, vec!["DL1ABC".to_string()]);
    // the same callsign is not alerted twice
    detector.check_dx_alerts(&mut data, 1400);
    assert_eq!(data.alert_state.active_alerts.len(), 1);
}

#[test]
fn test_dx_history_trimmed_in_batch() {
    let mut cfg = quiet_config();
    cfg.dx_alerts_enabled = true;
    cfg.watched_bands = vec![14074];
    let detector = AlertDetector::new(cfg);
    let mut data = AppData::new();
    for i in 0..100 {
        data.alert_state.last_dx_spots.push(format!("CALL{}", i));
    }
    data.dx_spots = vec![DxSpot {
        frequency: 14074,
        callsign: "NEW1".to_string(),
        spotter: "W1AW".to_string(),
        mode: "CW".to_string(),
        time: 1000,
    }];
    detector.check_dx_alerts(&mut data, 1000);
    // 101 entries exceeded 100, so the oldest 50 were dropped
    assert_eq!(data.alert_state.last_dx_spots.len(), 51);
    assert_eq!(data.alert_state.last_dx_spots[0], "CALL50");
    assert_eq!(data.alert_state.last_dx_spots[50], "NEW1");
}

#[test]
fn test_satellite_messages() {
    let mut cfg = quiet_config();
    cfg.satellite_alerts_enabled = true;
    cfg.satellite_elevation_threshold = 30;
    cfg.watched_satellites = vec!["ISS".to_string()];
    cfg.satellite_countdown_enabled = true;
    let detector = AlertDetector::new(cfg);
    let mut data = AppData::new();
    data.satellites = vec![SatelliteData {
        name: "ISS".to_string(),
        elevation: 31,
        azimuth: 135,
        range: 500,
        doppler_shift: 0,
    }];
    detector.check_satellite_alerts(&mut data, 1000);
    assert_eq!(data.alert_state.active_alerts.len(), 1);
    assert_eq!(
        data.alert_state.active_alerts[0].message,
        "ISS PASS: El 31\u{b0} Az 135\u{b0} (6 min to peak)"
    );

    let mut cfg2 = quiet_config();
    cfg2.satellite_alerts_enabled = true;
    cfg2.satellite_elevation_threshold = 30;
    cfg2.watched_satellites = vec![];
    cfg2.satellite_countdown_enabled = false;
    let detector2 = AlertDetector::new(cfg2);
    let mut data2 = AppData::new();
    data2.satellites = vec![SatelliteData {
        name: "SO-50".to_string(),
        elevation: 45,
        azimuth: 90,
        range: 1200,
        doppler_shift: 0,
    }];
    detector2.check_satellite_alerts(&mut data2, 1000);
    assert_eq!(
        data2.alert_state.active_alerts[0].message,
        "SO-50 PASS: El 45\u{b0} Az 90\u{b0} (1200km)"
    );
}

#[test]
fn test_cme_detection_and_baseline_update() {
    let mut cfg = quiet_config();
    cfg.space_weather_alerts_enabled = true;
    cfg.cme_alerts_enabled = true;
    cfg.kp_alert_threshold = 1000;
    cfg.kp_spike_threshold = 1000;
    let detector = AlertDetector::new(cfg);
    let mut data = AppData::new();
    data.space_weather.flux = 30;  // below the X-ray gate
    data.space_weather.ap = 150;
    data.alert_state.last_flux = 10;
    data.alert_state.last_ap = 20;
    detector.check_space_weather_alerts(&mut data, 1000);
    let cme: Vec<&Alert> = data
        .alert_state
        .active_alerts
        .iter()
        .filter(|a| a.alert_type == AlertType::Cme)
        .collect();
    assert_eq!(cme.len(), 1);
    assert_eq!(cme[0].severity, AlertSeverity::Notice);
    assert_eq!(
        cme[0].message,
        "\u{1f30a} CME ALERT: Flux +20 SFU, AP +130 (possible coronal mass ejection)"
    );
    // baselines were updated regardless of firing
    assert_eq!(data.alert_state.last_flux, 30);
    assert_eq!(data.alert_state.last_ap, 150);
}

#[test]
fn test_end_to_end_kp_jump_distributed() {
    // Kp jump 3.0 -> 6.5: one Critical alert, delivered to every sink,
    // durable row with matching id
    let (htx, mut hrx) = tokio::sync::mpsc::channel::<Alert>(8);
    let (ntx, mut nrx) = tokio::sync::mpsc::channel::<Alert>(8);
    let (mtx, mut mrx) = tokio::sync::mpsc::channel::<Alert>(8);
    let (wtx, mut wrx) = tokio::sync::mpsc::channel::<Alert>(8);
    let channels = AlertChannels::new(htx, ntx, mtx, wtx);

    let mut cfg = quiet_config();
    cfg.space_weather_alerts_enabled = true;
    cfg.kp_spike_threshold = 20;
    cfg.kp_alert_threshold = 70;  // keep the aurora rule out of this cycle
    let detector = AlertDetector::new(cfg).with_channels(channels);

    let mut data = AppData::new();
    data.alert_state.last_kp = 30;
    data.space_weather.kp = 65;
    detector.detect_alerts(&mut data, 1700000000);

    assert_eq!(data.alert_state.active_alerts.len(), 1);
    let alert = &data.alert_state.active_alerts[0];
    assert_eq!(alert.severity, AlertSeverity::Critical);
    assert!(alert.message.contains("6.5"));

    let h = hrx.try_recv().expect("history sink got the alert");
    let n = nrx.try_recv().expect("notification sink got the alert");
    let m = mrx.try_recv().expect("broker sink got the alert");
    let w = wrx.try_recv().expect("live sink got the alert");
    assert_eq!(h.id, alert.id);
    assert_eq!(n.id, alert.id);
    assert_eq!(m.id, alert.id);
    assert_eq!(w.id, alert.id);
    // exactly once per sink
    assert!(hrx.try_recv().is_err());
    assert!(nrx.try_recv().is_err());
    assert!(mrx.try_recv().is_err());
    assert!(wrx.try_recv().is_err());

    // the durable store holds the row under the same id
    let mut history = AlertHistory::new(&Phase9Config::default());
    history.insert_alert(&h).expect("stored");
    assert_eq!(history.get_count(), 1);
    assert_eq!(history.records[0].id, alert.id);
    assert_eq!(history.records[0].severity, "Critical");
}

#[test]
fn test_disabled_rules_do_nothing() {
    let detector = AlertDetector::new(quiet_config());
    let mut data = AppData::new();
    data.space_weather.kp = 90;
    data.space_weather.flux = 2000;
    detector.detect_alerts(&mut data, 1000);
    assert!(data.alert_state.active_alerts.is_empty());
    // last-seen values are untouched while the rules are off
    assert_eq!(data.alert_state.last_kp, 0);
    assert_eq!(data.alert_state.last_flux, 0);
}

#[test]
fn test_aurora_message_and_escalation() {
    let mut cfg = quiet_config();
    cfg.space_weather_alerts_enabled = true;
    cfg.kp_alert_threshold = 50;
    cfg.kp_spike_threshold = 1000;
    let detector = AlertDetector::new(cfg);

    let mut data = AppData::new();
    data.space_weather.kp = 65;
    detector.check_space_weather_alerts(&mut data, 1000);
    let aurora = &data.alert_state.active_alerts[0];
    assert_eq!(aurora.alert_type, AlertType::Aurora);
    assert_eq!(aurora.severity, AlertSeverity::Warning);
    assert_eq!(aurora.message, "\u{1f30c} AURORA LIKELY: Kp 6.5");

    // at Kp 8.0 the aurora alert escalates to Critical
    let mut data = AppData::new();
    data.space_weather.kp = 80;
    detector.check_space_weather_alerts(&mut data, 1000);
    assert_eq!(data.alert_state.active_alerts[0].severity, AlertSeverity::Critical);
}

#[test]
fn test_kp_spike_emergency_at_eight() {
    let mut cfg = quiet_config();
    cfg.space_weather_alerts_enabled = true;
    cfg.kp_alert_threshold = 1000;
    cfg.kp_spike_threshold = 20;
    let detector = AlertDetector::new(cfg);
    let mut data = AppData::new();
    data.alert_state.last_kp = 50;
    data.space_weather.kp = 82;
    detector.check_space_weather_alerts(&mut data, 1000);
    let alert = &data.alert_state.active_alerts[0];
    assert_eq!(alert.severity, AlertSeverity::Emergency);
    assert!(alert.message.ends_with("STORM"));
}

#[test]
fn test_xray_message_and_severity() {
    let mut cfg = quiet_config();
    cfg.space_weather_alerts_enabled = true;
    cfg.kp_alert_threshold = 1000;
    cfg.kp_spike_threshold = 1000;
    let detector = AlertDetector::new(cfg);
    let mut data = AppData::new();
    data.space_weather.flux = 500;
    data.alert_state.last_flux = 500;
    detector.check_space_weather_alerts(&mut data, 1000);
    let alert = &data.alert_state.active_alerts[0];
    assert_eq!(alert.alert_type, AlertType::XrayFlare);
    assert_eq!(alert.severity, AlertSeverity::Warning);
    assert_eq!(alert.message, "\u{2600} SOLAR FLARE: M class");
}

#[test]
fn test_elevation_tracking() {
    let mut state = AlertState::new();
    let name = "ISS".to_string();
    assert_eq!(state.elevation_for(&name), 0);
    state.set_elevation(&name, 25);
    assert_eq!(state.elevation_for(&name), 25);
    state.set_elevation(&name, 40);
    assert_eq!(state.elevation_for(&name), 40);
    assert_eq!(state.last_satellite_elevations.len(), 1);
    let other = "SO-50".to_string();
    state.set_elevation(&other, 10);
    assert_eq!(state.elevation_for(&name), 40);
    assert_eq!(state.elevation_for(&other), 10);
}

#[test]
fn test_mode_substring_match() {
    let mut cfg = quiet_config();
    cfg.dx_alerts_enabled = true;
    cfg.watched_bands = vec![];
    cfg.watched_modes = vec!["FT8".to_string()];
    let detector = AlertDetector::new(cfg);
    let mut data = AppData::new();
    data.dx_spots = vec![DxSpot {
        frequency: 10136,
        callsign: "VK2AAA".to_string(),
        spotter: "W1AW".to_string(),
        mode: "ssb/ft8".to_string(),  // watched mode occurs inside the text
        time: 1000,
    }];
    detector.check_dx_alerts(&mut data, 1000);
    assert_eq!(data.alert_state.active_alerts.len(), 1);
}
