//! Sink-side rules: payload framing, broker URL and topic handling, the
//! notification filter, and the history store's retention policy.

use hamclock::config::Phase9Config;
use hamclock::error::AppError;
use hamclock::history::{retention_cutoff, AlertHistory};
use hamclock::json::{json_escape, mqtt_payload, web_payload};
use hamclock::models::{Alert, AlertSeverity, AlertType};
use hamclock::mqtt::{mqtt_topic, parse_broker_url, qos_from_level, MqttQos};
use hamclock::notifications::{NotificationSender, NotificationUrgency};

fn sample_alert() -> Alert {
    Alert::new(
        AlertType::KpSpike,
        AlertSeverity::Critical,
        "\u{26a0} Kp SPIKE: 6.5 (+3.5) - ACTIVE".to_string(),
        30,
        1700000000,
    )
}

#[test]
fn test_mqtt_payload_is_valid_json() {
    let alert = sample_alert();
    let payload = mqtt_payload(&alert);
    let v: serde_json::Value = serde_json::from_str(&payload).expect("valid JSON");
    assert_eq!(v["id"], serde_json::Value::String(alert.id.clone()));
    assert_eq!(v["type"], serde_json::Value::String("KpSpike".to_string()));
    assert_eq!(v["severity"], serde_json::Value::String("Critical".to_string()));
    assert_eq!(v["message"], serde_json::Value::String(alert.message.clone()));
    let expected_created = chrono::DateTime::<chrono::Utc>::from_timestamp(1700000000, 0)
        .unwrap()
        .to_rfc3339();
    let expected_expires = chrono::DateTime::<chrono::Utc>::from_timestamp(1700000030, 0)
        .unwrap()
        .to_rfc3339();
    assert_eq!(v["created_at"], serde_json::Value::String(expected_created));
    assert_eq!(v["expires_at"], serde_json::Value::String(expected_expires));
}

#[test]
fn test_web_payload_is_valid_json() {
    let alert = sample_alert();
    let payload = web_payload(&alert);
    let v: serde_json::Value = serde_json::from_str(&payload).expect("valid JSON");
    assert_eq!(v["type"], serde_json::Value::String("KpSpike".to_string()));
    assert_eq!(v["severity"], serde_json::Value::String("Critical".to_string()));
    assert!(v.get("id").is_none());
    assert!(v.get("expires_at").is_none());
}

#[test]
fn test_json_escaping_round_trips() {
    let nasty = "quote \" backslash \\ newline \n tab \t bell \u{7} emoji \u{1f30c}";
    let escaped = json_escape(nasty);
    let wrapped = format!("\"{}\"", escaped);
    let back: serde_json::Value = serde_json::from_str(&wrapped).expect("valid JSON string");
    assert_eq!(back, serde_json::Value::String(nasty.to_string()));
}

#[test]
fn test_parse_broker_url_variants() {
    assert_eq!(
        parse_broker_url("mqtt://localhost:1883").unwrap(),
        ("localhost".to_string(), 1883)
    );
    assert_eq!(
        parse_broker_url("mqtt://broker.example.org").unwrap(),
        ("broker.example.org".to_string(), 1883)
    );
    assert_eq!(
        parse_broker_url("mqtts://secure.example.org").unwrap(),
        ("secure.example.org".to_string(), 8883)
    );
    assert_eq!(
        parse_broker_url("mqtts://secure.example.org:9883").unwrap(),
        ("secure.example.org".to_string(), 9883)
    );
}

#[test]
fn test_parse_broker_url_errors() {
    match parse_broker_url("http://example.org") {
        Err(AppError::ConfigError(m)) => {
            assert_eq!(m, "MQTT broker URL must start with mqtt:// or mqtts://");
        },
        other => panic!("unexpected: {:?}", other),
    }
    match parse_broker_url("mqtt://host:notaport") {
        Err(AppError::ConfigError(m)) => assert_eq!(m, "Invalid port number"),
        other => panic!("unexpected: {:?}", other),
    }
    match parse_broker_url("mqtt://host:70000") {
        Err(AppError::ConfigError(m)) => assert_eq!(m, "Invalid port number"),
        other => panic!("unexpected: {:?}", other),
    }
}

#[test]
fn test_qos_and_topic() {
    assert_eq!(qos_from_level(0), MqttQos::AtMostOnce);
    assert_eq!(qos_from_level(1), MqttQos::AtLeastOnce);
    assert_eq!(qos_from_level(2), MqttQos::ExactlyOnce);
    assert_eq!(qos_from_level(7), MqttQos::AtLeastOnce);
    assert_eq!(mqtt_topic("hamclock/alerts", AlertType::Aurora), "hamclock/alerts/Aurora");
}

#[test]
fn test_notification_severity_filter() {
    let sender = NotificationSender::new(Phase9Config::default());  // minimum Warning
    let low = Alert::new(AlertType::DxSpot, AlertSeverity::Notice, "dx".to_string(), 30, 1000);
    assert!(sender.plan_alert(&low).is_none());

    let high = sample_alert();
    let plan = sender.plan_alert(&high).expect("planned");
    assert_eq!(plan.summary, "\u{26a1} Geomagnetic Storm");
    assert_eq!(plan.body, high.message);
    assert_eq!(plan.urgency, NotificationUrgency::Critical);
    assert_eq!(plan.timeout_ms, 10000);

    let warn = Alert::new(AlertType::Aurora, AlertSeverity::Warning, "au".to_string(), 30, 1000);
    let plan = sender.plan_alert(&warn).expect("planned");
    assert_eq!(plan.summary, "\u{1f30c} Aurora Alert");
    assert_eq!(plan.urgency, NotificationUrgency::Normal);
}

#[test]
fn test_history_insert_and_duplicate() {
    let mut history = AlertHistory::new(&Phase9Config::default());
    let alert = sample_alert();
    history.insert_alert(&alert).expect("first insert");
    match history.insert_alert(&alert) {
        Err(AppError::IoError(m)) => assert_eq!(m, "duplicate alert id"),
        other => panic!("unexpected: {:?}", other),
    }
    assert_eq!(history.get_count(), 1);
    assert_eq!(history.records[0].alert_type, "KpSpike");
    assert_eq!(history.records[0].created_at, 1700000000);
    assert_eq!(history.records[0].expires_at, 1700000030);
    assert!(!history.records[0].acknowledged);
}

#[test]
fn test_history_retention() {
    let mut config = Phase9Config::default();
    config.history_retention_days = 1;
    let mut history = AlertHistory::new(&config);
    let day = 86400;
    let old = Alert::new(AlertType::Aurora, AlertSeverity::Notice, "old".to_string(), 30, 1000);
    let fresh = Alert::new(
        AlertType::KpSpike,
        AlertSeverity::Notice,
        "fresh".to_string(),
        30,
        1000 + 2 * day,
    );
    history.insert_alert(&old).unwrap();
    history.insert_alert(&fresh).unwrap();
    assert_eq!(retention_cutoff(1000 + 2 * day, 1), 1000 + day);
    let removed = history.cleanup_old_entries(1000 + 2 * day);
    assert_eq!(removed, 1);
    assert_eq!(history.get_count(), 1);
    assert_eq!(history.records[0].message, "fresh");
}

#[test]
fn test_history_max_entries_keeps_newest() {
    let mut config = Phase9Config::default();
    config.history_max_entries = 2;
    let mut history = AlertHistory::new(&config);
    for (i, ty) in [AlertType::Aurora, AlertType::KpSpike, AlertType::Cme].iter().enumerate() {
        let a = Alert::new(*ty, AlertSeverity::Notice, "x".to_string(), 30, 1000 + (i as i64) * 600);
        history.insert_alert(&a).unwrap();
    }
    history.enforce_max_entries();
    assert_eq!(history.get_count(), 2);
    let kept: Vec<i64> = history.records.iter().map(|r| r.created_at).collect();
    assert!(kept.contains(&1600));
    assert!(kept.contains(&2200));
}

#[test]
fn test_error_messages() {
    let e = AppError::NetworkError("down".to_string());
    assert_eq!(e.message(), "Network error: down");
    let e = AppError::ParseError("bad".to_string());
    assert_eq!(e.message(), "JSON parsing error: bad");
}

#[test]
fn test_remaining_error_messages() {
    assert_eq!(AppError::GpuError("x".to_string()).message(), "GPU error: x");
    assert_eq!(AppError::ConfigError("x".to_string()).message(), "Configuration error: x");
    assert_eq!(AppError::IoError("x".to_string()).message(), "IO error: x");
    assert_eq!(AppError::SerdeError("x".to_string()).message(), "Serialization error: x");
    assert_eq!(AppError::AsyncError("x".to_string()).message(), "Async error: x");
}
