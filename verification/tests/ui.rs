//! The smaller verified pieces: audio decisions and WAV framing, grid
//! naming, layer management, views, startup bookkeeping, number rendering,
//! and spot-line parsing.

use hamclock::audio::{wav_from_samples, AlertPattern, AudioAlerter};
use hamclock::fetcher::parse_dx_spot;
use hamclock::forecast::BandStatus;
use hamclock::grid::MaidenheadGridRenderer;
use hamclock::layers::{Layer, LayerManager, LayerType};
use hamclock::models::AlertSeverity;
use hamclock::startup::{LazyInitializer, StartupMetrics};
use hamclock::strfmt::{i64_to_string, khz_to_mhz_string, tenths_to_string, u64_to_string};
use hamclock::views::AppView;

#[test]
fn test_audio_alerter_creation() {
    let alerter = AudioAlerter::new(true);
    assert_eq!(alerter.enabled, true);

    let disabled = AudioAlerter::new(false);
    assert_eq!(disabled.enabled, false);
}

#[test]
fn test_audio_pattern_decision() {
    let alerter = AudioAlerter::new(true);
    assert_eq!(alerter.play_alert(AlertSeverity::Critical), Some(AlertPattern::CriticalBeeps));
    assert_eq!(alerter.play_alert(AlertSeverity::Emergency), Some(AlertPattern::EmergencyAlarm));
    assert_eq!(alerter.play_alert(AlertSeverity::Warning), Some(AlertPattern::WarningBeeps));
    assert_eq!(alerter.play_alert(AlertSeverity::Notice), None);
    assert_eq!(alerter.play_alert(AlertSeverity::Info), None);
    let disabled = AudioAlerter::new(false);
    assert_eq!(disabled.play_alert(AlertSeverity::Emergency), None);
}

#[test]
fn test_pattern_tones() {
    assert_eq!(AlertPattern::CriticalBeeps.tones(), vec![(1000, 100), (1000, 100), (1000, 100)]);
    assert_eq!(AlertPattern::EmergencyAlarm.tones(), vec![(800, 3000)]);
    assert_eq!(AlertPattern::WarningBeeps.tones(), vec![(800, 150), (800, 150)]);
}

#[test]
fn test_wav_container() {
    let samples: Vec<i16> = vec![0, 1000, -1000, 32767, -32768];
    let wav = wav_from_samples(&samples, 44100);

    assert_eq!(wav.len(), 44 + samples.len() * 2);
    assert_eq!(&wav[0..4], b"RIFF");
    assert_eq!(&wav[8..12], b"WAVE");
    assert_eq!(&wav[12..16], b"fmt ");
    assert_eq!(&wav[36..40], b"data");
    // chunk sizes are little-endian byte counts
    let data_len = u32::from_le_bytes([wav[40], wav[41], wav[42], wav[43]]);
    assert_eq!(data_len as usize, samples.len() * 2);
    // the first sample after the header, little-endian
    assert_eq!(i16::from_le_bytes([wav[44], wav[45]]), 0);
    assert_eq!(i16::from_le_bytes([wav[46], wav[47]]), 1000);
    assert_eq!(i16::from_le_bytes([wav[48], wav[49]]), -1000);
}

#[test]
fn test_band_status_emoji() {
    assert_eq!(BandStatus::Open.as_emoji(), "\u{2705}");
    assert_eq!(BandStatus::Closed.as_emoji(), "\u{274c}");
    assert_eq!(BandStatus::Excellent.as_emoji(), "\u{2b50}");
}

#[test]
fn test_field_letters() {
    assert_eq!(MaidenheadGridRenderer::field_to_string(0, 0), "AA");
    assert_eq!(MaidenheadGridRenderer::field_to_string(9, 4), "JE");
    assert_eq!(MaidenheadGridRenderer::field_to_string(17, 8), "RI");
    // the indices wrap around their field counts
    assert_eq!(MaidenheadGridRenderer::field_to_string(18, 9), "AA");
}

#[test]
fn test_square_to_string() {
    assert_eq!(MaidenheadGridRenderer::square_to_string(9, 4, 3, 5), "JE35");
}

#[test]
fn test_layer_creation() {
    let layer = Layer::new(LayerType::MufHeatmap);
    assert_eq!(layer.layer_type, LayerType::MufHeatmap);
    assert!(!layer.visible);
    assert_eq!(layer.opacity, 60);
}

#[test]
fn test_layer_toggle() {
    let mut layer = Layer::new(LayerType::Greyline);
    assert!(layer.visible);
    layer.toggle();
    assert!(!layer.visible);
    layer.toggle();
    assert!(layer.visible);
}

#[test]
fn test_layer_opacity_clamping() {
    let mut layer = Layer::new(LayerType::BaseMap);
    layer.set_opacity(150);
    assert_eq!(layer.opacity, 100);
    layer.set_opacity(-50);
    assert_eq!(layer.opacity, 0);
}

#[test]
fn test_layer_manager_default() {
    let manager = LayerManager::new();
    assert_eq!(manager.layers.len(), 8);
    assert!(manager.get_layer(LayerType::BaseMap).unwrap().visible);
    assert!(!manager.get_layer(LayerType::MufHeatmap).unwrap().visible);
}

#[test]
fn test_layer_manager_toggle() {
    let mut manager = LayerManager::new();
    let was_visible = manager.get_layer(LayerType::MufHeatmap).unwrap().visible;
    let is_visible = manager.toggle_layer(LayerType::MufHeatmap);
    assert_eq!(is_visible, !was_visible);
}

#[test]
fn test_keyboard_shortcuts() {
    assert_eq!(LayerType::MufHeatmap.keyboard_shortcut(), '1');
    assert_eq!(LayerType::AuroraOval.keyboard_shortcut(), '2');
    assert_eq!(LayerType::SatelliteFootprint.keyboard_shortcut(), '3');
    assert_eq!(LayerType::GridSquares.keyboard_shortcut(), '4');
}

#[test]
fn test_toggle_by_key() {
    let mut manager = LayerManager::new();
    let result = manager.toggle_by_key('1');
    assert!(result.is_some());
    assert_eq!(result.unwrap(), true);
    assert!(manager.get_layer(LayerType::MufHeatmap).unwrap().visible);
    assert!(manager.toggle_by_key('x').is_none());
}

#[test]
fn test_visible_layers() {
    let mut manager = LayerManager::new();
    manager.toggle_layer(LayerType::MufHeatmap);
    let visible = manager.visible_layers();
    assert_eq!(visible.len(), 4);  // BaseMap, Greyline, MufHeatmap, SatelliteFootprint
}

#[test]
fn test_rendering_order() {
    let manager = LayerManager::new();
    let order = manager.rendering_order();
    assert_eq!(order.len(), 8);
    assert_eq!(order[0], LayerType::BaseMap);
    assert_eq!(order[7], LayerType::AuroraOval);
}

#[test]
fn test_views() {
    assert_eq!(AppView::all().len(), 6);
    assert_eq!(AppView::Clock.name(), "Clock");
    assert_eq!(AppView::PropagationMap.name(), "Propagation Map");
    assert_eq!(AppView::default(), AppView::Clock);
}

#[test]
fn test_startup_metrics() {
    let metrics = StartupMetrics {
        total_time_ms: 150,
        config_load_ms: 50,
        window_create_ms: 20,
        gpu_init_ms: 0,
        data_fetch_ms: 0,
    };

    assert!(metrics.total_time_ms < 200);
    assert!(metrics.config_load_ms < 100);
    let report = metrics.log_summary();
    assert_eq!(report.len(), 9);
    assert!(report[1].contains("Config Load"));
    assert!(report[1].contains("    50ms"));
    assert!(report[6].contains("   150ms"));
}

#[test]
fn test_lazy_initializer() {
    let mut lazy = LazyInitializer::new();
    assert!(!lazy.is_initialized());

    lazy.mark_initialized();
    assert!(lazy.is_initialized());
}

#[test]
fn test_number_rendering() {
    assert_eq!(u64_to_string(0), "0");
    assert_eq!(u64_to_string(1234567890), "1234567890");
    assert_eq!(i64_to_string(-42), "-42");
    assert_eq!(tenths_to_string(65), "6.5");
    assert_eq!(tenths_to_string(-7), "-0.7");
    assert_eq!(tenths_to_string(100), "10.0");
    assert_eq!(khz_to_mhz_string(14074), "14.074");
    assert_eq!(khz_to_mhz_string(7074), "7.074");
    assert_eq!(khz_to_mhz_string(998), "0.998");
}

#[test]
fn test_parse_dx_spot() {
    let line = "DX de W1AW:     14074.0  DL1ABC       CQ SSB                 2359Z";
    let day = 86400;
    let now = 10 * day + 3600;  // some instant during the day
    let spot = parse_dx_spot(line, now).expect("parsed");
    assert_eq!(spot.spotter, "W1AW");
    assert_eq!(spot.frequency, 14074);
    assert_eq!(spot.callsign, "DL1ABC");
    assert_eq!(spot.mode, "SSB");
    assert_eq!(spot.time, 10 * day + 23 * 3600 + 59 * 60);
}

#[test]
fn test_parse_dx_spot_rejects_noise() {
    assert!(parse_dx_spot("WWV de W0MU <18Z> :   SFI=120", 1000).is_none());
    assert!(parse_dx_spot("DX de W1AW: too few", 1000).is_none());
    assert!(
        parse_dx_spot("DX de W1AW:     not-a-freq  DL1ABC   CQ SSB        2359Z", 1000).is_none()
    );
    assert!(
        parse_dx_spot("DX de W1AW:     14074.0  DL1ABC       CQ SSB                 9999Z", 1000)
            .is_none()
    );
}
