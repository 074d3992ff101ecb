//! Rule evaluator: turns a telemetry snapshot plus the prior ledger state
//! into zero or more new alerts, updates the last-seen values that the
//! edge-triggered rules compare against, and hands each accepted alert to
//! the distribution router.

use vstd::prelude::*;

use crate::audio::AudioAlerter;
use crate::channels::AlertChannels;
use crate::config::AlertConfig;
use crate::models::{
    spec_alert_id, spec_blocked, Alert, AlertSeverity, AlertState, AlertType, AppData, DxSpot,
    SatelliteData,
    SpaceWeather, XrayClass, MAX_EPOCH_SECONDS,
};
use crate::strfmt::{
    i64_to_string, khz_to_mhz_string, spec_dec, spec_dec_i64, spec_khz_as_mhz, spec_tenths,
    tenths_to_string, u64_to_string,
};

verus! {

/// Severity of a Kp spike alert, escalating with the absolute Kp value
/// (in tenths): 8.0 and up Emergency, 6.0 Critical, 5.0 Warning, else
/// Notice.
pub open spec fn spec_kp_severity(kp: i32) -> AlertSeverity {
    if kp >= 80 {
        AlertSeverity::Emergency
    } else if kp >= 60 {
        AlertSeverity::Critical
    } else if kp >= 50 {
        AlertSeverity::Warning
    } else {
        AlertSeverity::Notice
    }
}

/// Severity of a Kp spike alert.
#[verifier::when_used_as_spec(spec_kp_severity)]
pub fn kp_severity(kp: i32) -> (r: AlertSeverity)
    ensures
        r == spec_kp_severity(kp),
{
    if kp >= 80 {
        AlertSeverity::Emergency
    } else if kp >= 60 {
        AlertSeverity::Critical
    } else if kp >= 50 {
        AlertSeverity::Warning
    } else {
        AlertSeverity::Notice
    }
}

/// Geomagnetic status word for a Kp value in tenths.
pub open spec fn spec_kp_status(kp: i32) -> Seq<char> {
    if kp >= 80 {
        "STORM"@
    } else if kp >= 60 {
        "ACTIVE"@
    } else if kp >= 50 {
        "UNSETTLED"@
    } else {
        "QUIET"@
    }
}

/// Geomagnetic status word for a Kp value in tenths.
pub fn kp_status(kp: i32) -> (r: &'static str)
    ensures
        r@ == spec_kp_status(kp),
{
    if kp >= 80 {
        "STORM"
    } else if kp >= 60 {
        "ACTIVE"
    } else if kp >= 50 {
        "UNSETTLED"
    } else {
        "QUIET"
    }
}

/// Severity of an aurora alert for a Kp value in tenths.
pub open spec fn spec_aurora_severity(kp: i32) -> AlertSeverity {
    if kp >= 80 {
        AlertSeverity::Critical
    } else if kp >= 60 {
        AlertSeverity::Warning
    } else if kp >= 50 {
        AlertSeverity::Notice
    } else {
        AlertSeverity::Info
    }
}

/// Severity of an aurora alert.
#[verifier::when_used_as_spec(spec_aurora_severity)]
pub fn aurora_severity(kp: i32) -> (r: AlertSeverity)
    ensures
        r == spec_aurora_severity(kp),
{
    if kp >= 80 {
        AlertSeverity::Critical
    } else if kp >= 60 {
        AlertSeverity::Warning
    } else if kp >= 50 {
        AlertSeverity::Notice
    } else {
        AlertSeverity::Info
    }
}

/// X-ray classification of a solar flux value: above 1000 X, above 100 M,
/// above 10 C, else B.
pub open spec fn spec_xray_class(flux: i32) -> XrayClass {
    if flux > 1000 {
        XrayClass::X
    } else if flux > 100 {
        XrayClass::M
    } else if flux > 10 {
        XrayClass::C
    } else {
        XrayClass::B
    }
}

/// X-ray classification of a solar flux value.
#[verifier::when_used_as_spec(spec_xray_class)]
pub fn xray_class_of(flux: i32) -> (r: XrayClass)
    ensures
        r == spec_xray_class(flux),
{
    if flux > 1000 {
        XrayClass::X
    } else if flux > 100 {
        XrayClass::M
    } else if flux > 10 {
        XrayClass::C
    } else {
        XrayClass::B
    }
}

/// Severity of a flare alert: X Critical, M Warning, else Notice.
pub open spec fn spec_xray_severity(class: XrayClass) -> AlertSeverity {
    match class {
        XrayClass::X => AlertSeverity::Critical,
        XrayClass::M => AlertSeverity::Warning,
        XrayClass::C => AlertSeverity::Notice,
        XrayClass::B => AlertSeverity::Notice,
    }
}

/// Severity of a flare alert.
#[verifier::when_used_as_spec(spec_xray_severity)]
pub fn xray_severity(class: XrayClass) -> (r: AlertSeverity)
    ensures
        r == spec_xray_severity(class),
{
    match class {
        XrayClass::X => AlertSeverity::Critical,
        XrayClass::M => AlertSeverity::Warning,
        XrayClass::C => AlertSeverity::Notice,
        XrayClass::B => AlertSeverity::Notice,
    }
}

/// Severity of a CME alert, scaling with the magnitude of either delta.
pub open spec fn spec_cme_severity(flux_change: i64, ap_change: i64) -> AlertSeverity {
    if flux_change > 500 || ap_change > 200 {
        AlertSeverity::Critical
    } else if flux_change > 350 || ap_change > 150 {
        AlertSeverity::Warning
    } else {
        AlertSeverity::Notice
    }
}

/// Severity of a CME alert.
#[verifier::when_used_as_spec(spec_cme_severity)]
pub fn cme_severity(flux_change: i64, ap_change: i64) -> (r: AlertSeverity)
    ensures
        r == spec_cme_severity(flux_change, ap_change),
{
    if flux_change > 500 || ap_change > 200 {
        AlertSeverity::Critical
    } else if flux_change > 350 || ap_change > 150 {
        AlertSeverity::Warning
    } else {
        AlertSeverity::Notice
    }
}

/// Text of a Kp spike alert: the new Kp, the rise, and the status word.
pub open spec fn spec_kp_spike_message(kp: i32, change: int) -> Seq<char> {
    "\u{26a0} Kp SPIKE: "@ + spec_tenths(kp as int) + " (+"@ + spec_tenths(change) + ") - "@
        + spec_kp_status(kp)
}

/// Text of a Kp spike alert.
pub fn kp_spike_message(kp: i32, change: i64) -> (r: String)
    requires
        change > i64::MIN,
    ensures
        r@ == spec_kp_spike_message(kp, change as int),
{
    let mut r = "\u{26a0} Kp SPIKE: ".to_owned();
    r.append(tenths_to_string(kp as i64).as_str());
    r.append(" (+");
    r.append(tenths_to_string(change).as_str());
    r.append(") - ");
    r.append(kp_status(kp));
    proof {
        assert(r@ =~= spec_kp_spike_message(kp, change as int));
    }
    r
}

/// Text of an aurora alert: the Kp value that makes aurora likely.
pub open spec fn spec_aurora_message(kp: i32) -> Seq<char> {
    "\u{1f30c} AURORA LIKELY: Kp "@ + spec_tenths(kp as int)
}

/// Text of an aurora alert.
pub fn aurora_message(kp: i32) -> (r: String)
    ensures
        r@ == spec_aurora_message(kp),
{
    let mut r = "\u{1f30c} AURORA LIKELY: Kp ".to_owned();
    r.append(tenths_to_string(kp as i64).as_str());
    proof {
        assert(r@ =~= spec_aurora_message(kp));
    }
    r
}

/// Text of a solar flare alert: the classification letter.
pub open spec fn spec_xray_message(class: XrayClass) -> Seq<char> {
    "\u{2600} SOLAR FLARE: "@ + class.spec_tag() + " class"@
}

/// Text of a solar flare alert.
pub fn xray_message(class: XrayClass) -> (r: String)
    ensures
        r@ == spec_xray_message(class),
{
    let mut r = "\u{2600} SOLAR FLARE: ".to_owned();
    r.append(class.tag());
    r.append(" class");
    proof {
        assert(r@ =~= spec_xray_message(class));
    }
    r
}

/// Text of a CME alert: both absolute deltas.
pub open spec fn spec_cme_message(flux_change: i64, ap_change: i64) -> Seq<char> {
    "\u{1f30a} CME ALERT: Flux +"@ + spec_dec(flux_change as nat) + " SFU, AP +"@ + spec_dec(
        ap_change as nat,
    ) + " (possible coronal mass ejection)"@
}

/// Text of a CME alert.
pub fn cme_message(flux_change: i64, ap_change: i64) -> (r: String)
    requires
        0 <= flux_change,
        0 <= ap_change,
    ensures
        r@ == spec_cme_message(flux_change, ap_change),
{
    let mut r = "\u{1f30a} CME ALERT: Flux +".to_owned();
    r.append(u64_to_string(flux_change as u64).as_str());
    r.append(" SFU, AP +");
    r.append(u64_to_string(ap_change as u64).as_str());
    r.append(" (possible coronal mass ejection)");
    proof {
        assert(r@ =~= spec_cme_message(flux_change, ap_change));
    }
    r
}

/// The candidate alert of a rule, by its fields: type, severity, message,
/// creation at `now`, expiry `dur` seconds later, unacknowledged, and the
/// derived id.
pub open spec fn alert_matches(
    a: Alert,
    ty: AlertType,
    sev: AlertSeverity,
    msg: Seq<char>,
    now: i64,
    dur: int,
) -> bool {
    &&& a.alert_type == ty
    &&& a.severity == sev
    &&& a.message@ == msg
    &&& a.created_at == now
    &&& a.expires_at == now + dur
    &&& !a.acknowledged
    &&& a.id@ == spec_alert_id(ty, now as int)
}

/// The blocking test for `ty` is unchanged by appending alerts of other
/// types: `t` extends `s` and every appended alert has another type.
pub proof fn lemma_blocked_extend(s: Seq<Alert>, t: Seq<Alert>, ty: AlertType, created: i64)
    requires
        s.len() <= t.len(),
        t.take(s.len() as int) == s,
        forall|i: int| s.len() <= i < t.len() ==> (#[trigger] t[i]).alert_type != ty,
    ensures
        spec_blocked(t, ty, created) == spec_blocked(s, ty, created),
{
    if spec_blocked(t, ty, created) {
        let i = choose|i: int| 0 <= i < t.len() && crate::models::dup_blocks(#[trigger] t[i], ty, created);
        assert(i < s.len());
        assert(s[i] == t[i]);
    }
    if spec_blocked(s, ty, created) {
        let i = choose|i: int|
            0 <= i < s.len() && crate::models::dup_blocks(#[trigger] s[i], ty, created);
        assert(t[i] == s[i]);
    }
}

/// Rule evaluator: holds the rule configuration, the audio decision maker,
/// and (once attached) the distribution channels.
pub struct AlertDetector {
    pub config: AlertConfig,
    pub audio_alerter: AudioAlerter,
    pub channels: Option<AlertChannels>,
}

impl AlertDetector {
    /// Build a detector for the given rule configuration, with no
    /// distribution channels attached yet.
    pub fn new(config: AlertConfig) -> (r: Self)
        ensures
            r.config == config,
            r.audio_alerter.enabled == config.audio_alerts_enabled,
            r.channels is None,
    {
        let audio_alerter = AudioAlerter::new(config.audio_alerts_enabled);
        AlertDetector { config, audio_alerter, channels: None }
    }

    /// Attach distribution channels; every subsequently accepted alert is
    /// offered to them.
    pub fn with_channels(self, channels: AlertChannels) -> (r: Self)
        ensures
            r.config == self.config,
            r.audio_alerter == self.audio_alerter,
            r.channels == Some(channels),
    {
        AlertDetector { config: self.config, audio_alerter: self.audio_alerter, channels: Some(channels) }
    }

    /// Sane evaluation instant: non-negative and far enough from the epoch
    /// ceiling for the longest alert lifetime this configuration produces.
    pub open spec fn now_ok(self, now: i64) -> bool {
        &&& 0 <= now
        &&& now + 2 * self.config.alert_duration_seconds <= MAX_EPOCH_SECONDS
    }

    /// Offer an accepted alert to the distribution channels, when attached.
    fn distribute_alert(&self, alert: Alert) {
        if let Some(channels) = &self.channels {
            channels.distribute(alert);
        }
    }

    /// Kp spike rule: fires when Kp rose by at least the spike threshold
    /// since the previous cycle; the last-seen Kp is updated
    /// unconditionally.
    pub fn check_kp_spike(&self, sw_kp: i32, state: &mut AlertState, now: i64)
        requires
            old(state).wf(),
            self.config.wf(),
            self.now_ok(now),
        ensures
            final(state).wf(),
            ({
                let s0 = old(state).active_alerts@;
                let dur = self.config.alert_duration_seconds as int;
                let hit = sw_kp - old(state).last_kp >= self.config.kp_spike_threshold
                    && !spec_blocked(s0, AlertType::KpSpike, now);
                &&& final(state).last_kp == sw_kp
                &&& hit ==> final(state).active_alerts@.len() == s0.len() + 1
                    && final(state).active_alerts@.take(s0.len() as int) == s0 && alert_matches(
                    final(state).active_alerts@.last(),
                    AlertType::KpSpike,
                    spec_kp_severity(sw_kp),
                    spec_kp_spike_message(sw_kp, sw_kp - old(state).last_kp),
                    now,
                    dur,
                )
                &&& !hit ==> final(state).active_alerts@ == s0
            }),
            final(state).last_dx_spots == old(state).last_dx_spots,
            final(state).last_satellite_elevations == old(state).last_satellite_elevations,
            final(state).last_xray_class == old(state).last_xray_class,
            final(state).last_flux == old(state).last_flux,
            final(state).last_ap == old(state).last_ap,
    {
        let ghost s0 = state.active_alerts@;
        let change: i64 = sw_kp as i64 - state.last_kp as i64;
        if change >= self.config.kp_spike_threshold as i64 {
            let severity = kp_severity(sw_kp);
            let message = kp_spike_message(sw_kp, change);
            let alert = Alert::new(
                AlertType::KpSpike,
                severity,
                message,
                self.config.alert_duration_seconds,
                now,
            );
            let accepted = state.add_alert(alert.clone());
            if accepted {
                self.audio_alerter.play_alert(severity);
                self.distribute_alert(alert);
            }
            proof {
                if accepted {
                    assert(state.active_alerts@.take(s0.len() as int) =~= s0);
                }
            }
        }
        state.last_kp = sw_kp;
    }

    /// X-ray flare rule: evaluated only while the flux is meaningful
    /// (above 50 SFU); fires on a change of classification into a watched
    /// class; the recorded classification is updated whenever evaluated.
    pub fn check_xray(&self, sw_flux: i32, state: &mut AlertState, now: i64)
        requires
            old(state).wf(),
            self.config.wf(),
            self.now_ok(now),
        ensures
            final(state).wf(),
            ({
                let s0 = old(state).active_alerts@;
                let dur = self.config.alert_duration_seconds as int;
                let cls = spec_xray_class(sw_flux);
                let hit = sw_flux > 50 && old(state).last_xray_class != Some(cls)
                    && crate::textops::spec_contains_string(
                    self.config.xray_alert_classes@,
                    cls.spec_tag(),
                ) && !spec_blocked(s0, AlertType::XrayFlare, now);
                &&& final(state).last_xray_class == if sw_flux > 50 {
                    Some(cls)
                } else {
                    old(state).last_xray_class
                }
                &&& hit ==> final(state).active_alerts@.len() == s0.len() + 1
                    && final(state).active_alerts@.take(s0.len() as int) == s0 && alert_matches(
                    final(state).active_alerts@.last(),
                    AlertType::XrayFlare,
                    spec_xray_severity(cls),
                    spec_xray_message(cls),
                    now,
                    dur,
                )
                &&& !hit ==> final(state).active_alerts@ == s0
            }),
            final(state).last_kp == old(state).last_kp,
            final(state).last_dx_spots == old(state).last_dx_spots,
            final(state).last_satellite_elevations == old(state).last_satellite_elevations,
            final(state).last_flux == old(state).last_flux,
            final(state).last_ap == old(state).last_ap,
    {
        let ghost s0 = state.active_alerts@;
        if sw_flux > 50 {
            let cls = xray_class_of(sw_flux);
            let changed = match state.last_xray_class {
                None => true,
                Some(c) => !(c == cls),
            };
            if changed {
                let tag_string = cls.tag().to_owned();
                if crate::textops::contains_string(&self.config.xray_alert_classes, &tag_string) {
                    let severity = xray_severity(cls);
                    let message = xray_message(cls);
                    let alert = Alert::new(
                        AlertType::XrayFlare,
                        severity,
                        message,
                        self.config.alert_duration_seconds,
                        now,
                    );
                    let accepted = state.add_alert(alert.clone());
                    if accepted {
                        self.audio_alerter.play_alert(severity);
                        self.distribute_alert(alert);
                    }
                    proof {
                        if accepted {
                            assert(state.active_alerts@.take(s0.len() as int) =~= s0);
                        }
                    }
                }
            }
            state.last_xray_class = Some(cls);
        }
    }

    /// Aurora rule, level-triggered on purpose: fires in every cycle whose
    /// Kp is at or above the alert threshold (the dedup window still
    /// suppresses re-fires within it).
    pub fn check_aurora(&self, sw_kp: i32, state: &mut AlertState, now: i64)
        requires
            old(state).wf(),
            self.config.wf(),
            self.now_ok(now),
        ensures
            final(state).wf(),
            ({
                let s0 = old(state).active_alerts@;
                let dur = self.config.alert_duration_seconds as int;
                let hit = sw_kp >= self.config.kp_alert_threshold && !spec_blocked(
                    s0,
                    AlertType::Aurora,
                    now,
                );
                &&& hit ==> final(state).active_alerts@.len() == s0.len() + 1
                    && final(state).active_alerts@.take(s0.len() as int) == s0 && alert_matches(
                    final(state).active_alerts@.last(),
                    AlertType::Aurora,
                    spec_aurora_severity(sw_kp),
                    spec_aurora_message(sw_kp),
                    now,
                    dur,
                )
                &&& !hit ==> final(state).active_alerts@ == s0
            }),
            final(state).last_kp == old(state).last_kp,
            final(state).last_dx_spots == old(state).last_dx_spots,
            final(state).last_satellite_elevations == old(state).last_satellite_elevations,
            final(state).last_xray_class == old(state).last_xray_class,
            final(state).last_flux == old(state).last_flux,
            final(state).last_ap == old(state).last_ap,
    {
        let ghost s0 = state.active_alerts@;
        if sw_kp >= self.config.kp_alert_threshold {
            let severity = aurora_severity(sw_kp);
            let message = aurora_message(sw_kp);
            let alert = Alert::new(
                AlertType::Aurora,
                severity,
                message,
                self.config.alert_duration_seconds,
                now,
            );
            let accepted = state.add_alert(alert.clone());
            if accepted {
                self.audio_alerter.play_alert(severity);
                self.distribute_alert(alert);
            }
            proof {
                if accepted {
                    assert(state.active_alerts@.take(s0.len() as int) =~= s0);
                }
            }
        }
    }

    /// CME rule: fires when the flux moved by more than 200 SFU or the Ap
    /// index by more than 100 since the previous cycle; both baselines are
    /// updated whenever the rule is enabled, whether or not it fired. A CME
    /// alert lasts twice the configured duration.
    pub fn check_cme(&self, sw_flux: i32, sw_ap: i32, state: &mut AlertState, now: i64)
        requires
            old(state).wf(),
            self.config.wf(),
            self.now_ok(now),
        ensures
            final(state).wf(),
            ({
                let s0 = old(state).active_alerts@;
                let dur = self.config.alert_duration_seconds as int;
                let fd = (if sw_flux >= old(state).last_flux {
                    sw_flux - old(state).last_flux
                } else {
                    old(state).last_flux - sw_flux
                }) as i64;
                let ad = (if sw_ap >= old(state).last_ap {
                    sw_ap - old(state).last_ap
                } else {
                    old(state).last_ap - sw_ap
                }) as i64;
                let hit = self.config.cme_alerts_enabled && (fd > 200 || ad > 100)
                    && !spec_blocked(s0, AlertType::Cme, now);
                &&& final(state).last_flux == if self.config.cme_alerts_enabled {
                    sw_flux
                } else {
                    old(state).last_flux
                }
                &&& final(state).last_ap == if self.config.cme_alerts_enabled {
                    sw_ap
                } else {
                    old(state).last_ap
                }
                &&& hit ==> final(state).active_alerts@.len() == s0.len() + 1
                    && final(state).active_alerts@.take(s0.len() as int) == s0 && alert_matches(
                    final(state).active_alerts@.last(),
                    AlertType::Cme,
                    spec_cme_severity(fd, ad),
                    spec_cme_message(fd, ad),
                    now,
                    2 * dur,
                )
                &&& !hit ==> final(state).active_alerts@ == s0
            }),
            final(state).last_kp == old(state).last_kp,
            final(state).last_dx_spots == old(state).last_dx_spots,
            final(state).last_satellite_elevations == old(state).last_satellite_elevations,
            final(state).last_xray_class == old(state).last_xray_class,
    {
        let ghost s0 = state.active_alerts@;
        if self.config.cme_alerts_enabled {
            let flux_change: i64 = if sw_flux >= state.last_flux {
                sw_flux as i64 - state.last_flux as i64
            } else {
                state.last_flux as i64 - sw_flux as i64
            };
            let ap_change: i64 = if sw_ap >= state.last_ap {
                sw_ap as i64 - state.last_ap as i64
            } else {
                state.last_ap as i64 - sw_ap as i64
            };
            if flux_change > 200 || ap_change > 100 {
                let severity = cme_severity(flux_change, ap_change);
                let message = cme_message(flux_change, ap_change);
                let alert = Alert::new(
                    AlertType::Cme,
                    severity,
                    message,
                    2 * self.config.alert_duration_seconds,
                    now,
                );
                let accepted = state.add_alert(alert.clone());
                if accepted {
                    self.audio_alerter.play_alert(severity);
                    self.distribute_alert(alert);
                }
                proof {
                    if accepted {
                        assert(state.active_alerts@.take(s0.len() as int) =~= s0);
                    }
                }
            }
            state.last_flux = sw_flux;
            state.last_ap = sw_ap;
        }
    }
}

impl Clone for AlertDetector {
    fn clone(&self) -> (r: Self)
        ensures
            r.config.alert_duration_seconds == self.config.alert_duration_seconds,
            r.audio_alerter == self.audio_alerter,
    {
        AlertDetector {
            config: self.config.clone(),
            audio_alerter: self.audio_alerter,
            channels: match &self.channels {
                Some(c) => Some(c.clone()),
                None => None,
            },
        }
    }
}

/// One space-weather evaluation: the four rules in order (Kp spike, X-ray
/// flare, aurora, CME), each appending at most one accepted alert, with
/// every last-seen baseline updated as its rule prescribes. All firing
/// conditions and dedup tests are stated against the incoming state: the
/// four alert types are distinct, so the rules cannot block each other
/// within one cycle.
pub open spec fn spec_sw_check(
    cfg: AlertConfig,
    sw: SpaceWeather,
    st0: AlertState,
    st1: AlertState,
    now: i64,
) -> bool {
    let s0 = st0.active_alerts@;
    let dur = cfg.alert_duration_seconds as int;
    let hk = sw.kp - st0.last_kp >= cfg.kp_spike_threshold && !spec_blocked(
        s0,
        AlertType::KpSpike,
        now,
    );
    let cls = spec_xray_class(sw.flux);
    let hx = sw.flux > 50 && st0.last_xray_class != Some(cls)
        && crate::textops::spec_contains_string(cfg.xray_alert_classes@, cls.spec_tag())
        && !spec_blocked(s0, AlertType::XrayFlare, now);
    let ha = sw.kp >= cfg.kp_alert_threshold && !spec_blocked(s0, AlertType::Aurora, now);
    let fd = (if sw.flux >= st0.last_flux {
        sw.flux - st0.last_flux
    } else {
        st0.last_flux - sw.flux
    }) as i64;
    let ad = (if sw.ap >= st0.last_ap {
        sw.ap - st0.last_ap
    } else {
        st0.last_ap - sw.ap
    }) as i64;
    let hc = cfg.cme_alerts_enabled && (fd > 200 || ad > 100) && !spec_blocked(
        s0,
        AlertType::Cme,
        now,
    );
    let nk: int = if hk { 1 } else { 0 };
    let nx: int = if hx { 1 } else { 0 };
    let na: int = if ha { 1 } else { 0 };
    let nc: int = if hc { 1 } else { 0 };
    &&& st1.last_kp == sw.kp
    &&& st1.last_xray_class == (if sw.flux > 50 { Some(cls) } else { st0.last_xray_class })
    &&& st1.last_flux == (if cfg.cme_alerts_enabled { sw.flux } else { st0.last_flux })
    &&& st1.last_ap == (if cfg.cme_alerts_enabled { sw.ap } else { st0.last_ap })
    &&& st1.last_dx_spots == st0.last_dx_spots
    &&& st1.last_satellite_elevations == st0.last_satellite_elevations
    &&& st1.active_alerts@.len() == s0.len() + nk + nx + na + nc
    &&& st1.active_alerts@.take(s0.len() as int) == s0
    &&& (hk ==> alert_matches(
        st1.active_alerts@[s0.len() as int],
        AlertType::KpSpike,
        spec_kp_severity(sw.kp),
        spec_kp_spike_message(sw.kp, sw.kp - st0.last_kp),
        now,
        dur,
    ))
    &&& (hx ==> alert_matches(
        st1.active_alerts@[s0.len() + nk],
        AlertType::XrayFlare,
        spec_xray_severity(cls),
        spec_xray_message(cls),
        now,
        dur,
    ))
    &&& (ha ==> alert_matches(
        st1.active_alerts@[s0.len() + nk + nx],
        AlertType::Aurora,
        spec_aurora_severity(sw.kp),
        spec_aurora_message(sw.kp),
        now,
        dur,
    ))
    &&& (hc ==> alert_matches(
        st1.active_alerts@[s0.len() + nk + nx + na],
        AlertType::Cme,
        spec_cme_severity(fd, ad),
        spec_cme_message(fd, ad),
        now,
        2 * dur,
    ))
}

impl AlertDetector {
    /// Check for space weather events: Kp spike, X-ray flare, aurora and
    /// CME, in that order, against one snapshot.
    pub fn check_space_weather_alerts(&self, app_data: &mut AppData, now: i64)
        requires
            old(app_data).alert_state.wf(),
            self.config.wf(),
            self.now_ok(now),
        ensures
            final(app_data).alert_state.wf(),
            spec_sw_check(
                self.config,
                old(app_data).space_weather,
                old(app_data).alert_state,
                final(app_data).alert_state,
                now,
            ),
            final(app_data).space_weather == old(app_data).space_weather,
            final(app_data).forecast == old(app_data).forecast,
            final(app_data).dx_spots == old(app_data).dx_spots,
            final(app_data).satellites == old(app_data).satellites,
            final(app_data).last_update == old(app_data).last_update,
    {
        let sw_kp = app_data.space_weather.kp;
        let sw_flux = app_data.space_weather.flux;
        let sw_ap = app_data.space_weather.ap;
        let ghost st0 = app_data.alert_state;
        let ghost s0 = st0.active_alerts@;

        self.check_kp_spike(sw_kp, &mut app_data.alert_state, now);
        let ghost st1 = app_data.alert_state;
        proof {
            assert(s0.take(s0.len() as int) =~= s0);
            assert(st1.active_alerts@.take(s0.len() as int) == s0);
            lemma_blocked_extend(s0, st1.active_alerts@, AlertType::XrayFlare, now);
            lemma_blocked_extend(s0, st1.active_alerts@, AlertType::Aurora, now);
            lemma_blocked_extend(s0, st1.active_alerts@, AlertType::Cme, now);
        }

        self.check_xray(sw_flux, &mut app_data.alert_state, now);
        let ghost st2 = app_data.alert_state;
        proof {
            assert(st2.active_alerts@.take(st1.active_alerts@.len() as int)
                == st1.active_alerts@);
            assert(st2.active_alerts@.take(s0.len() as int) =~= s0);
            lemma_blocked_extend(s0, st2.active_alerts@, AlertType::Aurora, now);
            lemma_blocked_extend(s0, st2.active_alerts@, AlertType::Cme, now);
        }

        self.check_aurora(sw_kp, &mut app_data.alert_state, now);
        let ghost st3 = app_data.alert_state;
        proof {
            assert(st3.active_alerts@.take(st2.active_alerts@.len() as int)
                == st2.active_alerts@);
            assert(st3.active_alerts@.take(s0.len() as int) =~= s0);
            lemma_blocked_extend(s0, st3.active_alerts@, AlertType::Cme, now);
        }

        self.check_cme(sw_flux, sw_ap, &mut app_data.alert_state, now);
        proof {
            let st4 = app_data.alert_state;
            assert(st4.active_alerts@.take(st3.active_alerts@.len() as int)
                == st3.active_alerts@);
            assert(st4.active_alerts@.take(s0.len() as int) =~= s0);
            assert(spec_sw_check(self.config, old(app_data).space_weather, st0, st4, now));
        }
    }
}

/// Whether the spot frequency lies within 10 kHz (0.01 MHz) of the band
/// centre, strictly.
pub open spec fn spec_freq_near(band: u64, freq: u64) -> bool {
    -10 < freq - band < 10
}

/// Whether the spot frequency is near some watched band centre.
pub open spec fn spec_band_watched(bands: Seq<u64>, freq: u64) -> bool {
    exists|i: int| 0 <= i < bands.len() && spec_freq_near(#[trigger] bands[i], freq)
}

/// Whether the spot frequency is near some watched band centre.
pub fn band_watched(bands: &Vec<u64>, freq: u64) -> (r: bool)
    ensures
        r == spec_band_watched(bands@, freq),
{
    let mut i: usize = 0;
    #[verifier::loop_isolation(false)]
    while i < bands.len()
        invariant
            0 <= i <= bands@.len(),
            forall|k: int| 0 <= k < i ==> !spec_freq_near(#[trigger] bands@[k], freq),
        decreases bands@.len() - i,
    {
        let band = bands[i];
        let near = if freq >= band {
            freq - band < 10
        } else {
            band - freq < 10
        };
        if near {
            return true;
        }
        i += 1;
    }
    false
}

/// Whether the frequency lies in the optional [min, max] window, each side
/// open when unset.
pub open spec fn spec_freq_in_window(min: Option<u64>, max: Option<u64>, freq: u64) -> bool {
    &&& match min {
        Some(m) => freq >= m,
        None => true,
    }
    &&& match max {
        Some(m) => freq <= m,
        None => true,
    }
}

/// Whether the frequency lies in the optional [min, max] window.
pub fn freq_in_window(min: Option<u64>, max: Option<u64>, freq: u64) -> (r: bool)
    ensures
        r == spec_freq_in_window(min, max, freq),
{
    let lo = match min {
        Some(m) => freq >= m,
        None => true,
    };
    let hi = match max {
        Some(m) => freq <= m,
        None => true,
    };
    lo && hi
}

/// Whether the spot matches the watch rules: near a watched band or of a
/// watched mode, and inside the frequency window.
pub open spec fn spec_spot_matches(cfg: AlertConfig, spot: DxSpot) -> bool {
    &&& spec_band_watched(cfg.watched_bands@, spot.frequency) || crate::textops::spec_mode_watched(
        cfg.watched_modes@,
        spot.mode@,
    )
    &&& spec_freq_in_window(cfg.dx_min_frequency, cfg.dx_max_frequency, spot.frequency)
}

/// Whether the spot produces an alert: its callsign is not in the rolling
/// history and it matches the watch rules.
pub open spec fn spec_dx_fires(cfg: AlertConfig, hist: Seq<String>, spot: DxSpot) -> bool {
    !crate::textops::spec_contains_string(hist, spot.callsign@) && spec_spot_matches(cfg, spot)
}

/// Text of a spot alert: frequency in megahertz, mode, callsign, spotter.
pub open spec fn spec_dx_message(spot: DxSpot) -> Seq<char> {
    "NEW DX: "@ + spec_khz_as_mhz(spot.frequency as nat) + " MHz "@ + spot.mode@ + " "@
        + spot.callsign@ + " by "@ + spot.spotter@
}

/// Text of a spot alert.
pub fn dx_message(spot: &DxSpot) -> (r: String)
    ensures
        r@ == spec_dx_message(*spot),
{
    let mut r = "NEW DX: ".to_owned();
    r.append(khz_to_mhz_string(spot.frequency).as_str());
    r.append(" MHz ");
    r.append(spot.mode.as_str());
    r.append(" ");
    r.append(spot.callsign.as_str());
    r.append(" by ");
    r.append(spot.spotter.as_str());
    proof {
        assert(r@ =~= spec_dx_message(*spot));
    }
    r
}

/// Effect of evaluating one spot against the rules: a firing spot records
/// its callsign in the history, and appends an alert unless the dedup
/// window blocks it; any other spot changes nothing.
pub open spec fn spec_dx_spot_step(
    cfg: AlertConfig,
    spot: DxSpot,
    s0: Seq<Alert>,
    h0: Seq<String>,
    s1: Seq<Alert>,
    h1: Seq<String>,
    now: i64,
) -> bool {
    if spec_dx_fires(cfg, h0, spot) {
        &&& h1 == h0.push(spot.callsign)
        &&& if !spec_blocked(s0, AlertType::DxSpot, now) {
            s1.len() == s0.len() + 1 && s1.take(s0.len() as int) == s0 && alert_matches(
                s1.last(),
                AlertType::DxSpot,
                AlertSeverity::Notice,
                spec_dx_message(spot),
                now,
                cfg.alert_duration_seconds as int,
            )
        } else {
            s1 == s0
        }
    } else {
        s1 == s0 && h1 == h0
    }
}

/// Effect of evaluating a run of spots in order.
pub open spec fn spec_dx_steps(
    cfg: AlertConfig,
    spots: Seq<DxSpot>,
    s0: Seq<Alert>,
    h0: Seq<String>,
    s1: Seq<Alert>,
    h1: Seq<String>,
    now: i64,
) -> bool
    decreases spots.len(),
{
    if spots.len() == 0 {
        s1 == s0 && h1 == h0
    } else {
        exists|sm: Seq<Alert>, hm: Seq<String>|
            {
                &&& #[trigger] spec_dx_spot_step(cfg, spots[0], s0, h0, sm, hm, now)
                &&& spec_dx_steps(cfg, spots.drop_first(), sm, hm, s1, h1, now)
            }
    }
}

/// A run of spots followed by one more spot is the run of all of them.
pub proof fn lemma_dx_steps_snoc(
    cfg: AlertConfig,
    spots: Seq<DxSpot>,
    x: DxSpot,
    s0: Seq<Alert>,
    h0: Seq<String>,
    sm: Seq<Alert>,
    hm: Seq<String>,
    s1: Seq<Alert>,
    h1: Seq<String>,
    now: i64,
)
    requires
        spec_dx_steps(cfg, spots, s0, h0, sm, hm, now),
        spec_dx_spot_step(cfg, x, sm, hm, s1, h1, now),
    ensures
        spec_dx_steps(cfg, spots.push(x), s0, h0, s1, h1, now),
    decreases spots.len(),
{
    let p = spots.push(x);
    if spots.len() == 0 {
        assert(p[0] == x);
        assert(p.drop_first() =~= Seq::<DxSpot>::empty());
        assert(spec_dx_spot_step(cfg, p[0], s0, h0, s1, h1, now));
        assert(spec_dx_steps(cfg, p.drop_first(), s1, h1, s1, h1, now));
    } else {
        let (sa, ha): (Seq<Alert>, Seq<String>) = choose|sa: Seq<Alert>, ha: Seq<String>|
            {
                &&& #[trigger] spec_dx_spot_step(cfg, spots[0], s0, h0, sa, ha, now)
                &&& spec_dx_steps(cfg, spots.drop_first(), sa, ha, sm, hm, now)
            };
        lemma_dx_steps_snoc(cfg, spots.drop_first(), x, sa, ha, sm, hm, s1, h1, now);
        assert(spots.drop_first().push(x) =~= p.drop_first());
        assert(p[0] == spots[0]);
        assert(spec_dx_spot_step(cfg, p[0], s0, h0, sa, ha, now));
        assert(spec_dx_steps(cfg, p.drop_first(), sa, ha, s1, h1, now));
    }
}

/// Effect of one spot-rule pass on the alert system state: the spots are
/// evaluated in order against the rolling callsign history, and the
/// history is trimmed by dropping its oldest half once it exceeds 100
/// entries. Disabled or not, the rule never touches the other state.
pub open spec fn spec_dx_check(
    cfg: AlertConfig,
    spots: Seq<DxSpot>,
    st0: AlertState,
    st1: AlertState,
    now: i64,
) -> bool {
    &&& if cfg.dx_alerts_enabled {
        exists|hm: Seq<String>|
            {
                &&& #[trigger] spec_dx_steps(
                    cfg,
                    spots,
                    st0.active_alerts@,
                    st0.last_dx_spots@,
                    st1.active_alerts@,
                    hm,
                    now,
                )
                &&& st1.last_dx_spots@ == if hm.len() > 100 {
                    hm.skip(50)
                } else {
                    hm
                }
            }
    } else {
        st1.active_alerts@ == st0.active_alerts@ && st1.last_dx_spots@ == st0.last_dx_spots@
    }
    &&& st1.last_kp == st0.last_kp
    &&& st1.last_satellite_elevations == st0.last_satellite_elevations
    &&& st1.last_xray_class == st0.last_xray_class
    &&& st1.last_flux == st0.last_flux
    &&& st1.last_ap == st0.last_ap
}

impl AlertDetector {
    /// Check for new spots matching the watched bands or modes. Every
    /// alerted callsign enters the rolling history; once the history
    /// exceeds 100 entries its oldest 50 are dropped in one batch.
    pub fn check_dx_alerts(&self, app_data: &mut AppData, now: i64)
        requires
            old(app_data).alert_state.wf(),
            self.config.wf(),
            self.now_ok(now),
        ensures
            final(app_data).alert_state.wf(),
            spec_dx_check(
                self.config,
                old(app_data).dx_spots@,
                old(app_data).alert_state,
                final(app_data).alert_state,
                now,
            ),
            final(app_data).space_weather == old(app_data).space_weather,
            final(app_data).forecast == old(app_data).forecast,
            final(app_data).dx_spots == old(app_data).dx_spots,
            final(app_data).satellites == old(app_data).satellites,
            final(app_data).last_update == old(app_data).last_update,
    {
        if !self.config.dx_alerts_enabled {
            return ;
        }
        let ghost spots = app_data.dx_spots@;
        let ghost s0 = app_data.alert_state.active_alerts@;
        let ghost h0 = app_data.alert_state.last_dx_spots@;
        let mut i: usize = 0;
        #[verifier::loop_isolation(false)]
        while i < app_data.dx_spots.len()
            invariant
                0 <= i <= spots.len(),
                app_data.dx_spots == old(app_data).dx_spots,
                app_data.dx_spots@ == spots,
                app_data.alert_state.wf(),
                spec_dx_steps(
                    self.config,
                    spots.take(i as int),
                    s0,
                    h0,
                    app_data.alert_state.active_alerts@,
                    app_data.alert_state.last_dx_spots@,
                    now,
                ),
                app_data.alert_state.last_kp == old(app_data).alert_state.last_kp,
                app_data.alert_state.last_satellite_elevations == old(
                    app_data,
                ).alert_state.last_satellite_elevations,
                app_data.alert_state.last_xray_class == old(app_data).alert_state.last_xray_class,
                app_data.alert_state.last_flux == old(app_data).alert_state.last_flux,
                app_data.alert_state.last_ap == old(app_data).alert_state.last_ap,
                app_data.space_weather == old(app_data).space_weather,
                app_data.forecast == old(app_data).forecast,
                app_data.satellites == old(app_data).satellites,
                app_data.last_update == old(app_data).last_update,
            decreases spots.len() - i,
        {
            let ghost sm = app_data.alert_state.active_alerts@;
            let ghost hm = app_data.alert_state.last_dx_spots@;
            let spot = app_data.dx_spots[i].clone();
            let seen = crate::textops::contains_string(
                &app_data.alert_state.last_dx_spots,
                &spot.callsign,
            );
            if !seen {
                let band_hit = band_watched(&self.config.watched_bands, spot.frequency);
                let mode_hit = crate::textops::mode_watched(
                    &self.config.watched_modes,
                    spot.mode.as_str(),
                );
                let in_window = freq_in_window(
                    self.config.dx_min_frequency,
                    self.config.dx_max_frequency,
                    spot.frequency,
                );
                if (band_hit || mode_hit) && in_window {
                    let message = dx_message(&spot);
                    let alert = Alert::new(
                        AlertType::DxSpot,
                        AlertSeverity::Notice,
                        message,
                        self.config.alert_duration_seconds,
                        now,
                    );
                    let accepted = app_data.alert_state.add_alert(alert.clone());
                    if accepted {
                        self.audio_alerter.play_alert(AlertSeverity::Notice);
                        self.distribute_alert(alert);
                    }
                    app_data.alert_state.last_dx_spots.push(spot.callsign.clone());
                    proof {
                        if accepted {
                            assert(app_data.alert_state.active_alerts@.take(sm.len() as int)
                                =~= sm);
                        }
                    }
                }
            }
            proof {
                assert(spec_dx_spot_step(
                    self.config,
                    spots[i as int],
                    sm,
                    hm,
                    app_data.alert_state.active_alerts@,
                    app_data.alert_state.last_dx_spots@,
                    now,
                ));
                lemma_dx_steps_snoc(
                    self.config,
                    spots.take(i as int),
                    spots[i as int],
                    s0,
                    h0,
                    sm,
                    hm,
                    app_data.alert_state.active_alerts@,
                    app_data.alert_state.last_dx_spots@,
                    now,
                );
                assert(spots.take(i as int).push(spots[i as int]) =~= spots.take(i as int + 1));
            }
            i += 1;
        }
        proof {
            assert(spots.take(spots.len() as int) =~= spots);
        }
        let ghost h_mid = app_data.alert_state.last_dx_spots@;
        if app_data.alert_state.last_dx_spots.len() > 100 {
            let tail = app_data.alert_state.last_dx_spots.split_off(50);
            app_data.alert_state.last_dx_spots = tail;
            proof {
                assert(app_data.alert_state.last_dx_spots@ =~= h_mid.skip(50));
            }
        }
        proof {
            let stf = app_data.alert_state;
            assert(spec_dx_steps(self.config, spots, s0, h0, stf.active_alerts@, h_mid, now));
            assert(stf.last_dx_spots@ == if h_mid.len() > 100 {
                h_mid.skip(50)
            } else {
                h_mid
            });
            assert(spec_dx_check(self.config, spots, old(app_data).alert_state, stf, now));
        }
    }
}

/// Minutes-to-peak estimate for a pass: remaining degrees to overhead,
/// divided by an assumed ten-degrees-a-minute closing rate, rounded, and
/// at least one minute.
pub open spec fn spec_minutes_to_peak(el: int) -> int {
    if 95 - el >= 10 {
        (95 - el) / 10
    } else {
        1
    }
}

/// Text of a satellite pass alert: with the countdown estimate when
/// configured, else with the observed range.
pub open spec fn spec_sat_message(cfg: AlertConfig, sat: SatelliteData) -> Seq<char> {
    if cfg.satellite_countdown_enabled {
        sat.name@ + " PASS: El "@ + spec_dec_i64(sat.elevation as int) + "\u{b0} Az "@
            + spec_dec_i64(sat.azimuth as int) + "\u{b0} ("@ + spec_dec(
            spec_minutes_to_peak(sat.elevation as int) as nat,
        ) + " min to peak)"@
    } else {
        sat.name@ + " PASS: El "@ + spec_dec_i64(sat.elevation as int) + "\u{b0} Az "@
            + spec_dec_i64(sat.azimuth as int) + "\u{b0} ("@ + spec_dec_i64(sat.range as int)
            + "km)"@
    }
}

/// Text of a satellite pass alert.
pub fn sat_message(cfg: &AlertConfig, sat: &SatelliteData) -> (r: String)
    ensures
        r@ == spec_sat_message(*cfg, *sat),
{
    let mut r = sat.name.clone();
    r.append(" PASS: El ");
    r.append(i64_to_string(sat.elevation as i64).as_str());
    r.append("\u{b0} Az ");
    r.append(i64_to_string(sat.azimuth as i64).as_str());
    if cfg.satellite_countdown_enabled {
        r.append("\u{b0} (");
        let d: i64 = 95 - sat.elevation as i64;
        let minutes: i64 = if d >= 10 {
            d / 10
        } else {
            1
        };
        r.append(u64_to_string(minutes as u64).as_str());
        r.append(" min to peak)");
    } else {
        r.append("\u{b0} (");
        r.append(i64_to_string(sat.range as i64).as_str());
        r.append("km)");
    }
    proof {
        assert(r@ =~= spec_sat_message(*cfg, *sat));
    }
    r
}

/// Effect of evaluating one satellite observation: a watched satellite has
/// its elevation recorded, and an alert fires only on the transition from
/// below the threshold to at-or-above it; an unwatched satellite changes
/// nothing.
pub open spec fn spec_sat_step(
    cfg: AlertConfig,
    sat: SatelliteData,
    s0: Seq<Alert>,
    e0: Seq<(String, i32)>,
    s1: Seq<Alert>,
    e1: Seq<(String, i32)>,
    now: i64,
) -> bool {
    if crate::textops::spec_satellite_watched(cfg.watched_satellites@, sat.name@) {
        let prev = crate::models::spec_elev_get(e0, sat.name@);
        &&& e1 == crate::models::spec_elev_set(e0, sat.name, sat.elevation)
        &&& if sat.elevation >= cfg.satellite_elevation_threshold && prev
            < cfg.satellite_elevation_threshold {
            if !spec_blocked(s0, AlertType::SatellitePass, now) {
                s1.len() == s0.len() + 1 && s1.take(s0.len() as int) == s0 && alert_matches(
                    s1.last(),
                    AlertType::SatellitePass,
                    AlertSeverity::Notice,
                    spec_sat_message(cfg, sat),
                    now,
                    2 * cfg.alert_duration_seconds as int,
                )
            } else {
                s1 == s0
            }
        } else {
            s1 == s0
        }
    } else {
        s1 == s0 && e1 == e0
    }
}

/// Effect of evaluating a run of satellite observations in order.
pub open spec fn spec_sat_steps(
    cfg: AlertConfig,
    sats: Seq<SatelliteData>,
    s0: Seq<Alert>,
    e0: Seq<(String, i32)>,
    s1: Seq<Alert>,
    e1: Seq<(String, i32)>,
    now: i64,
) -> bool
    decreases sats.len(),
{
    if sats.len() == 0 {
        s1 == s0 && e1 == e0
    } else {
        exists|sm: Seq<Alert>, em: Seq<(String, i32)>|
            {
                &&& #[trigger] spec_sat_step(cfg, sats[0], s0, e0, sm, em, now)
                &&& spec_sat_steps(cfg, sats.drop_first(), sm, em, s1, e1, now)
            }
    }
}

/// A run of observations followed by one more is the run of all of them.
pub proof fn lemma_sat_steps_snoc(
    cfg: AlertConfig,
    sats: Seq<SatelliteData>,
    x: SatelliteData,
    s0: Seq<Alert>,
    e0: Seq<(String, i32)>,
    sm: Seq<Alert>,
    em: Seq<(String, i32)>,
    s1: Seq<Alert>,
    e1: Seq<(String, i32)>,
    now: i64,
)
    requires
        spec_sat_steps(cfg, sats, s0, e0, sm, em, now),
        spec_sat_step(cfg, x, sm, em, s1, e1, now),
    ensures
        spec_sat_steps(cfg, sats.push(x), s0, e0, s1, e1, now),
    decreases sats.len(),
{
    let p = sats.push(x);
    if sats.len() == 0 {
        assert(p[0] == x);
        assert(p.drop_first() =~= Seq::<SatelliteData>::empty());
        assert(spec_sat_step(cfg, p[0], s0, e0, s1, e1, now));
        assert(spec_sat_steps(cfg, p.drop_first(), s1, e1, s1, e1, now));
    } else {
        let (sa, ea): (Seq<Alert>, Seq<(String, i32)>) = choose|
            sa: Seq<Alert>,
            ea: Seq<(String, i32)>,
        |
            {
                &&& #[trigger] spec_sat_step(cfg, sats[0], s0, e0, sa, ea, now)
                &&& spec_sat_steps(cfg, sats.drop_first(), sa, ea, sm, em, now)
            };
        lemma_sat_steps_snoc(cfg, sats.drop_first(), x, sa, ea, sm, em, s1, e1, now);
        assert(sats.drop_first().push(x) =~= p.drop_first());
        assert(p[0] == sats[0]);
        assert(spec_sat_step(cfg, p[0], s0, e0, sa, ea, now));
        assert(spec_sat_steps(cfg, p.drop_first(), sa, ea, s1, e1, now));
    }
}

/// Effect of one satellite-rule pass on the alert system state. Disabled
/// or not, the rule never touches the other state.
pub open spec fn spec_sat_check(
    cfg: AlertConfig,
    sats: Seq<SatelliteData>,
    st0: AlertState,
    st1: AlertState,
    now: i64,
) -> bool {
    &&& if cfg.satellite_alerts_enabled {
        spec_sat_steps(
            cfg,
            sats,
            st0.active_alerts@,
            st0.last_satellite_elevations@,
            st1.active_alerts@,
            st1.last_satellite_elevations@,
            now,
        )
    } else {
        st1.active_alerts@ == st0.active_alerts@ && st1.last_satellite_elevations@
            == st0.last_satellite_elevations@
    }
    &&& st1.last_kp == st0.last_kp
    &&& st1.last_dx_spots == st0.last_dx_spots
    &&& st1.last_xray_class == st0.last_xray_class
    &&& st1.last_flux == st0.last_flux
    &&& st1.last_ap == st0.last_ap
}

impl AlertDetector {
    /// Check for satellite passes reaching the elevation threshold,
    /// edge-triggered on the recorded previous elevation.
    pub fn check_satellite_alerts(&self, app_data: &mut AppData, now: i64)
        requires
            old(app_data).alert_state.wf(),
            self.config.wf(),
            self.now_ok(now),
        ensures
            final(app_data).alert_state.wf(),
            spec_sat_check(
                self.config,
                old(app_data).satellites@,
                old(app_data).alert_state,
                final(app_data).alert_state,
                now,
            ),
            final(app_data).space_weather == old(app_data).space_weather,
            final(app_data).forecast == old(app_data).forecast,
            final(app_data).dx_spots == old(app_data).dx_spots,
            final(app_data).satellites == old(app_data).satellites,
            final(app_data).last_update == old(app_data).last_update,
    {
        if !self.config.satellite_alerts_enabled {
            return ;
        }
        let ghost sats = app_data.satellites@;
        let ghost s0 = app_data.alert_state.active_alerts@;
        let ghost e0 = app_data.alert_state.last_satellite_elevations@;
        let mut i: usize = 0;
        #[verifier::loop_isolation(false)]
        while i < app_data.satellites.len()
            invariant
                0 <= i <= sats.len(),
                app_data.satellites == old(app_data).satellites,
                app_data.satellites@ == sats,
                app_data.alert_state.wf(),
                spec_sat_steps(
                    self.config,
                    sats.take(i as int),
                    s0,
                    e0,
                    app_data.alert_state.active_alerts@,
                    app_data.alert_state.last_satellite_elevations@,
                    now,
                ),
                app_data.alert_state.last_kp == old(app_data).alert_state.last_kp,
                app_data.alert_state.last_dx_spots == old(app_data).alert_state.last_dx_spots,
                app_data.alert_state.last_xray_class == old(app_data).alert_state.last_xray_class,
                app_data.alert_state.last_flux == old(app_data).alert_state.last_flux,
                app_data.alert_state.last_ap == old(app_data).alert_state.last_ap,
                app_data.space_weather == old(app_data).space_weather,
                app_data.forecast == old(app_data).forecast,
                app_data.dx_spots == old(app_data).dx_spots,
                app_data.last_update == old(app_data).last_update,
            decreases sats.len() - i,
        {
            let ghost sm = app_data.alert_state.active_alerts@;
            let ghost em = app_data.alert_state.last_satellite_elevations@;
            let sat = app_data.satellites[i].clone();
            let watched = crate::textops::satellite_watched(
                &self.config.watched_satellites,
                sat.name.as_str(),
            );
            if watched {
                let prev = app_data.alert_state.elevation_for(&sat.name);
                app_data.alert_state.set_elevation(&sat.name, sat.elevation);
                if sat.elevation >= self.config.satellite_elevation_threshold && prev
                    < self.config.satellite_elevation_threshold {
                    let message = sat_message(&self.config, &sat);
                    let alert = Alert::new(
                        AlertType::SatellitePass,
                        AlertSeverity::Notice,
                        message,
                        2 * self.config.alert_duration_seconds,
                        now,
                    );
                    let accepted = app_data.alert_state.add_alert(alert.clone());
                    if accepted {
                        self.audio_alerter.play_alert(AlertSeverity::Notice);
                        self.distribute_alert(alert);
                    }
                    proof {
                        if accepted {
                            assert(app_data.alert_state.active_alerts@.take(sm.len() as int)
                                =~= sm);
                        }
                    }
                }
            }
            proof {
                assert(spec_sat_step(
                    self.config,
                    sats[i as int],
                    sm,
                    em,
                    app_data.alert_state.active_alerts@,
                    app_data.alert_state.last_satellite_elevations@,
                    now,
                ));
                lemma_sat_steps_snoc(
                    self.config,
                    sats.take(i as int),
                    sats[i as int],
                    s0,
                    e0,
                    sm,
                    em,
                    app_data.alert_state.active_alerts@,
                    app_data.alert_state.last_satellite_elevations@,
                    now,
                );
                assert(sats.take(i as int).push(sats[i as int]) =~= sats.take(i as int + 1));
            }
            i += 1;
        }
        proof {
            assert(sats.take(sats.len() as int) =~= sats);
        }
    }
}

/// Effect of the cleanup pass that opens every cycle: expired and
/// acknowledged alerts leave, everything else is untouched.
pub open spec fn spec_cleaned(st0: AlertState, st1: AlertState, now: i64) -> bool {
    &&& st1.active_alerts@ == crate::models::spec_retained(st0.active_alerts@, now)
    &&& st1.last_kp == st0.last_kp
    &&& st1.last_dx_spots == st0.last_dx_spots
    &&& st1.last_satellite_elevations == st0.last_satellite_elevations
    &&& st1.last_xray_class == st0.last_xray_class
    &&& st1.last_flux == st0.last_flux
    &&& st1.last_ap == st0.last_ap
}

/// Gate of the space-weather pass: the whole pass is a no-op on the state
/// when disabled.
pub open spec fn spec_sw_gate(
    cfg: AlertConfig,
    sw: SpaceWeather,
    st0: AlertState,
    st1: AlertState,
    now: i64,
) -> bool {
    if cfg.space_weather_alerts_enabled {
        spec_sw_check(cfg, sw, st0, st1, now)
    } else {
        st1 == st0
    }
}

impl AlertDetector {
    /// One detection cycle: prune the ledger, then evaluate the enabled
    /// rule groups in order — spots, satellite passes, space weather —
    /// against the snapshot, appending each accepted alert and offering it
    /// to the distribution channels.
    pub fn detect_alerts(&self, app_data: &mut AppData, now: i64)
        requires
            old(app_data).alert_state.wf(),
            self.config.wf(),
            self.now_ok(now),
        ensures
            final(app_data).alert_state.wf(),
            exists|st_c: AlertState|
                {
                    &&& #[trigger] spec_cleaned(old(app_data).alert_state, st_c, now)
                    &&& exists|st_a: AlertState|
                        {
                            &&& #[trigger] spec_dx_check(
                                self.config,
                                old(app_data).dx_spots@,
                                st_c,
                                st_a,
                                now,
                            )
                            &&& exists|st_b: AlertState|
                                {
                                    &&& #[trigger] spec_sat_check(
                                        self.config,
                                        old(app_data).satellites@,
                                        st_a,
                                        st_b,
                                        now,
                                    )
                                    &&& spec_sw_gate(
                                        self.config,
                                        old(app_data).space_weather,
                                        st_b,
                                        final(app_data).alert_state,
                                        now,
                                    )
                                }
                        }
                },
            final(app_data).space_weather == old(app_data).space_weather,
            final(app_data).forecast == old(app_data).forecast,
            final(app_data).dx_spots == old(app_data).dx_spots,
            final(app_data).satellites == old(app_data).satellites,
            final(app_data).last_update == old(app_data).last_update,
    {
        app_data.alert_state.cleanup_expired(now);
        let ghost st_c = app_data.alert_state;

        if self.config.dx_alerts_enabled {
            self.check_dx_alerts(app_data, now);
        }
        let ghost st_a = app_data.alert_state;
        proof {
            assert(spec_dx_check(self.config, old(app_data).dx_spots@, st_c, st_a, now));
        }

        if self.config.satellite_alerts_enabled {
            self.check_satellite_alerts(app_data, now);
        }
        let ghost st_b = app_data.alert_state;
        proof {
            assert(spec_sat_check(self.config, old(app_data).satellites@, st_a, st_b, now));
        }

        if self.config.space_weather_alerts_enabled {
            self.check_space_weather_alerts(app_data, now);
        }
        proof {
            assert(spec_cleaned(old(app_data).alert_state, st_c, now));
            assert(spec_sw_gate(
                self.config,
                old(app_data).space_weather,
                st_b,
                app_data.alert_state,
                now,
            ));
        }
    }
}

} // verus!
