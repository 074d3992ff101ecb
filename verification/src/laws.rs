//! System-wide guarantees of the alert core, stated and proved over the
//! ledger model.

use vstd::prelude::*;

use crate::cache::CacheEntry;
use crate::detector::{
    alert_matches, spec_aurora_message, spec_aurora_severity, spec_sat_step, spec_sw_check,
    spec_xray_class,
};
use crate::models::{
    dedup_compatible, lemma_elev_get_set, spec_blocked, spec_elev_get, spec_retained, Alert,
    AlertState, AlertType, SatelliteData, SpaceWeather,
};
use crate::config::AlertConfig;
use crate::textops::spec_satellite_watched;
use crate::DEDUP_WINDOW_SECONDS;

verus! {

/// Storm-suppression invariant: in a well-formed ledger, no two alerts of
/// the same type that are both active at an instant `now` (already created,
/// not yet expired, not acknowledged) were created within the dedup window
/// of each other.
pub proof fn lemma_no_duplicate_active_alerts(state: AlertState, now: i64, i: int, j: int)
    requires
        state.wf(),
        0 <= i < state.active_alerts@.len(),
        0 <= j < state.active_alerts@.len(),
        i != j,
        state.active_alerts@[i].alert_type == state.active_alerts@[j].alert_type,
        state.active_alerts@[i].spec_is_active(now),
        state.active_alerts@[j].spec_is_active(now),
        state.active_alerts@[i].created_at <= now,
        state.active_alerts@[j].created_at <= now,
    ensures
        state.active_alerts@[j].created_at - state.active_alerts@[i].created_at
            >= DEDUP_WINDOW_SECONDS || state.active_alerts@[i].created_at
            - state.active_alerts@[j].created_at >= DEDUP_WINDOW_SECONDS,
{
    let a = state.active_alerts@[i];
    let b = state.active_alerts@[j];
    assert(dedup_compatible(a, b));
}

/// Every element of a sequence on which the predicate holds everywhere
/// survives filtering unchanged.
proof fn lemma_filter_all_pass<A>(s: Seq<A>, pred: spec_fn(A) -> bool)
    requires
        forall|i: int| 0 <= i < s.len() ==> pred(#[trigger] s[i]),
    ensures
        s.filter(pred) == s,
    decreases s.len(),
{
    reveal(Seq::filter);
    if s.len() > 0 {
        lemma_filter_all_pass(s.drop_last(), pred);
        assert(s.filter(pred) =~= s);
    } else {
        assert(s.filter(pred) =~= s);
    }
}

/// Cleanup idempotence: with no time passing, a second cleanup pass keeps
/// exactly the alerts the first one kept.
pub proof fn lemma_cleanup_idempotent(alerts: Seq<Alert>, now: i64)
    ensures
        spec_retained(spec_retained(alerts, now), now) == spec_retained(alerts, now),
{
    let pred = |a: Alert| a.spec_is_active(now);
    let once = alerts.filter(pred);
    assert forall|i: int| 0 <= i < once.len() implies pred(#[trigger] once[i]) by {
        Seq::lemma_filter_pred(alerts, pred, i);
    }
    lemma_filter_all_pass(once, pred);
}

/// Satellite passes are edge-triggered: after an observation of a watched
/// satellite at or above the elevation threshold, a second observation of
/// the same satellite still at or above the threshold appends no further
/// alert — a pass alerts once per crossing, not once per sample.
pub proof fn lemma_satellite_pass_fires_once(
    cfg: AlertConfig,
    sat1: SatelliteData,
    sat2: SatelliteData,
    s0: Seq<Alert>,
    e0: Seq<(String, i32)>,
    s1: Seq<Alert>,
    e1: Seq<(String, i32)>,
    s2: Seq<Alert>,
    e2: Seq<(String, i32)>,
    now1: i64,
    now2: i64,
)
    requires
        spec_satellite_watched(cfg.watched_satellites@, sat1.name@),
        sat1.name@ == sat2.name@,
        sat1.elevation >= cfg.satellite_elevation_threshold,
        sat2.elevation >= cfg.satellite_elevation_threshold,
        spec_sat_step(cfg, sat1, s0, e0, s1, e1, now1),
        spec_sat_step(cfg, sat2, s1, e1, s2, e2, now2),
    ensures
        s2 == s1,
{
    lemma_elev_get_set(e0, sat1.name, sat1.elevation);
    assert(spec_elev_get(e1, sat2.name@) == sat1.elevation);
}

/// Aurora alerts are level-triggered: in every space-weather pass whose
/// snapshot has Kp at or above the alert threshold, an aurora alert is
/// appended whenever the dedup window does not suppress it — regardless of
/// what any earlier cycle saw or produced.
pub proof fn lemma_aurora_level_triggered(
    cfg: AlertConfig,
    sw: SpaceWeather,
    st0: AlertState,
    st1: AlertState,
    now: i64,
)
    requires
        spec_sw_check(cfg, sw, st0, st1, now),
        sw.kp >= cfg.kp_alert_threshold,
        !spec_blocked(st0.active_alerts@, AlertType::Aurora, now),
    ensures
        exists|i: int|
            st0.active_alerts@.len() <= i < st1.active_alerts@.len() && alert_matches(
                #[trigger] st1.active_alerts@[i],
                AlertType::Aurora,
                spec_aurora_severity(sw.kp),
                spec_aurora_message(sw.kp),
                now,
                cfg.alert_duration_seconds as int,
            ),
{
    let s0 = st0.active_alerts@;
    let nk: int = if sw.kp - st0.last_kp >= cfg.kp_spike_threshold && !spec_blocked(
        s0,
        AlertType::KpSpike,
        now,
    ) {
        1
    } else {
        0
    };
    let cls = spec_xray_class(sw.flux);
    let nx: int = if sw.flux > 50 && st0.last_xray_class != Some(cls)
        && crate::textops::spec_contains_string(cfg.xray_alert_classes@, cls.spec_tag())
        && !spec_blocked(s0, AlertType::XrayFlare, now) {
        1
    } else {
        0
    };
    assert(alert_matches(
        st1.active_alerts@[s0.len() + nk + nx],
        AlertType::Aurora,
        spec_aurora_severity(sw.kp),
        spec_aurora_message(sw.kp),
        now,
        cfg.alert_duration_seconds as int,
    ));
}

/// X-ray flare alerts fire only on a change of classification: a
/// space-weather pass whose flux classifies the same as the class already
/// recorded in the state appends no flare alert.
pub proof fn lemma_xray_fires_only_on_change(
    cfg: AlertConfig,
    sw: SpaceWeather,
    st0: AlertState,
    st1: AlertState,
    now: i64,
)
    requires
        spec_sw_check(cfg, sw, st0, st1, now),
        st0.last_xray_class == Some(spec_xray_class(sw.flux)),
    ensures
        forall|i: int|
            st0.active_alerts@.len() <= i < st1.active_alerts@.len() ==> (
            #[trigger] st1.active_alerts@[i]).alert_type != AlertType::XrayFlare,
{
    let s0 = st0.active_alerts@;
    let hk = sw.kp - st0.last_kp >= cfg.kp_spike_threshold && !spec_blocked(
        s0,
        AlertType::KpSpike,
        now,
    );
    let ha = sw.kp >= cfg.kp_alert_threshold && !spec_blocked(s0, AlertType::Aurora, now);
    let fd = (if sw.flux >= st0.last_flux {
        sw.flux - st0.last_flux
    } else {
        st0.last_flux - sw.flux
    }) as i64;
    let ad = (if sw.ap >= st0.last_ap {
        sw.ap - st0.last_ap
    } else {
        st0.last_ap - sw.ap
    }) as i64;
    let hc = cfg.cme_alerts_enabled && (fd > 200 || ad > 100) && !spec_blocked(
        s0,
        AlertType::Cme,
        now,
    );
    let nk: int = if hk { 1 } else { 0 };
    let na: int = if ha { 1 } else { 0 };
    let nc: int = if hc { 1 } else { 0 };
    assert(st1.active_alerts@.len() == s0.len() + nk + na + nc);
    assert forall|i: int|
        s0.len() <= i < st1.active_alerts@.len() implies (
    #[trigger] st1.active_alerts@[i]).alert_type != AlertType::XrayFlare by {
        if hk && i == s0.len() {
            assert(st1.active_alerts@[i].alert_type == AlertType::KpSpike);
        } else if ha && i == s0.len() + nk {
            assert(st1.active_alerts@[i].alert_type == AlertType::Aurora);
        } else {
            assert(st1.active_alerts@[i].alert_type == AlertType::Cme);
        }
    }
}

/// Cache round trip: a value put at instant `t` and read back before its
/// TTL elapses is returned unchanged; a read at or past the TTL returns
/// nothing.
pub proof fn lemma_cache_round_trip<T>(data: T, ttl_seconds: i64, t: i64, t2: i64)
    ensures
        t2 - t < ttl_seconds ==> (CacheEntry { data, created_at: t, ttl_seconds }).spec_get(t2)
            == Some(data),
        t2 - t >= ttl_seconds ==> (CacheEntry { data, created_at: t, ttl_seconds }).spec_get(t2)
            is None,
{
}

} // verus!
