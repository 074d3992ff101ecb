//! Data model of the alert core: severities, alert types, alerts, the
//! telemetry snapshot, and the ledger of currently tracked alerts.
//!
//! Quantities that the surrounding system measures as fractional values are
//! held here as scaled integers: Kp index in tenths (`65` is Kp 6.5),
//! frequencies in kilohertz, satellite elevation and azimuth in whole
//! degrees, times as seconds since the Unix epoch.

use vstd::prelude::*;

use crate::strfmt::{spec_dec, u64_to_string};
use crate::DEDUP_WINDOW_SECONDS;

verus! {

/// Largest timestamp the core accepts (the last second of year 9999); keeps
/// all timestamp arithmetic far away from overflow.
pub const MAX_EPOCH_SECONDS: i64 = 253402300799;

/// Alert severity levels, ordered from least to most urgent.
#[derive(Debug, Clone, Copy, PartialEq, Eq, Structural)]
pub enum AlertSeverity {
    Info,
    Notice,
    Warning,
    Critical,
    Emergency,
}

impl AlertSeverity {
    /// Position of the severity in the total order
    /// Info < Notice < Warning < Critical < Emergency.
    pub open spec fn spec_rank(self) -> u32 {
        match self {
            AlertSeverity::Info => 0,
            AlertSeverity::Notice => 1,
            AlertSeverity::Warning => 2,
            AlertSeverity::Critical => 3,
            AlertSeverity::Emergency => 4,
        }
    }

    /// Numeric rank of the severity; comparisons on severities go by rank.
    #[verifier::when_used_as_spec(spec_rank)]
    pub fn rank(self) -> (r: u32)
        ensures
            r == self.spec_rank(),
    {
        match self {
            AlertSeverity::Info => 0,
            AlertSeverity::Notice => 1,
            AlertSeverity::Warning => 2,
            AlertSeverity::Critical => 3,
            AlertSeverity::Emergency => 4,
        }
    }

    /// Tag of the severity, as it appears in durable rows and payloads.
    pub open spec fn spec_tag(self) -> Seq<char> {
        match self {
            AlertSeverity::Info => "Info"@,
            AlertSeverity::Notice => "Notice"@,
            AlertSeverity::Warning => "Warning"@,
            AlertSeverity::Critical => "Critical"@,
            AlertSeverity::Emergency => "Emergency"@,
        }
    }

    /// Tag of the severity, as it appears in durable rows and payloads.
    pub fn tag(self) -> (r: &'static str)
        ensures
            r@ == self.spec_tag(),
    {
        match self {
            AlertSeverity::Info => "Info",
            AlertSeverity::Notice => "Notice",
            AlertSeverity::Warning => "Warning",
            AlertSeverity::Critical => "Critical",
            AlertSeverity::Emergency => "Emergency",
        }
    }
}

/// Alert type classification.
#[derive(Debug, Clone, Copy, PartialEq, Eq, Structural)]
pub enum AlertType {
    DxSpot,
    SatellitePass,
    KpSpike,
    XrayFlare,
    Aurora,
    Cme,
}

impl AlertType {
    /// Tag of the alert type, as it appears in ids, durable rows, payloads
    /// and broker topics.
    pub open spec fn spec_tag(self) -> Seq<char> {
        match self {
            AlertType::DxSpot => "DxSpot"@,
            AlertType::SatellitePass => "SatellitePass"@,
            AlertType::KpSpike => "KpSpike"@,
            AlertType::XrayFlare => "XrayFlare"@,
            AlertType::Aurora => "Aurora"@,
            AlertType::Cme => "Cme"@,
        }
    }

    /// Tag of the alert type, as it appears in ids, durable rows, payloads
    /// and broker topics.
    pub fn tag(self) -> (r: &'static str)
        ensures
            r@ == self.spec_tag(),
    {
        match self {
            AlertType::DxSpot => "DxSpot",
            AlertType::SatellitePass => "SatellitePass",
            AlertType::KpSpike => "KpSpike",
            AlertType::XrayFlare => "XrayFlare",
            AlertType::Aurora => "Aurora",
            AlertType::Cme => "Cme",
        }
    }
}

/// X-ray flux classification bucket.
#[derive(Debug, Clone, Copy, PartialEq, Eq, Structural)]
pub enum XrayClass {
    B,
    C,
    M,
    X,
}

impl XrayClass {
    /// One-letter tag of the class.
    pub open spec fn spec_tag(self) -> Seq<char> {
        match self {
            XrayClass::B => "B"@,
            XrayClass::C => "C"@,
            XrayClass::M => "M"@,
            XrayClass::X => "X"@,
        }
    }

    /// One-letter tag of the class.
    pub fn tag(self) -> (r: &'static str)
        ensures
            r@ == self.spec_tag(),
    {
        match self {
            XrayClass::B => "B",
            XrayClass::C => "C",
            XrayClass::M => "M",
            XrayClass::X => "X",
        }
    }
}

/// Identity of an alert: its type tag, a dash, and its creation instant in
/// epoch seconds. Unique enough for deduplication and storage keys.
pub open spec fn spec_alert_id(alert_type: AlertType, created_at: int) -> Seq<char> {
    alert_type.spec_tag() + "-"@ + spec_dec(created_at as nat)
}

/// A discrete, time-bounded notification produced by a rule match.
#[derive(Debug)]
pub struct Alert {
    pub id: String,
    pub alert_type: AlertType,
    pub severity: AlertSeverity,
    pub message: String,
    /// Creation instant, seconds since the Unix epoch.
    pub created_at: i64,
    /// Expiry instant, seconds since the Unix epoch; always after `created_at`.
    pub expires_at: i64,
    pub acknowledged: bool,
}

/// Well-formedness of a single alert: its lifetime is a non-empty interval
/// in the representable epoch range, and its id is derived from its type and
/// creation instant.
pub open spec fn alert_wf(a: Alert) -> bool {
    &&& 0 <= a.created_at
    &&& a.created_at < a.expires_at
    &&& a.expires_at <= MAX_EPOCH_SECONDS
    &&& a.id@ == spec_alert_id(a.alert_type, a.created_at as int)
}

impl Clone for Alert {
    fn clone(&self) -> (r: Self)
        ensures
            r == *self,
    {
        Alert {
            id: self.id.clone(),
            alert_type: self.alert_type,
            severity: self.severity,
            message: self.message.clone(),
            created_at: self.created_at,
            expires_at: self.expires_at,
            acknowledged: self.acknowledged,
        }
    }
}

impl Alert {
    /// Create a new, unacknowledged alert at instant `now` that expires
    /// `duration_seconds` later.
    pub fn new(
        alert_type: AlertType,
        severity: AlertSeverity,
        message: String,
        duration_seconds: u64,
        now: i64,
    ) -> (a: Alert)
        requires
            0 <= now,
            1 <= duration_seconds,
            now + duration_seconds <= MAX_EPOCH_SECONDS,
        ensures
            a.alert_type == alert_type,
            a.severity == severity,
            a.message == message,
            a.created_at == now,
            a.expires_at == now + duration_seconds,
            !a.acknowledged,
            alert_wf(a),
    {
        let mut id = alert_type.tag().to_owned();
        id.append("-");
        id.append(u64_to_string(now as u64).as_str());
        proof {
            assert(id@ =~= spec_alert_id(alert_type, now as int));
        }
        Alert {
            id,
            alert_type,
            severity,
            message,
            created_at: now,
            expires_at: now + duration_seconds as i64,
            acknowledged: false,
        }
    }

    /// Whether the alert's expiry instant has passed at `now`.
    pub open spec fn spec_is_expired(&self, now: i64) -> bool {
        now > self.expires_at
    }

    /// Whether the alert's expiry instant has passed at `now`.
    #[verifier::when_used_as_spec(spec_is_expired)]
    pub fn is_expired(&self, now: i64) -> (r: bool)
        ensures
            r == self.spec_is_expired(now),
    {
        now > self.expires_at
    }

    /// An alert is active while it is neither expired nor acknowledged.
    pub open spec fn spec_is_active(&self, now: i64) -> bool {
        !self.spec_is_expired(now) && !self.acknowledged
    }

    /// An alert is active while it is neither expired nor acknowledged.
    #[verifier::when_used_as_spec(spec_is_active)]
    pub fn is_active(&self, now: i64) -> (r: bool)
        ensures
            r == self.spec_is_active(now),
    {
        !self.is_expired(now) && !self.acknowledged
    }
}

/// The alert with its acknowledged flag set.
pub open spec fn spec_acknowledged(a: Alert) -> Alert {
    Alert {
        id: a.id,
        alert_type: a.alert_type,
        severity: a.severity,
        message: a.message,
        created_at: a.created_at,
        expires_at: a.expires_at,
        acknowledged: true,
    }
}

/// Whether an already tracked alert blocks a candidate of type `ty`
/// created at `created` under the storm-suppression rule: same type, still
/// active when the candidate is created, and created less than the dedup
/// window before the candidate.
pub open spec fn dup_blocks(tracked_alert: Alert, ty: AlertType, created: i64) -> bool {
    &&& tracked_alert.alert_type == ty
    &&& !tracked_alert.acknowledged
    &&& created <= tracked_alert.expires_at
    &&& created - tracked_alert.created_at < DEDUP_WINDOW_SECONDS
}

/// Whether some alert in `s` blocks a candidate of type `ty` created at
/// `created`.
pub open spec fn spec_blocked(s: Seq<Alert>, ty: AlertType, created: i64) -> bool {
    exists|i: int| 0 <= i < s.len() && dup_blocks(#[trigger] s[i], ty, created)
}

/// Whether some alert in `s` blocks the candidate `c`.
pub open spec fn spec_is_duplicate(s: Seq<Alert>, c: Alert) -> bool {
    spec_blocked(s, c.alert_type, c.created_at)
}

/// Two tracked alerts may coexist if they differ in type, one is already
/// acknowledged, their creation instants lie at least the dedup window
/// apart, or one expired strictly before the other was created.
pub open spec fn dedup_compatible(a: Alert, b: Alert) -> bool {
    (a.alert_type == b.alert_type && !a.acknowledged && !b.acknowledged) ==> {
        ||| b.created_at - a.created_at >= DEDUP_WINDOW_SECONDS
        ||| a.created_at - b.created_at >= DEDUP_WINDOW_SECONDS
        ||| b.created_at > a.expires_at
        ||| a.created_at > b.expires_at
    }
}

/// Alerts retained by a cleanup pass at `now`: the active ones.
pub open spec fn spec_retained(s: Seq<Alert>, now: i64) -> Seq<Alert> {
    s.filter(|a: Alert| a.spec_is_active(now))
}

/// Every element of a filtered sequence is an element of the original.
pub proof fn lemma_filter_membership<A>(s: Seq<A>, pred: spec_fn(A) -> bool)
    ensures
        forall|i: int| 0 <= i < s.filter(pred).len() ==> s.contains(#[trigger] s.filter(pred)[i]),
    decreases s.len(),
{
    reveal(Seq::filter);
    if s.len() > 0 {
        let dl = s.drop_last();
        lemma_filter_membership(dl, pred);
        assert forall|i: int|
            0 <= i < s.filter(pred).len() implies s.contains(#[trigger] s.filter(pred)[i]) by {
            if i < dl.filter(pred).len() {
                assert(dl.contains(dl.filter(pred)[i]));
                let w = choose|w: int| 0 <= w < dl.len() && dl[w] == dl.filter(pred)[i];
                assert(s[w] == s.filter(pred)[i]);
            } else {
                assert(s[s.len() - 1] == s.filter(pred)[i]);
            }
        }
    }
}

/// A relation that holds of every pair of elements at distinct positions
/// still holds of every such pair after filtering.
pub proof fn lemma_filter_pairwise<A>(s: Seq<A>, pred: spec_fn(A) -> bool, r: spec_fn(A, A) -> bool)
    requires
        forall|i: int, j: int|
            0 <= i < s.len() && 0 <= j < s.len() && i != j ==> r(#[trigger] s[i], #[trigger] s[j]),
    ensures
        forall|i: int, j: int|
            0 <= i < s.filter(pred).len() && 0 <= j < s.filter(pred).len() && i != j ==> r(
                #[trigger] s.filter(pred)[i],
                #[trigger] s.filter(pred)[j],
            ),
    decreases s.len(),
{
    reveal(Seq::filter);
    if s.len() > 0 {
        let dl = s.drop_last();
        let f = s.filter(pred);
        let fd = dl.filter(pred);
        assert forall|i: int, j: int|
            0 <= i < dl.len() && 0 <= j < dl.len() && i != j implies r(
            #[trigger] dl[i],
            #[trigger] dl[j],
        ) by {
            assert(dl[i] == s[i] && dl[j] == s[j]);
        }
        lemma_filter_pairwise(dl, pred, r);
        lemma_filter_membership(dl, pred);
        assert forall|i: int, j: int|
            0 <= i < f.len() && 0 <= j < f.len() && i != j implies r(
            #[trigger] f[i],
            #[trigger] f[j],
        ) by {
            if i < fd.len() && j < fd.len() {
                assert(f[i] == fd[i] && f[j] == fd[j]);
            } else if i < fd.len() {
                // j is the kept last element of s
                assert(f[j] == s[s.len() - 1]);
                assert(dl.contains(fd[i]));
                let w = choose|w: int| 0 <= w < dl.len() && dl[w] == fd[i];
                assert(s[w] == f[i] && w != s.len() - 1);
            } else {
                assert(f[i] == s[s.len() - 1]);
                assert(dl.contains(fd[j]));
                let w = choose|w: int| 0 <= w < dl.len() && dl[w] == fd[j];
                assert(s[w] == f[j] && w != s.len() - 1);
            }
        }
    }
}

/// First elevation recorded under `name`, zero when the name is not tracked.
pub open spec fn spec_elev_get(s: Seq<(String, i32)>, name: Seq<char>) -> i32 {
    if exists|i: int| 0 <= i < s.len() && (#[trigger] s[i]).0@ == name {
        let w = choose|i: int| 0 <= i < s.len() && (#[trigger] s[i]).0@ == name;
        s[w].1
    } else {
        0
    }
}

/// Elevation tracking after recording `el` under `name`: any previous entry
/// for the name is dropped and the fresh pair goes to the end.
pub open spec fn spec_elev_set(s: Seq<(String, i32)>, name: String, el: i32) -> Seq<(String, i32)> {
    s.filter(|p: (String, i32)| p.0@ != name@).push((name, el))
}

/// Alert system state: the ledger of tracked alerts plus the last-seen
/// telemetry values that the edge-triggered rules compare against.
#[derive(Debug)]
pub struct AlertState {
    pub active_alerts: Vec<Alert>,
    /// Last seen Kp index, in tenths.
    pub last_kp: i32,
    /// Rolling history of recently alerted spot callsigns.
    pub last_dx_spots: Vec<String>,
    /// Satellite name to last observed elevation in whole degrees.
    pub last_satellite_elevations: Vec<(String, i32)>,
    /// X-ray classification recorded by a previous cycle, if any.
    pub last_xray_class: Option<XrayClass>,
    /// Last seen solar flux, for CME delta detection.
    pub last_flux: i32,
    /// Last seen Ap index, for CME delta detection.
    pub last_ap: i32,
}

impl AlertState {
    /// Ledger invariant: every tracked alert is well formed, no two tracked
    /// alerts violate the storm-suppression spacing, and the elevation
    /// tracking holds each satellite name at most once.
    pub open spec fn wf(self) -> bool {
        &&& forall|i: int|
            0 <= i < self.active_alerts@.len() ==> alert_wf(#[trigger] self.active_alerts@[i])
        &&& forall|i: int, j: int|
            0 <= i < self.active_alerts@.len() && 0 <= j < self.active_alerts@.len() && i != j
                ==> dedup_compatible(
                #[trigger] self.active_alerts@[i],
                #[trigger] self.active_alerts@[j],
            )
        &&& forall|i: int, j: int|
            0 <= i < self.last_satellite_elevations@.len() && 0 <= j
                < self.last_satellite_elevations@.len() && i != j ==> (
            #[trigger] self.last_satellite_elevations@[i]).0@ != (
            #[trigger] self.last_satellite_elevations@[j]).0@
    }

    /// Fresh state: nothing tracked, all last-seen values at their defaults.
    pub fn new() -> (s: AlertState)
        ensures
            s.active_alerts@ =~= Seq::<Alert>::empty(),
            s.last_kp == 0,
            s.last_dx_spots@ =~= Seq::<String>::empty(),
            s.last_satellite_elevations@ =~= Seq::<(String, i32)>::empty(),
            s.last_xray_class is None,
            s.last_flux == 0,
            s.last_ap == 0,
            s.wf(),
    {
        AlertState {
            active_alerts: Vec::new(),
            last_kp: 0,
            last_dx_spots: Vec::new(),
            last_satellite_elevations: Vec::new(),
            last_xray_class: None,
            last_flux: 0,
            last_ap: 0,
        }
    }

    /// Drop every tracked alert that is expired or acknowledged at `now`.
    /// Call at the start of every detection cycle.
    pub fn cleanup_expired(&mut self, now: i64)
        requires
            old(self).wf(),
        ensures
            final(self).active_alerts@ == spec_retained(old(self).active_alerts@, now),
            final(self).last_kp == old(self).last_kp,
            final(self).last_dx_spots == old(self).last_dx_spots,
            final(self).last_satellite_elevations == old(self).last_satellite_elevations,
            final(self).last_xray_class == old(self).last_xray_class,
            final(self).last_flux == old(self).last_flux,
            final(self).last_ap == old(self).last_ap,
            final(self).wf(),
    {
        let ghost s = self.active_alerts@;
        let ghost pred = |a: Alert| a.spec_is_active(now);
        let mut kept: Vec<Alert> = Vec::new();
        let mut i: usize = 0;
        #[verifier::loop_isolation(false)]
        while i < self.active_alerts.len()
            invariant
                0 <= i <= s.len(),
                self.active_alerts@ == s,
                self == old(self),
                kept@ == s.take(i as int).filter(pred),
            decreases s.len() - i,
        {
            let a = &self.active_alerts[i];
            if a.is_active(now) {
                kept.push(a.clone());
            }
            proof {
                reveal(Seq::filter);
                let t = s.take(i as int + 1);
                assert(t.drop_last() =~= s.take(i as int));
                assert(t.last() == s[i as int]);
                assert(kept@ =~= t.filter(pred));
            }
            i += 1;
        }
        proof {
            assert(s.take(s.len() as int) =~= s);
        }
        self.active_alerts = kept;
        proof {
            lemma_filter_membership(s, pred);
            lemma_filter_pairwise(s, pred, |a: Alert, b: Alert| dedup_compatible(a, b));
            assert forall|i: int|
                0 <= i < self.active_alerts@.len() implies alert_wf(
                #[trigger] self.active_alerts@[i],
            ) by {
                assert(s.contains(self.active_alerts@[i]));
            }
        }
    }

    /// Accept the candidate unless an active alert of the same type was
    /// created within the dedup window before it; return whether it was
    /// accepted and appended.
    pub fn add_alert(&mut self, alert: Alert) -> (accepted: bool)
        requires
            old(self).wf(),
            alert_wf(alert),
        ensures
            accepted == !spec_is_duplicate(old(self).active_alerts@, alert),
            final(self).active_alerts@ == if accepted {
                old(self).active_alerts@.push(alert)
            } else {
                old(self).active_alerts@
            },
            final(self).last_kp == old(self).last_kp,
            final(self).last_dx_spots == old(self).last_dx_spots,
            final(self).last_satellite_elevations == old(self).last_satellite_elevations,
            final(self).last_xray_class == old(self).last_xray_class,
            final(self).last_flux == old(self).last_flux,
            final(self).last_ap == old(self).last_ap,
            final(self).wf(),
    {
        let ghost s = self.active_alerts@;
        let mut i: usize = 0;
        let mut duplicate = false;
        #[verifier::loop_isolation(false)]
        while i < self.active_alerts.len()
            invariant
                0 <= i <= s.len(),
                self.active_alerts@ == s,
                self == old(self),
                alert_wf(alert),
                duplicate == exists|k: int| 0 <= k < i && dup_blocks(#[trigger] s[k], alert.alert_type, alert.created_at),
            decreases s.len() - i,
        {
            let a = &self.active_alerts[i];
            proof {
                assert(alert_wf(s[i as int]));
            }
            if a.alert_type == alert.alert_type && !a.acknowledged && alert.created_at
                <= a.expires_at && alert.created_at - a.created_at < DEDUP_WINDOW_SECONDS {
                duplicate = true;
                proof {
                    assert(dup_blocks(s[i as int], alert.alert_type, alert.created_at));
                }
            }
            i += 1;
        }
        if duplicate {
            false
        } else {
            proof {
                assert forall|k: int|
                    0 <= k < s.len() implies dedup_compatible(#[trigger] s[k], alert)
                    && dedup_compatible(alert, s[k]) by {
                    assert(!dup_blocks(s[k], alert.alert_type, alert.created_at));
                    assert(alert_wf(s[k]));
                }
            }
            self.active_alerts.push(alert);
            proof {
                let t = self.active_alerts@;
                assert forall|i: int, j: int|
                    0 <= i < t.len() && 0 <= j < t.len() && i != j implies dedup_compatible(
                    #[trigger] t[i],
                    #[trigger] t[j],
                ) by {
                    if i < s.len() && j < s.len() {
                        assert(t[i] == s[i] && t[j] == s[j]);
                    } else if i < s.len() {
                        assert(t[i] == s[i] && t[j] == alert);
                    } else {
                        assert(t[i] == alert && t[j] == s[j]);
                    }
                }
            }
            true
        }
    }

    /// Mark the most recently appended alert acknowledged, if any.
    pub fn acknowledge_latest(&mut self)
        requires
            old(self).wf(),
        ensures
            old(self).active_alerts@.len() == 0 ==> final(self).active_alerts@ == old(self).active_alerts@,
            old(self).active_alerts@.len() > 0 ==> final(self).active_alerts@ == old(
                self,
            ).active_alerts@.update(
                old(self).active_alerts@.len() - 1,
                spec_acknowledged(old(self).active_alerts@.last()),
            ),
            final(self).last_kp == old(self).last_kp,
            final(self).last_dx_spots == old(self).last_dx_spots,
            final(self).last_satellite_elevations == old(self).last_satellite_elevations,
            final(self).last_xray_class == old(self).last_xray_class,
            final(self).last_flux == old(self).last_flux,
            final(self).last_ap == old(self).last_ap,
            final(self).wf(),
    {
        let ghost s = self.active_alerts@;
        if let Some(mut a) = self.active_alerts.pop() {
            a.acknowledged = true;
            proof {
                assert(a == spec_acknowledged(s.last()));
            }
            self.active_alerts.push(a);
            proof {
                let t = self.active_alerts@;
                assert(t =~= s.update(s.len() - 1, spec_acknowledged(s.last())));
                assert forall|i: int, j: int|
                    0 <= i < t.len() && 0 <= j < t.len() && i != j implies dedup_compatible(
                    #[trigger] t[i],
                    #[trigger] t[j],
                ) by {
                    if i < t.len() - 1 && j < t.len() - 1 {
                        assert(t[i] == s[i] && t[j] == s[j]);
                    }
                }
            }
        }
    }

    /// Mark every tracked alert acknowledged.
    pub fn acknowledge_all(&mut self)
        requires
            old(self).wf(),
        ensures
            final(self).active_alerts@.len() == old(self).active_alerts@.len(),
            forall|i: int|
                0 <= i < old(self).active_alerts@.len() ==> final(self).active_alerts@[i]
                    == spec_acknowledged(#[trigger] old(self).active_alerts@[i]),
            final(self).last_kp == old(self).last_kp,
            final(self).last_dx_spots == old(self).last_dx_spots,
            final(self).last_satellite_elevations == old(self).last_satellite_elevations,
            final(self).last_xray_class == old(self).last_xray_class,
            final(self).last_flux == old(self).last_flux,
            final(self).last_ap == old(self).last_ap,
            final(self).wf(),
    {
        let ghost s = self.active_alerts@;
        let mut done: Vec<Alert> = Vec::new();
        let mut i: usize = 0;
        #[verifier::loop_isolation(false)]
        while i < self.active_alerts.len()
            invariant
                0 <= i <= s.len(),
                self.active_alerts@ == s,
                self == old(self),
                done@.len() == i,
                forall|k: int| 0 <= k < i ==> done@[k] == spec_acknowledged(#[trigger] s[k]),
            decreases s.len() - i,
        {
            let mut a = self.active_alerts[i].clone();
            a.acknowledged = true;
            done.push(a);
            i += 1;
        }
        self.active_alerts = done;
        proof {
            let t = self.active_alerts@;
            assert forall|k: int| 0 <= k < t.len() implies alert_wf(#[trigger] t[k]) by {
                assert(alert_wf(s[k]));
            }
            assert forall|i: int, j: int|
                0 <= i < t.len() && 0 <= j < t.len() && i != j implies dedup_compatible(
                #[trigger] t[i],
                #[trigger] t[j],
            ) by {
                assert(t[i] == spec_acknowledged(s[i]) && t[j] == spec_acknowledged(s[j]));
                assert(t[i].acknowledged);
            }
        }
    }

    /// Last observed elevation of the named satellite, zero when the
    /// satellite has not been observed yet.
    pub fn elevation_for(&self, name: &String) -> (r: i32)
        requires
            self.wf(),
        ensures
            r == spec_elev_get(self.last_satellite_elevations@, name@),
    {
        let ghost s = self.last_satellite_elevations@;
        let mut i: usize = 0;
        #[verifier::loop_isolation(false)]
        while i < self.last_satellite_elevations.len()
            invariant
                0 <= i <= s.len(),
                self.last_satellite_elevations@ == s,
                self.wf(),
                forall|k: int| 0 <= k < i ==> (#[trigger] s[k]).0@ != name@,
            decreases s.len() - i,
        {
            if self.last_satellite_elevations[i].0 == *name {
                proof {
                    let w = choose|k: int| 0 <= k < s.len() && (#[trigger] s[k]).0@ == name@;
                    assert(w == i as int) by {
                        if w != i as int {
                            assert(s[w].0@ != s[i as int].0@);
                        }
                    }
                }
                return self.last_satellite_elevations[i].1;
            }
            i += 1;
        }
        0
    }

    /// Record `el` as the last observed elevation of the named satellite,
    /// replacing any earlier record for the same name.
    pub fn set_elevation(&mut self, name: &String, el: i32)
        requires
            old(self).wf(),
        ensures
            final(self).last_satellite_elevations@ == spec_elev_set(
                old(self).last_satellite_elevations@,
                *name,
                el,
            ),
            final(self).active_alerts == old(self).active_alerts,
            final(self).last_kp == old(self).last_kp,
            final(self).last_dx_spots == old(self).last_dx_spots,
            final(self).last_xray_class == old(self).last_xray_class,
            final(self).last_flux == old(self).last_flux,
            final(self).last_ap == old(self).last_ap,
            final(self).wf(),
    {
        let ghost s = self.last_satellite_elevations@;
        let ghost pred = |p: (String, i32)| p.0@ != name@;
        let mut kept: Vec<(String, i32)> = Vec::new();
        let mut i: usize = 0;
        #[verifier::loop_isolation(false)]
        while i < self.last_satellite_elevations.len()
            invariant
                0 <= i <= s.len(),
                self.last_satellite_elevations@ == s,
                self == old(self),
                kept@ == s.take(i as int).filter(pred),
            decreases s.len() - i,
        {
            let p = &self.last_satellite_elevations[i];
            if !(p.0 == *name) {
                let entry = (p.0.clone(), p.1);
                proof {
                    assert(entry == s[i as int]);
                }
                kept.push(entry);
            }
            proof {
                reveal(Seq::filter);
                let t = s.take(i as int + 1);
                assert(t.drop_last() =~= s.take(i as int));
                assert(t.last() == s[i as int]);
                assert(kept@ =~= t.filter(pred));
            }
            i += 1;
        }
        proof {
            assert(s.take(s.len() as int) =~= s);
        }
        let ghost f = s.filter(pred);
        kept.push((name.clone(), el));
        self.last_satellite_elevations = kept;
        proof {
            lemma_filter_membership(s, pred);
            lemma_filter_pairwise(
                s,
                pred,
                |a: (String, i32), b: (String, i32)| a.0@ != b.0@,
            );
            let t = self.last_satellite_elevations@;
            assert(t =~= spec_elev_set(s, *name, el));
            assert forall|i: int, j: int|
                0 <= i < t.len() && 0 <= j < t.len() && i != j implies (#[trigger] t[i]).0@ != (
            #[trigger] t[j]).0@ by {
                if i < f.len() && j < f.len() {
                    assert(t[i] == f[i] && t[j] == f[j]);
                } else if i < f.len() {
                    assert(pred(f[i]));
                    assert(t[j] == (*name, el));
                } else {
                    assert(pred(f[j]));
                    assert(t[i] == (*name, el));
                }
            }
        }
    }
}

/// Space weather indices of one telemetry snapshot.
#[derive(Debug)]
pub struct SpaceWeather {
    /// Planetary K-index, in tenths (`65` is Kp 6.5).
    pub kp: i32,
    /// Planetary A-index.
    pub a: i32,
    /// Average planetary A-index.
    pub ap: i32,
    /// Solar flux, in solar flux units.
    pub flux: i32,
    /// X-ray class string as reported upstream (`M2.4`, `X1.0`, empty when unknown).
    pub xray_class: String,
    /// Geomagnetic status text as reported upstream (`QUIET`, `ACTIVE`, ...).
    pub geomag_status: String,
    /// Instant the indices were fetched, seconds since the Unix epoch.
    pub updated: i64,
}

impl Clone for SpaceWeather {
    fn clone(&self) -> (r: Self)
        ensures
            r == *self,
    {
        SpaceWeather {
            kp: self.kp,
            a: self.a,
            ap: self.ap,
            flux: self.flux,
            xray_class: self.xray_class.clone(),
            geomag_status: self.geomag_status.clone(),
            updated: self.updated,
        }
    }
}

impl SpaceWeather {
    /// Quiet default: all indices zero, empty status texts.
    pub fn new() -> (r: SpaceWeather)
        ensures
            r.kp == 0,
            r.a == 0,
            r.ap == 0,
            r.flux == 0,
            r.xray_class@ == Seq::<char>::empty(),
            r.geomag_status@ == Seq::<char>::empty(),
            r.updated == 0,
    {
        SpaceWeather {
            kp: 0,
            a: 0,
            ap: 0,
            flux: 0,
            xray_class: String::new(),
            geomag_status: String::new(),
            updated: 0,
        }
    }
}

/// One propagation spot from the cluster feed.
#[derive(Debug)]
pub struct DxSpot {
    /// Spot frequency in kilohertz.
    pub frequency: u64,
    /// Spotted callsign.
    pub callsign: String,
    /// Callsign of the spotting station.
    pub spotter: String,
    /// Mode text (`FT8`, `CW`, ...).
    pub mode: String,
    /// Spot instant, seconds since the Unix epoch.
    pub time: i64,
}

impl Clone for DxSpot {
    fn clone(&self) -> (r: Self)
        ensures
            r == *self,
    {
        DxSpot {
            frequency: self.frequency,
            callsign: self.callsign.clone(),
            spotter: self.spotter.clone(),
            mode: self.mode.clone(),
            time: self.time,
        }
    }
}

/// One satellite observation.
#[derive(Debug)]
pub struct SatelliteData {
    pub name: String,
    /// Degrees above the horizon.
    pub elevation: i32,
    /// Degrees from north.
    pub azimuth: i32,
    /// Distance in kilometres.
    pub range: i32,
    /// Doppler shift in hertz.
    pub doppler_shift: i32,
}

impl Clone for SatelliteData {
    fn clone(&self) -> (r: Self)
        ensures
            r == *self,
    {
        SatelliteData {
            name: self.name.clone(),
            elevation: self.elevation,
            azimuth: self.azimuth,
            range: self.range,
            doppler_shift: self.doppler_shift,
        }
    }
}

/// One day of weather forecast.
#[derive(Debug)]
pub struct Forecast {
    pub date: String,
    pub temp_high: i32,
    pub temp_low: i32,
    pub conditions: String,
    pub humidity: i32,
}

impl Clone for Forecast {
    fn clone(&self) -> (r: Self)
        ensures
            r == *self,
    {
        Forecast {
            date: self.date.clone(),
            temp_high: self.temp_high,
            temp_low: self.temp_low,
            conditions: self.conditions.clone(),
            humidity: self.humidity,
        }
    }
}

/// Combined application data state: the latest telemetry snapshot plus the
/// alert system state.
#[derive(Debug)]
pub struct AppData {
    pub space_weather: SpaceWeather,
    pub forecast: Vec<Forecast>,
    pub dx_spots: Vec<DxSpot>,
    pub satellites: Vec<SatelliteData>,
    /// Instant of the last snapshot refresh, seconds since the Unix epoch.
    pub last_update: i64,
    pub alert_state: AlertState,
}

impl AppData {
    /// Empty snapshot around a fresh alert state.
    pub fn new() -> (r: AppData)
        ensures
            r.space_weather.kp == 0,
            r.space_weather.a == 0,
            r.space_weather.ap == 0,
            r.space_weather.flux == 0,
            r.space_weather.xray_class@ == Seq::<char>::empty(),
            r.space_weather.geomag_status@ == Seq::<char>::empty(),
            r.forecast@ =~= Seq::<Forecast>::empty(),
            r.dx_spots@ =~= Seq::<DxSpot>::empty(),
            r.satellites@ =~= Seq::<SatelliteData>::empty(),
            r.last_update == 0,
            r.alert_state.wf(),
            r.alert_state.active_alerts@ =~= Seq::<Alert>::empty(),
            r.alert_state.last_kp == 0,
            r.alert_state.last_dx_spots@ =~= Seq::<String>::empty(),
            r.alert_state.last_satellite_elevations@ =~= Seq::<(String, i32)>::empty(),
            r.alert_state.last_xray_class is None,
            r.alert_state.last_flux == 0,
            r.alert_state.last_ap == 0,
    {
        AppData {
            space_weather: SpaceWeather::new(),
            forecast: Vec::new(),
            dx_spots: Vec::new(),
            satellites: Vec::new(),
            last_update: 0,
            alert_state: AlertState::new(),
        }
    }

    /// Record `now` as the instant of the latest refresh.
    pub fn update_timestamp(&mut self, now: i64)
        ensures
            final(self).last_update == now,
            final(self).space_weather == old(self).space_weather,
            final(self).forecast == old(self).forecast,
            final(self).dx_spots == old(self).dx_spots,
            final(self).satellites == old(self).satellites,
            final(self).alert_state == old(self).alert_state,
    {
        self.last_update = now;
    }
}

/// Recording an elevation and reading it back under the same name yields
/// the recorded value.
pub proof fn lemma_elev_get_set(e: Seq<(String, i32)>, name: String, v: i32)
    ensures
        spec_elev_get(spec_elev_set(e, name, v), name@) == v,
{
    let pred = |p: (String, i32)| p.0@ != name@;
    let t = spec_elev_set(e, name, v);
    let f = e.filter(pred);
    assert(t[t.len() - 1] == (name, v));
    assert(t[t.len() - 1].0@ == name@);
    let w = choose|i: int| 0 <= i < t.len() && (#[trigger] t[i]).0@ == name@;
    if w != t.len() - 1 {
        assert(0 <= w < f.len());
        assert(t[w] == f[w]);
        Seq::lemma_filter_pred(e, pred, w);
        assert(false);
    }
}

impl Default for AlertState {
    /// Fresh state: nothing tracked, all last-seen values at their defaults.
    fn default() -> (s: AlertState)
        ensures
            s.active_alerts@ =~= Seq::<Alert>::empty(),
            s.last_kp == 0,
            s.last_xray_class is None,
            s.wf(),
    {
        AlertState::new()
    }
}

impl Default for AppData {
    /// Empty snapshot around a fresh alert state.
    fn default() -> (r: AppData)
        ensures
            r.space_weather.kp == 0,
            r.forecast@ =~= Seq::<Forecast>::empty(),
            r.dx_spots@ =~= Seq::<DxSpot>::empty(),
            r.satellites@ =~= Seq::<SatelliteData>::empty(),
            r.last_update == 0,
            r.alert_state.wf(),
    {
        AppData::new()
    }
}

} // verus!
