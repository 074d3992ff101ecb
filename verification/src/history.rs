//! History store model: one row per alert, keyed by id, with the retention
//! and eviction policy of the durable sink. The store itself is this
//! in-memory table; the disk-backed mirror executes the same policy with
//! the numbers computed here.

use vstd::prelude::*;

use crate::config::Phase9Config;
use crate::error::AppError;
use crate::models::{lemma_filter_membership, lemma_filter_pairwise, Alert, MAX_EPOCH_SECONDS};

verus! {

/// One durable row: id, type tag, severity tag, message text, both
/// instants as epoch seconds, and the acknowledged flag.
#[derive(Debug)]
pub struct AlertRecord {
    pub id: String,
    pub alert_type: String,
    pub severity: String,
    pub message: String,
    pub created_at: i64,
    pub expires_at: i64,
    pub acknowledged: bool,
}

impl Clone for AlertRecord {
    fn clone(&self) -> (r: Self)
        ensures
            r == *self,
    {
        AlertRecord {
            id: self.id.clone(),
            alert_type: self.alert_type.clone(),
            severity: self.severity.clone(),
            message: self.message.clone(),
            created_at: self.created_at,
            expires_at: self.expires_at,
            acknowledged: self.acknowledged,
        }
    }
}

/// Whether the record is the row of the alert: same id, message, instants
/// and flag, with the type and severity as their tags.
pub open spec fn record_matches(rec: AlertRecord, a: Alert) -> bool {
    &&& rec.id == a.id
    &&& rec.alert_type@ == a.alert_type.spec_tag()
    &&& rec.severity@ == a.severity.spec_tag()
    &&& rec.message == a.message
    &&& rec.created_at == a.created_at
    &&& rec.expires_at == a.expires_at
    &&& rec.acknowledged == a.acknowledged
}

/// The durable row of an alert.
pub fn record_of_alert(a: &Alert) -> (rec: AlertRecord)
    ensures
        record_matches(rec, *a),
{
    AlertRecord {
        id: a.id.clone(),
        alert_type: a.alert_type.tag().to_owned(),
        severity: a.severity.tag().to_owned(),
        message: a.message.clone(),
        created_at: a.created_at,
        expires_at: a.expires_at,
        acknowledged: a.acknowledged,
    }
}

/// The cutoff instant of the retention policy: records created strictly
/// before it are dropped.
pub open spec fn spec_retention_cutoff(now: i64, retention_days: u32) -> int {
    now - retention_days * 86400
}

/// The cutoff instant of the retention policy.
pub fn retention_cutoff(now: i64, retention_days: u32) -> (r: i64)
    requires
        -MAX_EPOCH_SECONDS <= now <= MAX_EPOCH_SECONDS,
    ensures
        r == spec_retention_cutoff(now, retention_days),
{
    now - (retention_days as i64) * 86400
}

/// Rows kept by a retention pass: those created at or after the cutoff.
pub open spec fn spec_retained_records(s: Seq<AlertRecord>, cutoff: int) -> Seq<AlertRecord> {
    s.filter(|r: AlertRecord| r.created_at >= cutoff)
}

/// Alert history: the rows plus the configured retention and size limits.
#[derive(Debug)]
pub struct AlertHistory {
    pub records: Vec<AlertRecord>,
    pub retention_days: u32,
    pub max_entries: usize,
}

impl AlertHistory {
    /// The id is a unique key: no two rows share one.
    pub open spec fn wf(self) -> bool {
        forall|i: int, j: int|
            0 <= i < self.records@.len() && 0 <= j < self.records@.len() && i != j ==> (
            #[trigger] self.records@[i]).id@ != (#[trigger] self.records@[j]).id@
    }

    /// An empty store under the configured policy.
    pub fn new(config: &Phase9Config) -> (h: Self)
        ensures
            h.records@ =~= Seq::<AlertRecord>::empty(),
            h.retention_days == config.history_retention_days,
            h.max_entries == config.history_max_entries,
            h.wf(),
    {
        AlertHistory {
            records: Vec::new(),
            retention_days: config.history_retention_days,
            max_entries: config.history_max_entries,
        }
    }

    /// Insert the row of an alert; an alert whose id is already present is
    /// rejected, since the id is the primary key.
    pub fn insert_alert(&mut self, a: &Alert) -> (r: Result<(), AppError>)
        requires
            old(self).wf(),
        ensures
            final(self).wf(),
            final(self).retention_days == old(self).retention_days,
            final(self).max_entries == old(self).max_entries,
            r is Ok <==> !(exists|i: int|
                0 <= i < old(self).records@.len() && (#[trigger] old(self).records@[i]).id@
                    == a.id@),
            r is Ok ==> final(self).records@.len() == old(self).records@.len() + 1 && final(self).records@.take(old(self).records@.len() as int) == old(self).records@
                && record_matches(final(self).records@.last(), *a),
            r is Err ==> final(self).records == old(self).records && match r {
                Err(AppError::IoError(m)) => m@ == "duplicate alert id"@,
                _ => false,
            },
    {
        let ghost s = self.records@;
        let mut i: usize = 0;
        #[verifier::loop_isolation(false)]
        while i < self.records.len()
            invariant
                0 <= i <= s.len(),
                self.records@ == s,
                forall|k: int| 0 <= k < i ==> (#[trigger] s[k]).id@ != a.id@,
            decreases s.len() - i,
        {
            if self.records[i].id == a.id {
                return Err(AppError::IoError("duplicate alert id".to_owned()));
            }
            i += 1;
        }
        let rec = record_of_alert(a);
        self.records.push(rec);
        proof {
            assert(self.records@.take(s.len() as int) =~= s);
        }
        Ok(())
    }

    /// Remove rows older than the retention period; returns how many rows
    /// left.
    pub fn cleanup_old_entries(&mut self, now: i64) -> (removed: usize)
        requires
            old(self).wf(),
            0 <= now <= MAX_EPOCH_SECONDS,
        ensures
            final(self).wf(),
            final(self).retention_days == old(self).retention_days,
            final(self).max_entries == old(self).max_entries,
            final(self).records@ == spec_retained_records(
                old(self).records@,
                spec_retention_cutoff(now, old(self).retention_days),
            ),
            removed == old(self).records@.len() - final(self).records@.len(),
    {
        let cutoff = retention_cutoff(now, self.retention_days);
        let ghost s = self.records@;
        let ghost pred = |r: AlertRecord| r.created_at >= cutoff as int;
        let mut kept: Vec<AlertRecord> = Vec::new();
        let mut i: usize = 0;
        #[verifier::loop_isolation(false)]
        while i < self.records.len()
            invariant
                0 <= i <= s.len(),
                self.records@ == s,
                kept@ == s.take(i as int).filter(pred),
            decreases s.len() - i,
        {
            let r = &self.records[i];
            if r.created_at >= cutoff {
                kept.push(r.clone());
            }
            proof {
                reveal(Seq::filter);
                let t = s.take(i as int + 1);
                assert(t.drop_last() =~= s.take(i as int));
                assert(t.last() == s[i as int]);
                assert(kept@ =~= t.filter(pred));
            }
            i += 1;
        }
        proof {
            assert(s.take(s.len() as int) =~= s);
            Seq::lemma_filter_len(s, pred);
            lemma_filter_pairwise(s, pred, |a: AlertRecord, b: AlertRecord| a.id@ != b.id@);
        }
        let total = self.records.len();
        let remaining = kept.len();
        self.records = kept;
        proof {
            assert(self.records@ =~= spec_retained_records(
                s,
                spec_retention_cutoff(now, self.retention_days),
            ));
        }
        total - remaining
    }

    /// Position of a row with the smallest creation instant.
    fn argmin_created(&self) -> (r: usize)
        requires
            self.records@.len() > 0,
        ensures
            r < self.records@.len(),
            forall|k: int|
                0 <= k < self.records@.len() ==> (#[trigger] self.records@[k]).created_at
                    >= self.records@[r as int].created_at,
    {
        let mut best: usize = 0;
        let mut i: usize = 1;
        #[verifier::loop_isolation(false)]
        while i < self.records.len()
            invariant
                0 <= best < i <= self.records@.len(),
                forall|k: int|
                    0 <= k < i ==> (#[trigger] self.records@[k]).created_at
                        >= self.records@[best as int].created_at,
            decreases self.records@.len() - i,
        {
            if self.records[i].created_at < self.records[best].created_at {
                best = i;
            }
            i += 1;
        }
        best
    }

    /// Enforce the maximum row count by deleting the oldest surplus rows,
    /// ordered by creation instant: afterwards at most `max_entries` rows
    /// remain, every remaining row is one of the previous rows, and no
    /// deleted row was created after a remaining one.
    pub fn enforce_max_entries(&mut self)
        requires
            old(self).wf(),
        ensures
            final(self).wf(),
            final(self).retention_days == old(self).retention_days,
            final(self).max_entries == old(self).max_entries,
            old(self).records@.len() <= old(self).max_entries ==> final(self).records == old(self).records,
            old(self).records@.len() > old(self).max_entries ==> final(self).records@.len() == old(self).max_entries,
            forall|i: int|
                0 <= i < final(self).records@.len() ==> old(self).records@.contains(
                    #[trigger] final(self).records@[i],
                ),
            forall|j: int, i: int|
                0 <= j < old(self).records@.len() && !final(self).records@.contains(
                    #[trigger] old(self).records@[j],
                ) && 0 <= i < final(self).records@.len() ==> (
                #[trigger] final(self).records@[i]).created_at >= old(self).records@[j].created_at,
    {
        let ghost s0 = self.records@;
        #[verifier::loop_isolation(false)]
        while self.records.len() > self.max_entries
            invariant
                self.wf(),
                self.retention_days == old(self).retention_days,
                self.max_entries == old(self).max_entries,
                s0.len() <= old(self).max_entries ==> self.records == old(self).records,
                self.records@.len() >= self.max_entries || self.records == old(self).records,
                forall|i: int|
                    0 <= i < self.records@.len() ==> s0.contains(#[trigger] self.records@[i]),
                forall|j: int, i: int|
                    0 <= j < s0.len() && !self.records@.contains(#[trigger] s0[j]) && 0 <= i
                        < self.records@.len() ==> (#[trigger] self.records@[i]).created_at
                        >= s0[j].created_at,
            decreases self.records@.len(),
        {
            let ghost cur = self.records@;
            let victim = self.argmin_created();
            let ghost v = cur[victim as int];
            self.records.remove(victim);
            proof {
                let t = self.records@;
                // every row kept is a row that was there before the removal
                assert forall|i: int| 0 <= i < t.len() implies cur.contains(#[trigger] t[i]) by {
                    if i < victim as int {
                        assert(t[i] == cur[i]);
                    } else {
                        assert(t[i] == cur[i + 1]);
                    }
                }
                assert forall|i: int| 0 <= i < t.len() implies s0.contains(#[trigger] t[i]) by {
                    assert(cur.contains(t[i]));
                    let w = choose|w: int| 0 <= w < cur.len() && cur[w] == t[i];
                    assert(s0.contains(cur[w]));
                }
                // a row that disappeared with this removal is the victim
                assert forall|j: int|
                    0 <= j < s0.len() && !t.contains(#[trigger] s0[j]) && cur.contains(
                        s0[j],
                    ) implies s0[j].created_at <= v.created_at by {
                    let w = choose|w: int| 0 <= w < cur.len() && cur[w] == s0[j];
                    if w != victim as int {
                        if w < victim as int {
                            assert(t[w] == cur[w]);
                        } else {
                            assert(t[w - 1] == cur[w]);
                        }
                        assert(t.contains(s0[j]));
                        assert(false);
                    }
                    assert(s0[j] == v);
                }
                // the kept rows and the dominance condition
                assert forall|j: int, i: int|
                    0 <= j < s0.len() && !t.contains(#[trigger] s0[j]) && 0 <= i
                        < t.len() implies (#[trigger] t[i]).created_at >= s0[j].created_at by {
                    assert(cur.contains(t[i]));
                    let w = choose|w: int| 0 <= w < cur.len() && cur[w] == t[i];
                    if cur.contains(s0[j]) {
                        assert(s0[j].created_at <= v.created_at);
                        assert(cur[w].created_at >= v.created_at);
                    } else {
                        assert(cur[w].created_at >= s0[j].created_at);
                    }
                }
                // id uniqueness survives the removal
                assert forall|i: int, j: int|
                    0 <= i < t.len() && 0 <= j < t.len() && i != j implies (
                #[trigger] t[i]).id@ != (#[trigger] t[j]).id@ by {
                    let wi = if i < victim as int {
                        i
                    } else {
                        i + 1
                    };
                    let wj = if j < victim as int {
                        j
                    } else {
                        j + 1
                    };
                    assert(t[i] == cur[wi] && t[j] == cur[wj]);
                }
            }
        }
    }

    /// Number of rows in the store.
    pub fn get_count(&self) -> (r: usize)
        ensures
            r == self.records@.len(),
    {
        self.records.len()
    }
}

} // verus!
