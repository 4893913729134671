//! Alert state: the active alerts, deduplication of repeated alerts by
//! fingerprint within a time window, the bounded history of resolved
//! alerts and the alert counters.
//!
//! Times are seconds since the Unix epoch. The fingerprint of an alert (a
//! hash of its name, metric, category, severity and threshold) is computed
//! by the caller and handed in with the alert.

use vstd::prelude::*;
use crate::keyed::{kv_find, kv_has, kv_index, kv_map, kv_put, kv_remove, kv_set, kv_unique, lemma_kv_index_unique};
use crate::monitoring::alerting::alert_types::{Alert, AlertSeverity, AlertStatus, SystemHealth};

verus! {

/// Alert state configuration.
#[derive(Debug, Clone, Copy, PartialEq, Eq, Structural)]
pub struct AlertStateConfig {
    pub dedup_window_minutes: u32,
    pub max_resolved_history: usize,
    pub auto_resolve_timeout_minutes: Option<u32>,
    pub cleanup_interval_minutes: u32,
}

impl Default for AlertStateConfig {
    /// A five-minute deduplication window, a thousand resolved alerts kept,
    /// alerts resolved after an hour without update, cleanup every 15 minutes.
    fn default() -> (c: Self)
        ensures
            c == (AlertStateConfig {
                dedup_window_minutes: 5,
                max_resolved_history: 1000,
                auto_resolve_timeout_minutes: Some(60),
                cleanup_interval_minutes: 15,
            }),
    {
        AlertStateConfig {
            dedup_window_minutes: 5,
            max_resolved_history: 1000,
            auto_resolve_timeout_minutes: Some(60),
            cleanup_interval_minutes: 15,
        }
    }
}

/// Deduplication record of one fingerprint.
#[derive(Debug)]
pub struct AlertFingerprint {
    pub fingerprint: String,
    pub first_seen: u64,
    pub last_seen: u64,
    pub occurrence_count: u32,
}

/// Result of adding an alert.
#[derive(Debug)]
pub enum AlertAddResult {
    Added { alert_id: String },
    Suppressed { fingerprint: String, occurrence_count: u32 },
}

/// Deduplication statistics.
#[derive(Debug)]
pub struct DedupStats {
    pub unique_fingerprints: usize,
    pub total_duplicates_suppressed: u64,
    pub dedup_window_minutes: u32,
    pub most_frequent_alerts: Vec<(String, u32)>,
}

/// Seconds from `from` to `to`, 0 when `to` is earlier.
pub open spec fn since(from: u64, to: u64) -> int {
    if to >= from { to - from } else { 0 }
}

/// `n + 1`, wrapping around at 2^32.
pub open spec fn inc32(n: u32) -> u32 {
    if n < u32::MAX { (n + 1) as u32 } else { 0 }
}

/// `n + 1`, wrapping around at 2^64.
pub open spec fn inc64(n: u64) -> u64 {
    if n < u64::MAX { (n + 1) as u64 } else { 0 }
}

fn inc_u64(n: u64) -> (r: u64)
    ensures
        r == inc64(n),
{
    if n < u64::MAX { n + 1 } else { 0 }
}

/// Whether an alert with this fingerprint, seen before, repeats within the
/// deduplication window at `now`.
pub open spec fn is_repeat(fps: Map<Seq<char>, AlertFingerprint>, fp: Seq<char>, window_minutes: u32, now: u64) -> bool {
    fps.contains_key(fp) && since(fps[fp].last_seen, now) < window_minutes * 60
}

/// Number of alerts of a sequence raised after `cutoff`.
pub open spec fn count_after(alerts: Seq<Alert>, cutoff: u64) -> nat
    decreases alerts.len(),
{
    if alerts.len() == 0 {
        0
    } else {
        count_after(alerts.drop_last(), cutoff) + if alerts.last().timestamp > cutoff { 1nat } else { 0nat }
    }
}

/// Number of critical alerts among entries.
pub open spec fn count_critical(entries: Seq<(String, Alert)>) -> nat
    decreases entries.len(),
{
    if entries.len() == 0 {
        0
    } else {
        count_critical(entries.drop_last()) + if entries.last().1.severity == AlertSeverity::Critical { 1nat } else { 0nat }
    }
}

proof fn lemma_count_after_le(alerts: Seq<Alert>, cutoff: u64)
    ensures
        count_after(alerts, cutoff) <= alerts.len(),
    decreases alerts.len(),
{
    if alerts.len() > 0 {
        lemma_count_after_le(alerts.drop_last(), cutoff);
    }
}

proof fn lemma_count_critical_le(entries: Seq<(String, Alert)>)
    ensures
        count_critical(entries) <= entries.len(),
    decreases entries.len(),
{
    if entries.len() > 0 {
        lemma_count_critical_le(entries.drop_last());
    }
}

/// Health of the system: critical with any critical alert, a warning with
/// more than ten active alerts, healthy otherwise.
pub open spec fn health_of(active: nat, critical: nat) -> SystemHealth {
    if critical > 0 {
        SystemHealth::Critical
    } else if active > 10 {
        SystemHealth::Warning
    } else {
        SystemHealth::Healthy
    }
}

/// Number of alerts added of each severity.
#[derive(Debug, Clone, Copy, PartialEq, Eq, Structural)]
pub struct SeverityCounts {
    pub info: u64,
    pub low: u64,
    pub medium: u64,
    pub high: u64,
    pub critical: u64,
}

impl SeverityCounts {
    /// The count of one severity.
    pub open spec fn of(self, severity: AlertSeverity) -> u64 {
        match severity {
            AlertSeverity::Info => self.info,
            AlertSeverity::Low => self.low,
            AlertSeverity::Medium => self.medium,
            AlertSeverity::High => self.high,
            AlertSeverity::Critical => self.critical,
        }
    }

    pub fn zero() -> (c: Self)
        ensures
            forall|s: AlertSeverity| c.of(s) == 0,
    {
        SeverityCounts { info: 0, low: 0, medium: 0, high: 0, critical: 0 }
    }

    /// The count of one severity.
    pub fn get(&self, severity: AlertSeverity) -> (n: u64)
        ensures
            n == self.of(severity),
    {
        match severity {
            AlertSeverity::Info => self.info,
            AlertSeverity::Low => self.low,
            AlertSeverity::Medium => self.medium,
            AlertSeverity::High => self.high,
            AlertSeverity::Critical => self.critical,
        }
    }

    /// Counts one more alert of `severity` (wrapping at 2^64).
    pub fn bump(&mut self, severity: AlertSeverity)
        ensures
            final(self).of(severity) == inc64(old(self).of(severity)),
            forall|s: AlertSeverity| s != severity ==> final(self).of(s) == old(self).of(s),
    {
        match severity {
            AlertSeverity::Info => self.info = inc_u64(self.info),
            AlertSeverity::Low => self.low = inc_u64(self.low),
            AlertSeverity::Medium => self.medium = inc_u64(self.medium),
            AlertSeverity::High => self.high = inc_u64(self.high),
            AlertSeverity::Critical => self.critical = inc_u64(self.critical),
        }
    }
}

/// The category counts after counting one more alert of `category`.
pub open spec fn category_bumped(m: Map<Seq<char>, u64>, category: Seq<char>) -> Map<Seq<char>, u64> {
    m.insert(category, inc64(if m.contains_key(category) { m[category] } else { 0 }))
}

/// `new` and `r` are what adding `alert` with fingerprint `fp` at `now` to
/// `old` gives (see `AlertStateManager::add_active_alert_at`).
pub open spec fn alert_added(old: AlertStateManager, new: AlertStateManager, alert: Alert, fp: Seq<char>, now: u64, r: AlertAddResult) -> bool {
    &&& new.cfg() == old.cfg()
    &&& new.resolved_alerts() == old.resolved_alerts()
    &&& new.auto_resolved() == old.auto_resolved()
    &&& is_repeat(old.seen(), fp, old.cfg().dedup_window_minutes, now) ==> {
        let o = old.seen()[fp];
        &&& r matches AlertAddResult::Suppressed { fingerprint: f, occurrence_count: c } && f@ == fp
            && c == inc32(o.occurrence_count)
        &&& new.active_alerts() == old.active_alerts()
        &&& new.seen().dom() == old.seen().dom()
        &&& new.seen()[fp].last_seen == now
        &&& new.seen()[fp].first_seen == o.first_seen
        &&& new.seen()[fp].occurrence_count == inc32(o.occurrence_count)
        &&& new.suppressed() == inc64(old.suppressed())
        &&& new.processed() == old.processed()
        &&& new.by_severity() == old.by_severity()
        &&& new.by_category() == old.by_category()
    }
    &&& !is_repeat(old.seen(), fp, old.cfg().dedup_window_minutes, now) ==> {
        &&& r matches AlertAddResult::Added { alert_id } && alert_id == alert.id
        &&& new.active_alerts() == old.active_alerts().insert(alert.id@, alert)
        &&& new.seen().dom() == old.seen().dom().insert(fp)
        &&& new.seen()[fp].fingerprint@ == fp
        &&& new.seen()[fp].first_seen == now
        &&& new.seen()[fp].last_seen == now
        &&& new.seen()[fp].occurrence_count == 1
        &&& new.suppressed() == old.suppressed()
        &&& new.processed() == inc64(old.processed())
        &&& new.by_severity().of(alert.severity) == inc64(old.by_severity().of(alert.severity))
        &&& forall|s: AlertSeverity| s != alert.severity ==> new.by_severity().of(s) == old.by_severity().of(s)
        &&& new.by_category() == category_bumped(old.by_category(), alert.category@)
    }
    &&& forall|k: Seq<char>| k != fp && #[trigger] old.seen().contains_key(k) ==> new.seen()[k] == old.seen()[k]
}

/// `new` is `old` after dropping, at `now`, the fingerprints not seen
/// within twice the deduplication window and the resolved alerts raised
/// seven days or more before (see `AlertStateManager::cleanup_old_data_at`).
pub open spec fn old_data_cleaned(old: AlertStateManager, new: AlertStateManager, now: u64) -> bool {
    &&& new.cfg() == old.cfg()
    &&& new.active_alerts() == old.active_alerts()
    &&& forall|k: Seq<char>| #[trigger] new.seen().contains_key(k) <==> old.seen().contains_key(k)
        && since(old.seen()[k].last_seen, now) < old.cfg().dedup_window_minutes * 120
    &&& forall|k: Seq<char>| #[trigger] new.seen().contains_key(k) ==> new.seen()[k] == old.seen()[k]
    &&& new.resolved_alerts() == alerts_after(old.resolved_alerts(), resolved_cutoff(now))
    &&& new.processed() == old.processed()
    &&& new.suppressed() == old.suppressed()
    &&& new.auto_resolved() == old.auto_resolved()
    &&& new.by_severity() == old.by_severity()
    &&& new.by_category() == old.by_category()
}

/// `last_hour` and `last_day` count the alerts of `m`, active or resolved,
/// raised in the hour and the day before `now`.
pub open spec fn windows_counted(m: AlertStateManager, last_hour: usize, last_day: usize, now: u64) -> bool {
    let day_cutoff = if now >= 86400 { (now - 86400) as u64 } else { 0u64 };
    let hour_cutoff = if now >= 3600 { (now - 3600) as u64 } else { 0u64 };
    &&& last_hour == count_after(m.resolved_alerts(), hour_cutoff) + count_after_entries(m.active_entries(), hour_cutoff)
    &&& last_day == count_after(m.resolved_alerts(), day_cutoff) + count_after_entries(m.active_entries(), day_cutoff)
}

/// Alert state manager.
pub struct AlertStateManager {
    config: AlertStateConfig,
    active: Vec<(String, Alert)>,
    fingerprints: Vec<(String, AlertFingerprint)>,
    resolved: Vec<Alert>,
    total_processed: u64,
    total_duplicates_suppressed: u64,
    total_auto_resolved: u64,
    severity_counts: SeverityCounts,
    category_counts: Vec<(String, u64)>,
}

impl AlertStateManager {
    #[verifier::type_invariant]
    spec fn inv(self) -> bool {
        &&& kv_unique(self.active@)
        &&& kv_unique(self.fingerprints@)
        &&& kv_unique(self.category_counts@)
        &&& self.resolved@.len() <= self.config.max_resolved_history
    }

    /// The configuration.
    pub closed spec fn cfg(self) -> AlertStateConfig {
        self.config
    }

    /// The active alerts by id.
    pub closed spec fn active_alerts(self) -> Map<Seq<char>, Alert> {
        kv_map(self.active@)
    }

    /// The fingerprints seen, by fingerprint.
    pub closed spec fn seen(self) -> Map<Seq<char>, AlertFingerprint> {
        kv_map(self.fingerprints@)
    }

    /// The resolved alerts kept, oldest first.
    pub closed spec fn resolved_alerts(self) -> Seq<Alert> {
        self.resolved@
    }

    /// Number of alerts added (not suppressed).
    pub closed spec fn processed(self) -> u64 {
        self.total_processed
    }

    /// Number of suppressed duplicates.
    pub closed spec fn suppressed(self) -> u64 {
        self.total_duplicates_suppressed
    }

    /// Number of alerts resolved for staleness.
    pub closed spec fn auto_resolved(self) -> u64 {
        self.total_auto_resolved
    }

    /// Number of alerts added, by severity.
    pub closed spec fn by_severity(self) -> SeverityCounts {
        self.severity_counts
    }

    /// Number of alerts added, by category.
    pub closed spec fn by_category(self) -> Map<Seq<char>, u64> {
        kv_map(self.category_counts@)
    }

    pub fn new(config: AlertStateConfig) -> (m: Self)
        ensures
            m.cfg() == config,
            m.active_alerts() == Map::<Seq<char>, Alert>::empty(),
            m.seen() == Map::<Seq<char>, AlertFingerprint>::empty(),
            m.resolved_alerts().len() == 0,
            m.processed() == 0,
            m.suppressed() == 0,
            m.auto_resolved() == 0,
            forall|s: AlertSeverity| m.by_severity().of(s) == 0,
            m.by_category() == Map::<Seq<char>, u64>::empty(),
    {
        let m = AlertStateManager {
            config,
            active: Vec::new(),
            fingerprints: Vec::new(),
            resolved: Vec::new(),
            total_processed: 0,
            total_duplicates_suppressed: 0,
            total_auto_resolved: 0,
            severity_counts: SeverityCounts::zero(),
            category_counts: Vec::new(),
        };
        assert(kv_map(m.active@) =~= Map::<Seq<char>, Alert>::empty());
        assert(kv_map(m.fingerprints@) =~= Map::<Seq<char>, AlertFingerprint>::empty());
        assert(kv_map(m.category_counts@) =~= Map::<Seq<char>, u64>::empty());
        m
    }

    /// Adds an alert with fingerprint `fingerprint` at `now`. An alert whose
    /// fingerprint was last seen within the deduplication window is
    /// suppressed: the fingerprint's last sighting and count are updated and
    /// the active alerts stay as they were. Any other alert becomes active
    /// under its id and starts a new fingerprint record.
    pub fn add_active_alert_at(&mut self, alert: Alert, fingerprint: String, now: u64) -> (r: AlertAddResult)
        ensures
            final(self).cfg() == old(self).cfg(),
            final(self).resolved_alerts() == old(self).resolved_alerts(),
            final(self).auto_resolved() == old(self).auto_resolved(),
            is_repeat(old(self).seen(), fingerprint@, old(self).cfg().dedup_window_minutes, now) ==> {
                let o = old(self).seen()[fingerprint@];
                &&& r matches AlertAddResult::Suppressed { fingerprint: f, occurrence_count: c } && f == fingerprint
                    && c == inc32(o.occurrence_count)
                &&& final(self).active_alerts() == old(self).active_alerts()
                &&& final(self).seen().dom() == old(self).seen().dom()
                &&& final(self).seen()[fingerprint@].last_seen == now
                &&& final(self).seen()[fingerprint@].first_seen == o.first_seen
                &&& final(self).seen()[fingerprint@].occurrence_count == inc32(o.occurrence_count)
                &&& final(self).suppressed() == inc64(old(self).suppressed())
                &&& final(self).processed() == old(self).processed()
                &&& final(self).by_severity() == old(self).by_severity()
                &&& final(self).by_category() == old(self).by_category()
            },
            !is_repeat(old(self).seen(), fingerprint@, old(self).cfg().dedup_window_minutes, now) ==> {
                &&& r matches AlertAddResult::Added { alert_id } && alert_id == alert.id
                &&& final(self).active_alerts() == old(self).active_alerts().insert(alert.id@, alert)
                &&& final(self).seen().dom() == old(self).seen().dom().insert(fingerprint@)
                &&& final(self).seen()[fingerprint@].fingerprint == fingerprint
                &&& final(self).seen()[fingerprint@].first_seen == now
                &&& final(self).seen()[fingerprint@].last_seen == now
                &&& final(self).seen()[fingerprint@].occurrence_count == 1
                &&& final(self).suppressed() == old(self).suppressed()
                &&& final(self).processed() == inc64(old(self).processed())
                &&& final(self).by_severity().of(alert.severity) == inc64(old(self).by_severity().of(alert.severity))
                &&& forall|s: AlertSeverity| s != alert.severity ==> final(self).by_severity().of(s) == old(self).by_severity().of(s)
                &&& final(self).by_category() == category_bumped(old(self).by_category(), alert.category@)
            },
            forall|k: Seq<char>| k != fingerprint@ && #[trigger] old(self).seen().contains_key(k) ==> final(self).seen()[k]
                == old(self).seen()[k],
    {
        proof {
            use_type_invariant(&*self);
        }
        let window: u64 = self.config.dedup_window_minutes as u64 * 60;
        match kv_find(&self.fingerprints, fingerprint.as_str()) {
            Some(i) => {
                proof {
                    lemma_kv_index_unique(self.fingerprints@, i as int);
                }
                let last = self.fingerprints[i].1.last_seen;
                let elapsed: u64 = if now >= last { now - last } else { 0 };
                if elapsed < window {
                    let mut fps = Vec::new();
                    std::mem::swap(&mut fps, &mut self.fingerprints);
                    let old_fp = &fps[i].1;
                    let count = if old_fp.occurrence_count < u32::MAX { old_fp.occurrence_count + 1 } else { 0 };
                    let updated = AlertFingerprint {
                        fingerprint: old_fp.fingerprint.clone(),
                        first_seen: old_fp.first_seen,
                        last_seen: now,
                        occurrence_count: count,
                    };
                    kv_set(&mut fps, i, updated);
                    self.fingerprints = fps;
                    self.total_duplicates_suppressed = inc_u64(self.total_duplicates_suppressed);
                    assert(self.seen().dom() =~= old(self).seen().dom());
                    return AlertAddResult::Suppressed { fingerprint, occurrence_count: count };
                }
            },
            None => {},
        }
        let record = AlertFingerprint { fingerprint: fingerprint.clone(), first_seen: now, last_seen: now, occurrence_count: 1 };
        let mut fps = Vec::new();
        std::mem::swap(&mut fps, &mut self.fingerprints);
        kv_put(&mut fps, fingerprint.as_str(), record);
        self.fingerprints = fps;
        let id = alert.id.clone();
        let severity = alert.severity;
        let mut counts = Vec::new();
        std::mem::swap(&mut counts, &mut self.category_counts);
        let ghost old_counts = kv_map(counts@);
        match kv_find(&counts, alert.category.as_str()) {
            Some(j) => {
                proof {
                    lemma_kv_index_unique(counts@, j as int);
                }
                let c = counts[j].1;
                kv_set(&mut counts, j, inc_u64(c));
            },
            None => {
                kv_put(&mut counts, alert.category.as_str(), 1);
            },
        }
        assert(kv_map(counts@) == category_bumped(old_counts, alert.category@));
        self.category_counts = counts;
        let mut sc = self.severity_counts;
        sc.bump(severity);
        self.severity_counts = sc;
        let mut active = Vec::new();
        std::mem::swap(&mut active, &mut self.active);
        kv_put(&mut active, id.as_str(), alert);
        self.active = active;
        self.total_processed = inc_u64(self.total_processed);
        assert(self.seen().dom() =~= old(self).seen().dom().insert(fingerprint@));
        AlertAddResult::Added { alert_id: id }
    }

    /// Whether an alert with this fingerprint would be suppressed at `now`.
    pub fn is_duplicate_at(&self, fingerprint: &str, now: u64) -> (r: bool)
        ensures
            r == is_repeat(self.seen(), fingerprint@, self.cfg().dedup_window_minutes, now),
    {
        proof {
            use_type_invariant(self);
        }
        match kv_find(&self.fingerprints, fingerprint) {
            Some(i) => {
                proof {
                    lemma_kv_index_unique(self.fingerprints@, i as int);
                }
                let last = self.fingerprints[i].1.last_seen;
                let elapsed: u64 = if now >= last { now - last } else { 0 };
                elapsed < self.config.dedup_window_minutes as u64 * 60
            },
            None => false,
        }
    }

    /// Resolves an active alert at `now`: it leaves the active alerts and
    /// joins the resolved history, which keeps only the newest
    /// `max_resolved_history` alerts. Resolving an alert that is not active
    /// changes nothing.
    pub fn resolve_alert_at(&mut self, alert_id: &str, now: u64) -> (r: bool)
        ensures
            r == old(self).active_alerts().contains_key(alert_id@),
            final(self).cfg() == old(self).cfg(),
            final(self).active_alerts() == old(self).active_alerts().remove(alert_id@),
            final(self).seen() == old(self).seen(),
            final(self).resolved_alerts().len() <= final(self).cfg().max_resolved_history,
            !r ==> final(self).resolved_alerts() == old(self).resolved_alerts(),
            r && final(self).cfg().max_resolved_history > 0 ==> {
                let a = final(self).resolved_alerts().last();
                &&& a.id == old(self).active_alerts()[alert_id@].id
                &&& a.resolved_at == Some(now)
                &&& a.timestamp == old(self).active_alerts()[alert_id@].timestamp
                &&& a.severity == old(self).active_alerts()[alert_id@].severity
                &&& final(self).resolved_alerts().drop_last() == (if old(self).resolved_alerts().len()
                    < final(self).cfg().max_resolved_history {
                    old(self).resolved_alerts()
                } else {
                    old(self).resolved_alerts().drop_first()
                })
            },
            final(self).processed() == old(self).processed(),
            final(self).suppressed() == old(self).suppressed(),
            final(self).auto_resolved() == old(self).auto_resolved(),
            final(self).by_severity() == old(self).by_severity(),
            final(self).by_category() == old(self).by_category(),
    {
        proof {
            use_type_invariant(&*self);
        }
        let mut active = Vec::new();
        std::mem::swap(&mut active, &mut self.active);
        let removed = kv_remove(&mut active, alert_id);
        self.active = active;
        match removed {
            None => false,
            Some(alert) => {
                let mut alert = alert;
                alert.resolve_at(now);
                let mut resolved = Vec::new();
                std::mem::swap(&mut resolved, &mut self.resolved);
                let ghost before = resolved@;
                resolved.push(alert);
                let max = self.config.max_resolved_history;
                if resolved.len() > max {
                    resolved.remove(0);
                    proof {
                        if max > 0 {
                            assert(resolved@.drop_last() =~= before.drop_first());
                        }
                    }
                } else {
                    assert(resolved@.drop_last() =~= before);
                }
                self.resolved = resolved;
                true
            },
        }
    }

    /// Number of alerts raised after `cutoff`, active and resolved.
    fn count_alerts_after(&self, cutoff: u64) -> (r: usize)
        ensures
            self.active@.len() + self.resolved@.len() <= usize::MAX ==> r == count_after(self.resolved@, cutoff)
                + count_after_entries(self.active@, cutoff),
    {
        proof {
            use_type_invariant(self);
        }
        let mut n: usize = 0;
        let mut i: usize = 0;
        while i < self.active.len()
            invariant
                i <= self.active@.len(),
                n == count_after_entries(self.active@.take(i as int), cutoff),
                n <= i,
            decreases self.active.len() - i,
        {
            proof {
                assert(self.active@.take((i + 1) as int).drop_last() =~= self.active@.take(i as int));
            }
            if self.active[i].1.timestamp > cutoff {
                n = n + 1;
            }
            i = i + 1;
        }
        assert(self.active@.take(i as int) =~= self.active@);
        let mut j: usize = 0;
        let ghost na = n;
        while j < self.resolved.len()
            invariant
                j <= self.resolved@.len(),
                na == count_after_entries(self.active@, cutoff),
                na <= self.active@.len(),
                self.active@.len() + self.resolved@.len() <= usize::MAX ==> n == na + count_after(self.resolved@.take(j as int), cutoff),
                n <= na + j,
            decreases self.resolved.len() - j,
        {
            proof {
                assert(self.resolved@.take((j + 1) as int).drop_last() =~= self.resolved@.take(j as int));
                lemma_count_after_le(self.resolved@.take(j as int), cutoff);
            }
            if self.resolved[j].timestamp > cutoff {
                if n < usize::MAX {
                    n = n + 1;
                }
            }
            j = j + 1;
        }
        assert(self.resolved@.take(j as int) =~= self.resolved@);
        n
    }

    /// Number of alerts raised in the `hours` hours before `now`.
    pub fn count_alerts_in_last_hours_at(&self, hours: u32, now: u64) -> (r: usize)
        ensures
            ({
                let span = hours * 3600;
                let cutoff = if now >= span { (now - span) as u64 } else { 0u64 };
                self.active_entries().len() + self.resolved_alerts().len() <= usize::MAX ==> r == count_after(
                    self.resolved_alerts(),
                    cutoff,
                ) + count_after_entries(self.active_entries(), cutoff)
            }),
    {
        let span: u64 = hours as u64 * 3600;
        let cutoff: u64 = if now >= span { now - span } else { 0 };
        self.count_alerts_after(cutoff)
    }

    /// The active entries, for counting.
    pub closed spec fn active_entries(self) -> Seq<(String, Alert)> {
        self.active@
    }

    /// Current alert status at `now`: the numbers of active and critical
    /// alerts, the alerts of the last day and the system's health.
    pub fn get_alert_status_at(&self, now: u64) -> (s: AlertStatus)
        ensures
            s.active_alerts == self.active_entries().len(),
            s.critical_alerts == count_critical(self.active_entries()),
            s.system_health == health_of(self.active_entries().len(), count_critical(self.active_entries())),
            ({
                let cutoff = if now >= 86400 { (now - 86400) as u64 } else { 0u64 };
                self.active_entries().len() + self.resolved_alerts().len() <= usize::MAX ==> s.total_alerts_last_24h
                    == count_after(self.resolved_alerts(), cutoff) + count_after_entries(self.active_entries(), cutoff)
            }),
    {
        let mut critical: usize = 0;
        let mut i: usize = 0;
        while i < self.active.len()
            invariant
                i <= self.active@.len(),
                critical == count_critical(self.active@.take(i as int)),
                critical <= i,
            decreases self.active.len() - i,
        {
            proof {
                assert(self.active@.take((i + 1) as int).drop_last() =~= self.active@.take(i as int));
            }
            if self.active[i].1.severity == AlertSeverity::Critical {
                critical = critical + 1;
            }
            i = i + 1;
        }
        assert(self.active@.take(i as int) =~= self.active@);
        let active_count = self.active.len();
        let health = if critical > 0 {
            SystemHealth::Critical
        } else if active_count > 10 {
            SystemHealth::Warning
        } else {
            SystemHealth::Healthy
        };
        AlertStatus {
            active_alerts: active_count,
            critical_alerts: critical,
            total_alerts_last_24h: self.count_alerts_in_last_hours_at(24, now),
            system_health: health,
        }
    }

    /// Deduplication statistics: the fingerprints that occurred more than
    /// once, with their counts, in the order they were first recorded.
    pub fn get_dedup_stats(&self) -> (s: DedupStats)
        ensures
            s.unique_fingerprints == self.seen().dom().len(),
            s.total_duplicates_suppressed == self.suppressed(),
            s.dedup_window_minutes == self.cfg().dedup_window_minutes,
            forall|i: int| 0 <= i < s.most_frequent_alerts@.len() ==> {
                let (f, c) = #[trigger] s.most_frequent_alerts@[i];
                &&& self.seen().contains_key(f@)
                &&& self.seen()[f@].occurrence_count == c
                &&& c > 1
            },
    {
        proof {
            use_type_invariant(self);
            lemma_kv_map_len(self.fingerprints@);
        }
        let mut frequent: Vec<(String, u32)> = Vec::new();
        let mut i: usize = 0;
        while i < self.fingerprints.len()
            invariant
                kv_unique(self.fingerprints@),
                i <= self.fingerprints@.len(),
                forall|a: int| 0 <= a < frequent@.len() ==> {
                    let (f, c) = #[trigger] frequent@[a];
                    &&& kv_map(self.fingerprints@).contains_key(f@)
                    &&& kv_map(self.fingerprints@)[f@].occurrence_count == c
                    &&& c > 1
                },
            decreases self.fingerprints.len() - i,
        {
            let c = self.fingerprints[i].1.occurrence_count;
            if c > 1 {
                proof {
                    lemma_kv_index_unique(self.fingerprints@, i as int);
                }
                frequent.push((self.fingerprints[i].0.clone(), c));
            }
            i = i + 1;
        }
        DedupStats {
            unique_fingerprints: self.fingerprints.len(),
            total_duplicates_suppressed: self.total_duplicates_suppressed,
            dedup_window_minutes: self.config.dedup_window_minutes,
            most_frequent_alerts: frequent,
        }
    }

    /// Fingerprint of an alert for deduplication: a hash of its name,
    /// metric, category and severity and of its threshold scaled by 100 and
    /// truncated (`threshold_key`), in hexadecimal. The current value is left
    /// out so that repeated alerts on one threshold match.
    pub fn calculate_fingerprint(&self, alert: &Alert, threshold_key: i64) -> (r: String)
        ensures
            r@ == alert_fields_hash(alert.name@, alert.metric_name@, alert.category@, alert.severity, threshold_key),
    {
        hash_alert_fields(alert.name.as_str(), alert.metric_name.as_str(), alert.category.as_str(), alert.severity, threshold_key)
    }

    /// Adds an alert at the clock's current reading, with its fingerprint
    /// computed from `threshold_key`: what `add_active_alert_at` does at
    /// that reading.
    pub fn add_active_alert(&mut self, alert: Alert, threshold_key: i64) -> (r: AlertAddResult)
        ensures
            exists|now: u64| #[trigger] alert_added(*old(self), *final(self), alert,
                alert_fields_hash(alert.name@, alert.metric_name@, alert.category@, alert.severity, threshold_key), now, r),
    {
        let ghost a = alert;
        let fingerprint = self.calculate_fingerprint(&alert, threshold_key);
        let ghost fp = fingerprint@;
        let now = crate::clock::current_timestamp();
        let r = self.add_active_alert_at(alert, fingerprint, now);
        assert(alert_added(*old(self), *self, a, fp, now, r));
        r
    }

    /// Resolves an active alert now.
    pub fn resolve_alert(&mut self, alert_id: &str) -> (r: bool)
        ensures
            r == old(self).active_alerts().contains_key(alert_id@),
            final(self).active_alerts() == old(self).active_alerts().remove(alert_id@),
    {
        let now = crate::clock::current_timestamp();
        self.resolve_alert_at(alert_id, now)
    }

    /// Number of alerts added so far.
    pub fn total_alerts_processed(&self) -> (r: u64)
        ensures
            r == self.processed(),
    {
        self.total_processed
    }

    /// The active alerts, in the order they became active.
    pub fn get_active_alerts(&self) -> (r: Vec<Alert>)
        ensures
            r@.len() == self.active_entries().len(),
            forall|i: int| 0 <= i < r@.len() ==> same_alert(#[trigger] r@[i], self.active_entries()[i].1),
            r@.len() == self.active_alerts().dom().len(),
            forall|i: int| 0 <= i < r@.len() ==> self.active_alerts().contains_key(#[trigger] self.active_entries()[i].0@)
                && same_alert(r@[i], self.active_alerts()[self.active_entries()[i].0@]),
            forall|k: Seq<char>| #[trigger] self.active_alerts().contains_key(k) ==> exists|i: int| 0 <= i < r@.len()
                && (#[trigger] self.active_entries()[i]).0@ == k && same_alert(r@[i], self.active_alerts()[k]),
    {
        proof {
            use_type_invariant(self);
            lemma_kv_map_len(self.active@);
            assert forall|i: int| 0 <= i < self.active@.len() implies self.active_alerts().contains_key(#[trigger] self.active_entries()[i].0@)
                && self.active_alerts()[self.active_entries()[i].0@] == self.active@[i].1 by {
                lemma_kv_index_unique(self.active@, i);
            }
            assert forall|k: Seq<char>| #[trigger] self.active_alerts().contains_key(k) implies exists|i: int| 0 <= i < self.active@.len()
                && (#[trigger] self.active_entries()[i]).0@ == k && self.active_alerts()[k] == self.active@[i].1 by {
                let i = crate::keyed::kv_index(self.active@, k);
                lemma_kv_index_unique(self.active@, i);
                assert(self.active_entries()[i].0@ == k);
            }
        }
        self.select_active(None, None)
    }

    /// The active alerts of one severity.
    pub fn get_active_alerts_by_severity(&self, severity: AlertSeverity) -> (r: Vec<Alert>)
        ensures
            forall|i: int| 0 <= i < r@.len() ==> (#[trigger] r@[i]).severity == severity,
            r@.len() == count_severity(self.active_entries(), severity),
    {
        self.select_active(Some(severity), None)
    }

    /// The active alerts of one category.
    pub fn get_active_alerts_by_category(&self, category: &str) -> (r: Vec<Alert>)
        ensures
            forall|i: int| 0 <= i < r@.len() ==> (#[trigger] r@[i]).category@ == category@,
            r@.len() == count_category(self.active_entries(), category@),
    {
        self.select_active(None, Some(category))
    }

    /// The active alerts matching the optional severity and category.
    fn select_active(&self, severity: Option<AlertSeverity>, category: Option<&str>) -> (r: Vec<Alert>)
        ensures
            severity is None && category is None ==> r@.len() == self.active@.len()
                && forall|i: int| 0 <= i < r@.len() ==> same_alert(#[trigger] r@[i], self.active@[i].1),
            severity matches Some(sv) ==> category is None ==> r@.len() == count_severity(self.active@, sv)
                && forall|i: int| 0 <= i < r@.len() ==> (#[trigger] r@[i]).severity == sv,
            category matches Some(c) ==> severity is None ==> r@.len() == count_category(self.active@, c@)
                && forall|i: int| 0 <= i < r@.len() ==> (#[trigger] r@[i]).category@ == c@,
    {
        let mut r: Vec<Alert> = Vec::new();
        let mut i: usize = 0;
        while i < self.active.len()
            invariant
                i <= self.active@.len(),
                severity is None && category is None ==> r@.len() == i
                    && forall|a: int| 0 <= a < r@.len() ==> same_alert(#[trigger] r@[a], self.active@[a].1),
                severity matches Some(sv) ==> category is None ==> r@.len() == count_severity(self.active@.take(i as int), sv)
                    && forall|a: int| 0 <= a < r@.len() ==> (#[trigger] r@[a]).severity == sv,
                category matches Some(c) ==> severity is None ==> r@.len() == count_category(self.active@.take(i as int), c@)
                    && forall|a: int| 0 <= a < r@.len() ==> (#[trigger] r@[a]).category@ == c@,
            decreases self.active.len() - i,
        {
            proof {
                assert(self.active@.take((i + 1) as int).drop_last() =~= self.active@.take(i as int));
            }
            let a = &self.active[i].1;
            let severity_ok = match severity {
                Some(sv) => a.severity == sv,
                None => true,
            };
            let category_ok = match category {
                Some(c) => crate::text::str_eq(a.category.as_str(), c),
                None => true,
            };
            if severity_ok && category_ok {
                let c = a.clone();
                proof {
                    assert(same_alert(c, self.active@[i as int].1));
                }
                r.push(c);
            }
            i = i + 1;
        }
        assert(self.active@.take(i as int) =~= self.active@);
        r
    }

    /// The `count` most recently resolved alerts, newest first.
    pub fn get_recent_resolved_alerts(&self, count: usize) -> (r: Vec<Alert>)
        ensures
            r@.len() == (if count < self.resolved_alerts().len() { count as int } else { self.resolved_alerts().len() as int }),
            forall|i: int| 0 <= i < r@.len() ==> same_alert(
                #[trigger] r@[i],
                self.resolved_alerts()[self.resolved_alerts().len() - 1 - i],
            ),
    {
        let n = self.resolved.len();
        let take = if count < n { count } else { n };
        let mut r: Vec<Alert> = Vec::new();
        let mut i: usize = 0;
        while i < take
            invariant
                take <= n,
                n == self.resolved@.len(),
                i <= take,
                r@.len() == i,
                forall|a: int| 0 <= a < r@.len() ==> same_alert(#[trigger] r@[a], self.resolved@[n - 1 - a]),
            decreases take - i,
        {
            r.push(self.resolved[n - 1 - i].clone());
            i = i + 1;
        }
        r
    }

    /// The oldest kept resolved alert with id `alert_id`.
    pub fn get_resolved_alert(&self, alert_id: &str) -> (r: Option<Alert>)
        ensures
            r is None ==> forall|i: int| 0 <= i < self.resolved_alerts().len() ==> (#[trigger] self.resolved_alerts()[i]).id@
                != alert_id@,
            r matches Some(a) ==> exists|i: int|
                0 <= i < self.resolved_alerts().len() && same_alert(a, #[trigger] self.resolved_alerts()[i])
                    && a.id@ == alert_id@ && forall|j: int| 0 <= j < i ==> (#[trigger] self.resolved_alerts()[j]).id@
                    != alert_id@,
    {
        let mut i: usize = 0;
        while i < self.resolved.len()
            invariant
                i <= self.resolved@.len(),
                forall|j: int| 0 <= j < i ==> (#[trigger] self.resolved@[j]).id@ != alert_id@,
            decreases self.resolved.len() - i,
        {
            if crate::text::str_eq(self.resolved[i].id.as_str(), alert_id) {
                let a = self.resolved[i].clone();
                assert(same_alert(a, self.resolved@[i as int]));
                return Some(a);
            }
            i = i + 1;
        }
        None
    }

    /// Resolves, at `now`, the active alerts raised before the auto-resolve
    /// timeout; gives the resolved alerts that the history still holds. With
    /// no timeout nothing is resolved.
    pub fn auto_resolve_stale_alerts_at(&mut self, now: u64) -> (r: Vec<Alert>)
        ensures
            final(self).cfg() == old(self).cfg(),
            final(self).by_severity() == old(self).by_severity(),
            final(self).by_category() == old(self).by_category(),
            old(self).cfg().auto_resolve_timeout_minutes is None ==> r@.len() == 0 && final(self).active_alerts()
                == old(self).active_alerts(),
            forall|k: Seq<char>| #[trigger] final(self).active_alerts().contains_key(k) ==> old(self).active_alerts().contains_key(k),
            old(self).cfg().auto_resolve_timeout_minutes matches Some(t) ==> {
                let span = t * 60;
                let cutoff = if now >= span { now - span } else { 0 };
                forall|k: Seq<char>| #[trigger] old(self).active_alerts().contains_key(k) ==> (final(self).active_alerts().contains_key(k)
                    <==> old(self).active_alerts()[k].timestamp >= cutoff)
            },
            forall|i: int| 0 <= i < r@.len() ==> (#[trigger] r@[i]).resolved_at == Some(now),
    {
        proof {
            use_type_invariant(&*self);
        }
        let timeout = match self.config.auto_resolve_timeout_minutes {
            None => {
                return Vec::new();
            },
            Some(t) => t,
        };
        let span: u64 = timeout as u64 * 60;
        let cutoff: u64 = if now >= span { now - span } else { 0 };
        let mut stale: Vec<String> = Vec::new();
        let mut i: usize = 0;
        while i < self.active.len()
            invariant
                kv_unique(self.active@),
                i <= self.active@.len(),
                forall|a: int| 0 <= a < stale@.len() ==> kv_map(self.active@).contains_key((#[trigger] stale@[a])@)
                    && kv_map(self.active@)[stale@[a]@].timestamp < cutoff,
                forall|j: int| 0 <= j < i && (#[trigger] self.active@[j]).1.timestamp < cutoff ==> stale@.contains(self.active@[j].0),
                forall|a: int, b: int| 0 <= a < b < stale@.len() ==> stale@[a]@ != stale@[b]@,
                forall|a: int| 0 <= a < stale@.len() ==> exists|j: int| 0 <= j < i && (#[trigger] stale@[a]) == self.active@[j].0,
            decreases self.active.len() - i,
        {
            if self.active[i].1.timestamp < cutoff {
                proof {
                    lemma_kv_index_unique(self.active@, i as int);
                }
                let ghost before = stale@;
                stale.push(self.active[i].0.clone());
                proof {
                    assert(stale@[before.len() as int] == self.active@[i as int].0);
                    assert forall|a: int, b: int| 0 <= a < b < stale@.len() implies stale@[a]@ != stale@[b]@ by {
                        if b == before.len() {
                            let j = choose|j: int| 0 <= j < i && (#[trigger] before[a]) == self.active@[j].0;
                        }
                    }
                    assert forall|j: int| 0 <= j < i + 1 && (#[trigger] self.active@[j]).1.timestamp < cutoff implies stale@.contains(
                        self.active@[j].0,
                    ) by {
                        if j < i {
                            let w = choose|w: int| 0 <= w < before.len() && before[w] == self.active@[j].0;
                            assert(stale@[w] == before[w]);
                        }
                    }
                    assert forall|a: int| 0 <= a < stale@.len() implies exists|j: int| 0 <= j < i + 1 && (#[trigger] stale@[a])
                        == self.active@[j].0 by {
                        if a < before.len() {
                            let j = choose|j: int| 0 <= j < i && (#[trigger] before[a]) == self.active@[j].0;
                        }
                    }
                }
            }
            i = i + 1;
        }
        let ghost start = kv_map(self.active@);
        assert(start == old(self).active_alerts());
        let mut resolved_now: Vec<Alert> = Vec::new();
        let mut k: usize = 0;
        while k < stale.len()
            invariant
                k <= stale@.len(),
                self.cfg() == old(self).cfg(),
                forall|a: int| 0 <= a < stale@.len() ==> start.contains_key((#[trigger] stale@[a])@) && start[stale@[a]@].timestamp < cutoff,
                forall|key: Seq<char>| #[trigger] self.active_alerts().contains_key(key) ==> start.contains_key(key),
                forall|key: Seq<char>| #[trigger] start.contains_key(key) && start[key].timestamp >= cutoff ==> self.active_alerts().contains_key(key),
                forall|a: int| 0 <= a < k ==> !self.active_alerts().contains_key((#[trigger] stale@[a])@),
                forall|a: int| 0 <= a < resolved_now@.len() ==> (#[trigger] resolved_now@[a]).resolved_at == Some(now),
                start == old(self).active_alerts(),
                self.by_severity() == old(self).by_severity(),
                self.by_category() == old(self).by_category(),
            decreases stale.len() - k,
        {
            let resolved = self.resolve_alert_at(stale[k].as_str(), now);
            if resolved {
                match self.get_resolved_alert(stale[k].as_str()) {
                    Some(a) => {
                        if a.resolved_at == Some(now) {
                            resolved_now.push(a);
                        }
                    },
                    None => {},
                }
            }
            k = k + 1;
        }
        proof {
            use_type_invariant(&*self);
        }
        let ghost before_count = self.active_alerts();
        self.total_auto_resolved = wrap_add64(self.total_auto_resolved, resolved_now.len() as u64);
        proof {
            assert(self.active_alerts() == before_count);
            assert forall|key: Seq<char>| #[trigger] self.active_alerts().contains_key(key) implies old(self).active_alerts().contains_key(key) by {
                assert(before_count.contains_key(key));
            }
            assert forall|key: Seq<char>| #[trigger] old(self).active_alerts().contains_key(key) implies (self.active_alerts().contains_key(key)
                <==> old(self).active_alerts()[key].timestamp >= cutoff) by {
                if old(self).active_alerts()[key].timestamp < cutoff {
                    let j = crate::keyed::kv_index(old(self).active@, key);
                    lemma_kv_index_unique(old(self).active@, j);
                    assert(stale@.contains(old(self).active@[j].0));
                    let a = choose|a: int| 0 <= a < stale@.len() && stale@[a] == old(self).active@[j].0;
                    assert(!self.active_alerts().contains_key(stale@[a]@));
                }
            }
        }
        resolved_now
    }

    /// Drops, at `now`, the fingerprints not seen within twice the
    /// deduplication window and the resolved alerts raised seven days or
    /// more before `now` (before the epoch, none).
    pub fn cleanup_old_data_at(&mut self, now: u64)
        ensures
            final(self).cfg() == old(self).cfg(),
            final(self).active_alerts() == old(self).active_alerts(),
            forall|k: Seq<char>| #[trigger] final(self).seen().contains_key(k) <==> old(self).seen().contains_key(k)
                && since(old(self).seen()[k].last_seen, now) < old(self).cfg().dedup_window_minutes * 120,
            forall|k: Seq<char>| #[trigger] final(self).seen().contains_key(k) ==> final(self).seen()[k] == old(self).seen()[k],
            final(self).resolved_alerts() == alerts_after(old(self).resolved_alerts(), resolved_cutoff(now)),
            final(self).processed() == old(self).processed(),
            final(self).suppressed() == old(self).suppressed(),
            final(self).auto_resolved() == old(self).auto_resolved(),
            final(self).by_severity() == old(self).by_severity(),
            final(self).by_category() == old(self).by_category(),
    {
        proof {
            use_type_invariant(&*self);
        }
        let retention: u64 = self.config.dedup_window_minutes as u64 * 120;
        let mut fps = Vec::new();
        std::mem::swap(&mut fps, &mut self.fingerprints);
        let ghost s = fps@;
        let ghost old_seen = kv_map(s);
        let mut kept: Vec<(String, AlertFingerprint)> = Vec::new();
        let ghost mut j: int = 0;
        assert(kv_map(kept@) =~= fresh_seen(s, 0, now, retention));
        while fps.len() > 0
            invariant
                0 <= j <= s.len(),
                fps@ == s.skip(j),
                kv_unique(s),
                kv_unique(kept@),
                kv_map(kept@) == fresh_seen(s, j, now, retention),
            decreases fps.len(),
        {
            let (key, fp) = fps.remove(0);
            proof {
                assert(s[j] == (key, fp));
                lemma_kv_index_unique(s, j);
            }
            let ghost before = kv_map(kept@);
            let age: u64 = if now >= fp.last_seen { now - fp.last_seen } else { 0 };
            let fresh: bool = age < retention;
            if fresh {
                kv_put(&mut kept, key.as_str(), fp);
            }
            proof {
                let target = fresh_seen(s, j + 1, now, retention);
                let after = if fresh { before.insert(s[j].0@, s[j].1) } else { before };
                assert(kv_map(kept@) == after);
                assert(!before.contains_key(s[j].0@));
                assert forall|k: Seq<char>| #[trigger] target.contains_key(k) == after.contains_key(k)
                    && (target.contains_key(k) ==> target[k] == after[k]) by {
                    if k != s[j].0@ && kv_has(s, k) {
                        let a = kv_index(s, k);
                        assert(s[a].0@ == k);
                        assert(a != j);
                    }
                }
                assert(target =~= kv_map(kept@));
                j = j + 1;
                assert(fps@ =~= s.skip(j));
            }
        }
        proof {
            assert forall|k: Seq<char>| #[trigger] kv_map(kept@).contains_key(k) <==> old_seen.contains_key(k)
                && since(old_seen[k].last_seen, now) < retention by {
                if kv_has(s, k) {
                    let a = kv_index(s, k);
                    assert(0 <= a < s.len());
                }
            }
        }
        self.fingerprints = kept;

        let cutoff: u64 = if now >= 604800 { now - 604800 } else { 0 };
        let mut resolved = Vec::new();
        std::mem::swap(&mut resolved, &mut self.resolved);
        let ghost h = resolved@;
        let mut kept_alerts: Vec<Alert> = Vec::new();
        let ghost mut i: int = 0;
        while resolved.len() > 0
            invariant
                0 <= i <= h.len(),
                resolved@ == h.skip(i),
                kept_alerts@ == alerts_after(h.take(i), cutoff),
                kept_alerts@.len() <= i,
            decreases resolved.len(),
        {
            let a = resolved.remove(0);
            proof {
                assert(a == h[i]);
                assert(h.take(i + 1).drop_last() =~= h.take(i));
                assert(h.take(i + 1).last() == h[i]);
                i = i + 1;
                assert(resolved@ =~= h.skip(i));
            }
            if a.timestamp > cutoff {
                kept_alerts.push(a);
            }
        }
        assert(h.take(i) =~= h);
        self.resolved = kept_alerts;
    }

    /// Drops the old fingerprints and resolved alerts at the clock's
    /// current reading: what `cleanup_old_data_at` does at that reading.
    pub fn cleanup_old_data(&mut self)
        ensures
            exists|now: u64| #[trigger] old_data_cleaned(*old(self), *final(self), now),
    {
        let now = crate::clock::current_timestamp();
        self.cleanup_old_data_at(now);
        assert(old_data_cleaned(*old(self), *self, now));
    }

    /// Drops all alerts, fingerprints and counts.
    pub fn force_cleanup(&mut self)
        ensures
            final(self).cfg() == old(self).cfg(),
            final(self).active_alerts() == Map::<Seq<char>, Alert>::empty(),
            final(self).seen() == Map::<Seq<char>, AlertFingerprint>::empty(),
            final(self).resolved_alerts().len() == 0,
            final(self).processed() == 0,
            final(self).suppressed() == 0,
            final(self).auto_resolved() == 0,
            forall|s: AlertSeverity| final(self).by_severity().of(s) == 0,
            final(self).by_category() == Map::<Seq<char>, u64>::empty(),
    {
        proof {
            use_type_invariant(&*self);
        }
        self.active = Vec::new();
        self.fingerprints = Vec::new();
        self.resolved = Vec::new();
        self.total_processed = 0;
        self.total_duplicates_suppressed = 0;
        self.total_auto_resolved = 0;
        self.severity_counts = SeverityCounts::zero();
        self.category_counts = Vec::new();
        assert(kv_map(self.category_counts@) =~= Map::<Seq<char>, u64>::empty());
        assert(kv_map(self.active@) =~= Map::<Seq<char>, Alert>::empty());
        assert(kv_map(self.fingerprints@) =~= Map::<Seq<char>, AlertFingerprint>::empty());
    }
}

/// The fingerprint records among the first `j` entries of `s` last seen
/// less than `retention` seconds before `now`.
pub open spec fn fresh_seen(s: Seq<(String, AlertFingerprint)>, j: int, now: u64, retention: u64) -> Map<Seq<char>, AlertFingerprint> {
    Map::new(
        |k: Seq<char>| kv_map(s).contains_key(k) && kv_index(s, k) < j && since(kv_map(s)[k].last_seen, now) < retention,
        |k: Seq<char>| kv_map(s)[k],
    )
}

/// The time before which resolved alerts are dropped: seven days before
/// `now`, or the epoch.
pub open spec fn resolved_cutoff(now: u64) -> u64 {
    if now >= 604800 { (now - 604800) as u64 } else { 0 }
}

/// The alerts raised after `cutoff`, in order.
pub open spec fn alerts_after(h: Seq<Alert>, cutoff: u64) -> Seq<Alert>
    decreases h.len(),
{
    if h.len() == 0 {
        seq![]
    } else {
        let p = alerts_after(h.drop_last(), cutoff);
        if h.last().timestamp > cutoff { p.push(h.last()) } else { p }
    }
}

/// Two alerts agree on the fields the state manager reports.
pub open spec fn same_alert(a: Alert, b: Alert) -> bool {
    &&& a.id == b.id
    &&& a.name == b.name
    &&& a.description == b.description
    &&& a.severity == b.severity
    &&& a.category == b.category
    &&& a.metric_name == b.metric_name
    &&& a.timestamp == b.timestamp
    &&& a.resolved_at == b.resolved_at
}

/// Number of entries of the given severity.
pub open spec fn count_severity(entries: Seq<(String, Alert)>, severity: AlertSeverity) -> nat
    decreases entries.len(),
{
    if entries.len() == 0 {
        0
    } else {
        count_severity(entries.drop_last(), severity) + if entries.last().1.severity == severity { 1nat } else { 0nat }
    }
}

/// Number of entries of the given category.
pub open spec fn count_category(entries: Seq<(String, Alert)>, category: Seq<char>) -> nat
    decreases entries.len(),
{
    if entries.len() == 0 {
        0
    } else {
        count_category(entries.drop_last(), category) + if entries.last().1.category@ == category { 1nat } else { 0nat }
    }
}

/// `a + b`, wrapping around at 2^64.
fn wrap_add64(a: u64, b: u64) -> (r: u64)
    ensures
        r == (if a + b <= u64::MAX { a + b } else { a + b - 0x1_0000_0000_0000_0000 }),
{
    if a <= u64::MAX - b { a + b } else { b - (u64::MAX - a) - 1 }
}

/// The text `hash_alert_fields` gives: the lower-case hexadecimal digits of
/// the `DefaultHasher` hash of the fields. `DefaultHasher::new` starts from
/// fixed keys, so the same fields give the same text in every process.
pub uninterp spec fn alert_fields_hash(name: Seq<char>, metric_name: Seq<char>, category: Seq<char>, severity: AlertSeverity, threshold_key: i64) -> Seq<char>;

/// `std::collections::hash_map::DefaultHasher` over the name, metric,
/// category, severity and threshold key, in lower-case hexadecimal.
#[verifier::external_body]
fn hash_alert_fields(name: &str, metric_name: &str, category: &str, severity: AlertSeverity, threshold_key: i64) -> (r: String)
    ensures
        r@ == alert_fields_hash(name@, metric_name@, category@, severity, threshold_key),
{
    let mut hasher = std::collections::hash_map::DefaultHasher::new();
    std::hash::Hash::hash(name, &mut hasher);
    std::hash::Hash::hash(metric_name, &mut hasher);
    std::hash::Hash::hash(category, &mut hasher);
    std::hash::Hash::hash(&severity, &mut hasher);
    std::hash::Hash::hash(&threshold_key, &mut hasher);
    format!("{:x}", std::hash::Hasher::finish(&hasher))
}

/// Number of entries whose alert was raised after `cutoff`.
pub open spec fn count_after_entries(entries: Seq<(String, Alert)>, cutoff: u64) -> nat
    decreases entries.len(),
{
    if entries.len() == 0 {
        0
    } else {
        count_after_entries(entries.drop_last(), cutoff) + if entries.last().1.timestamp > cutoff { 1nat } else { 0nat }
    }
}

/// A list with distinct keys stands for a map with one key per entry.
proof fn lemma_kv_map_len<V>(s: Seq<(String, V)>)
    requires
        kv_unique(s),
    ensures
        kv_map(s).dom().finite(),
        kv_map(s).dom().len() == s.len(),
    decreases s.len(),
{
    if s.len() == 0 {
        assert(kv_map(s).dom() =~= Set::<Seq<char>>::empty());
    } else {
        let t = s.drop_last();
        assert(kv_unique(t));
        lemma_kv_map_len(t);
        let k = s.last().0@;
        assert(!kv_map(t).dom().contains(k)) by {
            if crate::keyed::kv_has(t, k) {
                let j = crate::keyed::kv_index(t, k);
                assert(s[j].0@ == s[s.len() - 1].0@);
            }
        }
        assert(kv_map(s).dom() =~= kv_map(t).dom().insert(k)) by {
            assert forall|x: Seq<char>| kv_map(s).dom().contains(x) <==> kv_map(t).dom().insert(k).contains(x) by {
                if crate::keyed::kv_has(s, x) && x != k {
                    let j = crate::keyed::kv_index(s, x);
                    assert(j < s.len() - 1);
                    assert(t[j] == s[j]);
                }
                if crate::keyed::kv_has(t, x) {
                    let j = crate::keyed::kv_index(t, x);
                    assert(s[j] == t[j]);
                }
                if x == k {
                    assert(s[s.len() - 1].0@ == k);
                }
            }
        }
    }
}

/// The alerts left after dropping from the front those raised at or before
/// `cutoff`, stopping at the first later one.
pub open spec fn drop_expired(s: Seq<Alert>, cutoff: int) -> Seq<Alert>
    decreases s.len(),
{
    if s.len() > 0 && s[0].timestamp <= cutoff {
        drop_expired(s.drop_first(), cutoff)
    } else {
        s
    }
}

/// Number of alerts of the given severity.
pub open spec fn count_of_severity(s: Seq<Alert>, severity: AlertSeverity) -> nat
    decreases s.len(),
{
    if s.len() == 0 {
        0
    } else {
        count_of_severity(s.drop_last(), severity) + if s.last().severity == severity { 1nat } else { 0nat }
    }
}

/// Number of alerts of the given category.
pub open spec fn count_of_category(s: Seq<Alert>, category: Seq<char>) -> nat
    decreases s.len(),
{
    if s.len() == 0 {
        0
    } else {
        count_of_category(s.drop_last(), category) + if s.last().category@ == category { 1nat } else { 0nat }
    }
}

/// Number of resolved alerts whose resolution took less than `limit` seconds.
pub open spec fn count_resolved_within(s: Seq<Alert>, limit: u64) -> nat
    decreases s.len(),
{
    if s.len() == 0 {
        0
    } else {
        count_resolved_within(s.drop_last(), limit) + if resolved_within(s.last(), limit) { 1nat } else { 0nat }
    }
}

/// The alert is resolved, and its resolution took less than `limit` seconds.
pub open spec fn resolved_within(a: Alert, limit: u64) -> bool {
    a.resolved_at matches Some(t) && (if t >= a.timestamp { t - a.timestamp } else { 0 }) < limit
}

/// Resolution times, in seconds, of the resolved alerts, in order.
pub open spec fn resolution_times(s: Seq<Alert>) -> Seq<u64>
    decreases s.len(),
{
    if s.len() == 0 {
        Seq::empty()
    } else {
        let rest = resolution_times(s.drop_last());
        match s.last().resolved_at {
            Some(t) => rest.push(if t >= s.last().timestamp { (t - s.last().timestamp) as u64 } else { 0u64 }),
            None => rest,
        }
    }
}

proof fn lemma_count_of_severity_le(s: Seq<Alert>, severity: AlertSeverity)
    ensures
        count_of_severity(s, severity) <= s.len(),
    decreases s.len(),
{
    if s.len() > 0 {
        lemma_count_of_severity_le(s.drop_last(), severity);
    }
}

proof fn lemma_count_of_category_le(s: Seq<Alert>, category: Seq<char>)
    ensures
        count_of_category(s, category) <= s.len(),
    decreases s.len(),
{
    if s.len() > 0 {
        lemma_count_of_category_le(s.drop_last(), category);
    }
}

proof fn lemma_count_resolved_within_le(s: Seq<Alert>, limit: u64)
    ensures
        count_resolved_within(s, limit) <= s.len(),
    decreases s.len(),
{
    if s.len() > 0 {
        lemma_count_resolved_within_le(s.drop_last(), limit);
    }
}

/// A severity appears among the first components of the pairs.
pub open spec fn severity_listed(r: Seq<(AlertSeverity, usize)>, severity: AlertSeverity) -> bool {
    exists|i: int| 0 <= i < r.len() && (#[trigger] r[i]).0 == severity
}

/// The start of a retention period of `retention_days` days that ends at
/// `now`.
pub open spec fn retention_cutoff(retention_days: u32, now: u64) -> int {
    now - retention_days * 86400
}

/// The start of the `hours` hours before `now`, or the epoch.
pub open spec fn hours_cutoff(hours: u32, now: u64) -> u64 {
    if now >= hours * 3600 { (now - hours * 3600) as u64 } else { 0u64 }
}

/// Alert history with a retention period, oldest first.
pub struct AlertHistory {
    alerts: std::collections::VecDeque<Alert>,
    retention_days: u32,
}

impl AlertHistory {
    /// The alerts kept, oldest first.
    pub closed spec fn alerts(self) -> Seq<Alert> {
        self.alerts@
    }

    /// The retention period in days.
    pub closed spec fn retention(self) -> u32 {
        self.retention_days
    }

    pub fn new(retention_days: u32) -> (h: Self)
        ensures
            h.alerts().len() == 0,
            h.retention() == retention_days,
    {
        AlertHistory { alerts: std::collections::VecDeque::new(), retention_days }
    }

    /// Appends an alert, then drops the expired ones as of `now`.
    pub fn add_alert_at(&mut self, alert: Alert, now: u64)
        ensures
            final(self).retention() == old(self).retention(),
            final(self).alerts() == drop_expired(
                old(self).alerts().push(alert),
                now - old(self).retention() * 86400,
            ),
    {
        self.alerts.push_back(alert);
        self.cleanup_old_alerts_at(now);
    }

    /// Appends an alert, then drops the ones expired at the clock's current
    /// reading.
    pub fn add_alert(&mut self, alert: Alert)
        ensures
            final(self).retention() == old(self).retention(),
            exists|now: u64| final(self).alerts() == drop_expired(
                old(self).alerts().push(alert),
                #[trigger] retention_cutoff(old(self).retention(), now),
            ),
    {
        let ghost a = alert;
        let now = crate::clock::current_timestamp();
        self.add_alert_at(alert, now);
        assert(self.alerts() == drop_expired(old(self).alerts().push(a), retention_cutoff(old(self).retention(), now)));
    }

    /// Drops from the front the alerts raised at or before the start of the
    /// retention period that ends at `now`.
    pub fn cleanup_old_alerts_at(&mut self, now: u64)
        ensures
            final(self).retention() == old(self).retention(),
            final(self).alerts() == drop_expired(old(self).alerts(), now - old(self).retention() * 86400),
    {
        let window: u64 = self.retention_days as u64 * 86400;
        let ghost cutoff: int = now - self.retention_days * 86400;
        while self.alerts.len() > 0
            invariant
                window == self.retention_days * 86400,
                cutoff == now - self.retention_days * 86400,
                self.retention_days == old(self).retention_days,
                drop_expired(self.alerts@, cutoff) == drop_expired(old(self).alerts@, cutoff),
            ensures
                self.alerts@ == drop_expired(old(self).alerts@, cutoff),
            decreases self.alerts@.len(),
        {
            let expired = now >= window && self.alerts[0].timestamp <= now - window;
            if expired {
                let ghost before = self.alerts@;
                let _ = self.alerts.pop_front();
                assert(self.alerts@ =~= before.drop_first());
            } else {
                break;
            }
        }
    }

    /// Drops the alerts raised before the retention period that ends at the
    /// clock's current reading.
    pub fn cleanup_old_alerts(&mut self)
        ensures
            final(self).retention() == old(self).retention(),
            exists|now: u64| final(self).alerts() == drop_expired(old(self).alerts(), #[trigger] retention_cutoff(old(self).retention(), now)),
    {
        let now = crate::clock::current_timestamp();
        self.cleanup_old_alerts_at(now);
        assert(self.alerts() == drop_expired(old(self).alerts(), retention_cutoff(old(self).retention(), now)));
    }

    /// Number of alerts kept.
    pub fn total_count(&self) -> (r: usize)
        ensures
            r == self.alerts().len(),
    {
        self.alerts.len()
    }

    /// Number of alerts raised in the `hours` hours before `now`.
    pub fn count_alerts_in_last_hours_at(&self, hours: u32, now: u64) -> (r: usize)
        ensures
            r == count_after(self.alerts(), if now >= hours * 3600 { (now - hours * 3600) as u64 } else { 0u64 }),
    {
        let span: u64 = hours as u64 * 3600;
        let cutoff: u64 = if now >= span { now - span } else { 0 };
        let mut n: usize = 0;
        let mut i: usize = 0;
        while i < self.alerts.len()
            invariant
                i <= self.alerts@.len(),
                n == count_after(self.alerts@.take(i as int), cutoff),
            decreases self.alerts@.len() - i,
        {
            proof {
                assert(self.alerts@.take((i + 1) as int).drop_last() =~= self.alerts@.take(i as int));
                lemma_count_after_le(self.alerts@.take(i as int), cutoff);
            }
            if self.alerts[i].timestamp > cutoff {
                n = n + 1;
            }
            i = i + 1;
        }
        assert(self.alerts@.take(i as int) =~= self.alerts@);
        n
    }

    /// Number of alerts raised in the `hours` hours before the clock's
    /// current reading.
    pub fn count_alerts_in_last_hours(&self, hours: u32) -> (r: usize)
        ensures
            exists|now: u64| r == count_after(self.alerts(), #[trigger] hours_cutoff(hours, now)),
    {
        let now = crate::clock::current_timestamp();
        let r = self.count_alerts_in_last_hours_at(hours, now);
        assert(r == count_after(self.alerts(), hours_cutoff(hours, now)));
        r
    }

    /// The number of alerts of each severity that occurs, each severity
    /// once, in order of first occurrence.
    pub fn count_by_severity(&self) -> (r: Vec<(AlertSeverity, usize)>)
        ensures
            forall|s: AlertSeverity| severity_listed(r@, s) <==> count_of_severity(self.alerts(), s) > 0,
            forall|i: int| 0 <= i < r@.len() ==> (#[trigger] r@[i]).1 == count_of_severity(self.alerts(), r@[i].0),
            forall|i: int, j: int| 0 <= i < r@.len() && 0 <= j < r@.len() && i != j ==> r@[i].0 != r@[j].0,
    {
        let mut r: Vec<(AlertSeverity, usize)> = Vec::new();
        let mut i: usize = 0;
        while i < self.alerts.len()
            invariant
                i <= self.alerts@.len(),
                forall|s: AlertSeverity| severity_listed(r@, s) <==> count_of_severity(self.alerts@.take(i as int), s) > 0,
                forall|k: int| 0 <= k < r@.len() ==> (#[trigger] r@[k]).1 == count_of_severity(self.alerts@.take(i as int), r@[k].0),
                forall|a: int, b: int| 0 <= a < r@.len() && 0 <= b < r@.len() && a != b ==> r@[a].0 != r@[b].0,
            decreases self.alerts@.len() - i,
        {
            let sev = self.alerts[i].severity;
            let ghost pre = self.alerts@.take(i as int);
            let ghost post = self.alerts@.take((i + 1) as int);
            proof {
                assert(post.drop_last() =~= pre);
                assert(post.last() == self.alerts@[i as int]);
                lemma_count_of_severity_le(pre, sev);
            }
            let mut j: usize = 0;
            let mut found = false;
            while j < r.len()
                invariant_except_break
                    !found,
                invariant
                    j <= r@.len(),
                    forall|k: int| 0 <= k < j ==> (#[trigger] r@[k]).0 != sev,
                ensures
                    found ==> j < r@.len() && r@[j as int].0 == sev,
                    !found ==> forall|k: int| 0 <= k < r@.len() ==> (#[trigger] r@[k]).0 != sev,
                decreases r@.len() - j,
            {
                if r[j].0 == sev {
                    found = true;
                    break;
                }
                j = j + 1;
            }
            let ghost old_r = r@;
            if found {
                let c = r[j].1;
                r.set(j, (sev, c + 1));
                proof {
                    assert forall|s: AlertSeverity| severity_listed(r@, s) <==> count_of_severity(post, s) > 0 by {
                        if severity_listed(old_r, s) {
                            let k = choose|k: int| 0 <= k < old_r.len() && (#[trigger] old_r[k]).0 == s;
                            assert(r@[k].0 == s);
                        }
                        if severity_listed(r@, s) {
                            let k = choose|k: int| 0 <= k < r@.len() && (#[trigger] r@[k]).0 == s;
                            assert(old_r[k].0 == s);
                        }
                    }
                    assert forall|k: int| 0 <= k < r@.len() implies (#[trigger] r@[k]).1 == count_of_severity(post, r@[k].0) by {
                        if k != j {
                            assert(r@[k] == old_r[k]);
                        }
                    }
                }
            } else {
                r.push((sev, 1));
                proof {
                    assert forall|s: AlertSeverity| severity_listed(r@, s) <==> count_of_severity(post, s) > 0 by {
                        if severity_listed(old_r, s) {
                            let k = choose|k: int| 0 <= k < old_r.len() && (#[trigger] old_r[k]).0 == s;
                            assert(r@[k].0 == s);
                        }
                        if s == sev {
                            assert(r@[old_r.len() as int].0 == s);
                        }
                        if severity_listed(r@, s) && s != sev {
                            let k = choose|k: int| 0 <= k < r@.len() && (#[trigger] r@[k]).0 == s;
                            assert(k < old_r.len());
                            assert(old_r[k].0 == s);
                        }
                    }
                    assert forall|k: int| 0 <= k < r@.len() implies (#[trigger] r@[k]).1 == count_of_severity(post, r@[k].0) by {
                        if k < old_r.len() {
                            assert(r@[k] == old_r[k]);
                        } else {
                            assert(!severity_listed(old_r, sev));
                        }
                    }
                }
            }
            i = i + 1;
        }
        assert(self.alerts@.take(i as int) =~= self.alerts@);
        r
    }

    /// The number of alerts of each category that occurs, by category.
    pub fn count_by_category(&self) -> (r: Vec<(String, usize)>)
        ensures
            kv_unique(r@),
            forall|c: Seq<char>| #[trigger] kv_map(r@).contains_key(c) <==> count_of_category(self.alerts(), c) > 0,
            forall|c: Seq<char>| #[trigger] kv_map(r@).contains_key(c) ==> kv_map(r@)[c] == count_of_category(self.alerts(), c),
    {
        let mut r: Vec<(String, usize)> = Vec::new();
        let mut i: usize = 0;
        assert(kv_map(r@) =~= Map::<Seq<char>, usize>::empty());
        while i < self.alerts.len()
            invariant
                i <= self.alerts@.len(),
                kv_unique(r@),
                forall|c: Seq<char>| #[trigger] kv_map(r@).contains_key(c) <==> count_of_category(self.alerts@.take(i as int), c) > 0,
                forall|c: Seq<char>| #[trigger] kv_map(r@).contains_key(c) ==> kv_map(r@)[c] == count_of_category(self.alerts@.take(i as int), c),
            decreases self.alerts@.len() - i,
        {
            let ghost pre = self.alerts@.take(i as int);
            let ghost post = self.alerts@.take((i + 1) as int);
            let cat = &self.alerts[i].category;
            proof {
                assert(post.drop_last() =~= pre);
                assert(post.last() == self.alerts@[i as int]);
                lemma_count_of_category_le(pre, cat@);
            }
            let ghost old_map = kv_map(r@);
            match kv_find(&r, cat.as_str()) {
                Some(j) => {
                    proof {
                        lemma_kv_index_unique(r@, j as int);
                    }
                    let c = r[j].1;
                    kv_set(&mut r, j, c + 1);
                },
                None => {
                    proof {
                        assert(!old_map.contains_key(cat@));
                    }
                    kv_put(&mut r, cat.as_str(), 1);
                },
            }
            proof {
                assert forall|c: Seq<char>| #[trigger] kv_map(r@).contains_key(c) <==> count_of_category(post, c) > 0 by {
                    if c != cat@ {
                        assert(old_map.contains_key(c) == kv_map(r@).contains_key(c));
                    }
                }
            }
            i = i + 1;
        }
        assert(self.alerts@.take(i as int) =~= self.alerts@);
        r
    }

    /// Resolution times, in seconds, of the resolved alerts, oldest first.
    pub fn resolution_times_seconds(&self) -> (r: Vec<u64>)
        ensures
            r@ == resolution_times(self.alerts()),
    {
        let mut r: Vec<u64> = Vec::new();
        let mut i: usize = 0;
        while i < self.alerts.len()
            invariant
                i <= self.alerts@.len(),
                r@ == resolution_times(self.alerts@.take(i as int)),
            decreases self.alerts@.len() - i,
        {
            proof {
                assert(self.alerts@.take((i + 1) as int).drop_last() =~= self.alerts@.take(i as int));
            }
            match self.alerts[i].resolution_time_seconds() {
                Some(t) => r.push(t),
                None => {},
            }
            i = i + 1;
        }
        assert(self.alerts@.take(i as int) =~= self.alerts@);
        r
    }

    /// Number of alerts resolved within a minute of being raised, the
    /// history's likely false positives.
    pub fn quickly_resolved_count(&self) -> (r: usize)
        ensures
            r == count_resolved_within(self.alerts(), 60),
    {
        let mut n: usize = 0;
        let mut i: usize = 0;
        while i < self.alerts.len()
            invariant
                i <= self.alerts@.len(),
                n == count_resolved_within(self.alerts@.take(i as int), 60),
            decreases self.alerts@.len() - i,
        {
            proof {
                assert(self.alerts@.take((i + 1) as int).drop_last() =~= self.alerts@.take(i as int));
                lemma_count_resolved_within_le(self.alerts@.take(i as int), 60);
            }
            match self.alerts[i].resolution_time_seconds() {
                Some(t) => {
                    if t < 60 {
                        n = n + 1;
                    }
                },
                None => {},
            }
            i = i + 1;
        }
        assert(self.alerts@.take(i as int) =~= self.alerts@);
        n
    }
}

/// The severities added at least once, from the lowest to the highest, each
/// with its count.
pub open spec fn nonzero_severities(c: SeverityCounts) -> Seq<(AlertSeverity, u64)> {
    let one = |s: AlertSeverity| if c.of(s) > 0 { seq![(s, c.of(s))] } else { Seq::<(AlertSeverity, u64)>::empty() };
    one(AlertSeverity::Info) + one(AlertSeverity::Low) + one(AlertSeverity::Medium) + one(AlertSeverity::High)
        + one(AlertSeverity::Critical)
}

/// The counters behind the alert statistics; the average resolution time
/// and the false positive rate are computed from them by the caller.
#[derive(Debug)]
pub struct AlertStatisticsCounts {
    pub total_alerts_processed: u64,
    pub active_alerts: usize,
    pub alerts_last_hour: usize,
    pub alerts_last_24_hours: usize,
    pub alerts_by_severity: Vec<(AlertSeverity, u64)>,
    pub alerts_by_category: Vec<(String, u64)>,
    pub resolution_times_seconds: Vec<u64>,
    pub total_auto_resolved: u64,
}

fn push_if_counted(v: &mut Vec<(AlertSeverity, u64)>, severity: AlertSeverity, n: u64)
    ensures
        final(v)@ == old(v)@ + (if n > 0 { seq![(severity, n)] } else { Seq::<(AlertSeverity, u64)>::empty() }),
{
    if n > 0 {
        v.push((severity, n));
    } else {
        assert(old(v)@ + Seq::<(AlertSeverity, u64)>::empty() =~= old(v)@);
    }
}

fn resolution_times_of(alerts: &Vec<Alert>) -> (r: Vec<u64>)
    ensures
        r@ == resolution_times(alerts@),
{
    let mut r: Vec<u64> = Vec::new();
    let mut i: usize = 0;
    while i < alerts.len()
        invariant
            i <= alerts@.len(),
            r@ == resolution_times(alerts@.take(i as int)),
        decreases alerts@.len() - i,
    {
        proof {
            assert(alerts@.take((i + 1) as int).drop_last() =~= alerts@.take(i as int));
        }
        match alerts[i].resolution_time_seconds() {
            Some(t) => r.push(t),
            None => {},
        }
        i = i + 1;
    }
    assert(alerts@.take(i as int) =~= alerts@);
    r
}

fn clone_counts(v: &Vec<(String, u64)>) -> (r: Vec<(String, u64)>)
    ensures
        r@.len() == v@.len(),
        forall|i: int| 0 <= i < v@.len() ==> (#[trigger] r@[i]).0@ == v@[i].0@ && r@[i].1 == v@[i].1,
{
    let mut r: Vec<(String, u64)> = Vec::new();
    let mut i: usize = 0;
    while i < v.len()
        invariant
            i <= v@.len(),
            r@.len() == i,
            forall|k: int| 0 <= k < i ==> (#[trigger] r@[k]).0@ == v@[k].0@ && r@[k].1 == v@[k].1,
        decreases v@.len() - i,
    {
        r.push((v[i].0.clone(), v[i].1));
        i = i + 1;
    }
    r
}

impl AlertStateManager {
    /// The statistics counters at `now`: alerts processed, active and raised
    /// in the last hour and day; the severities and categories counted, with
    /// their counts; the resolution times of the resolved alerts kept; the
    /// alerts resolved for staleness.
    pub fn get_statistics_at(&self, now: u64) -> (s: AlertStatisticsCounts)
        ensures
            s.total_alerts_processed == self.processed(),
            s.active_alerts == self.active_alerts().dom().len(),
            ({
                let day_cutoff = if now >= 86400 { (now - 86400) as u64 } else { 0u64 };
                let hour_cutoff = if now >= 3600 { (now - 3600) as u64 } else { 0u64 };
                self.active_entries().len() + self.resolved_alerts().len() <= usize::MAX ==> {
                    &&& s.alerts_last_hour == count_after(self.resolved_alerts(), hour_cutoff)
                        + count_after_entries(self.active_entries(), hour_cutoff)
                    &&& s.alerts_last_24_hours == count_after(self.resolved_alerts(), day_cutoff)
                        + count_after_entries(self.active_entries(), day_cutoff)
                }
            }),
            s.alerts_by_severity@ == nonzero_severities(self.by_severity()),
            kv_unique(s.alerts_by_category@),
            kv_map(s.alerts_by_category@) == self.by_category(),
            s.resolution_times_seconds@ == resolution_times(self.resolved_alerts()),
            s.total_auto_resolved == self.auto_resolved(),
    {
        proof {
            use_type_invariant(self);
            lemma_kv_map_len(self.active@);
        }
        let c = self.severity_counts;
        let mut by_severity: Vec<(AlertSeverity, u64)> = Vec::new();
        push_if_counted(&mut by_severity, AlertSeverity::Info, c.info);
        push_if_counted(&mut by_severity, AlertSeverity::Low, c.low);
        push_if_counted(&mut by_severity, AlertSeverity::Medium, c.medium);
        push_if_counted(&mut by_severity, AlertSeverity::High, c.high);
        push_if_counted(&mut by_severity, AlertSeverity::Critical, c.critical);
        assert(by_severity@ =~= nonzero_severities(c));
        let by_category = clone_counts(&self.category_counts);
        proof {
            let a = by_category@;
            let b = self.category_counts@;
            assert(kv_unique(a)) by {
                assert forall|i: int, j: int| 0 <= i < a.len() && 0 <= j < a.len() && i != j implies a[i].0@ != a[j].0@ by {
                    assert(a[i].0@ == b[i].0@ && a[j].0@ == b[j].0@);
                }
            }
            assert forall|k: Seq<char>| #[trigger] kv_map(a).contains_key(k) <==> kv_map(b).contains_key(k) by {
                if crate::keyed::kv_has(a, k) {
                    let i = crate::keyed::kv_index(a, k);
                    assert(b[i].0@ == k);
                }
                if crate::keyed::kv_has(b, k) {
                    let i = crate::keyed::kv_index(b, k);
                    assert(a[i].0@ == k);
                }
            }
            assert forall|k: Seq<char>| #[trigger] kv_map(a).contains_key(k) implies kv_map(a)[k] == kv_map(b)[k] by {
                let i = crate::keyed::kv_index(a, k);
                lemma_kv_index_unique(a, i);
                assert(b[i].0@ == k);
                lemma_kv_index_unique(b, i);
            }
            assert(kv_map(a) =~= kv_map(b));
        }
        AlertStatisticsCounts {
            total_alerts_processed: self.total_processed,
            active_alerts: self.active.len(),
            alerts_last_hour: self.count_alerts_in_last_hours_at(1, now),
            alerts_last_24_hours: self.count_alerts_in_last_hours_at(24, now),
            alerts_by_severity: by_severity,
            alerts_by_category: by_category,
            resolution_times_seconds: resolution_times_of(&self.resolved),
            total_auto_resolved: self.total_auto_resolved,
        }
    }

    /// The statistics counters at the clock's current reading, as
    /// `get_statistics_at` gives them.
    pub fn get_statistics(&self) -> (s: AlertStatisticsCounts)
        ensures
            s.total_alerts_processed == self.processed(),
            s.active_alerts == self.active_alerts().dom().len(),
            s.alerts_by_severity@ == nonzero_severities(self.by_severity()),
            kv_unique(s.alerts_by_category@),
            kv_map(s.alerts_by_category@) == self.by_category(),
            s.resolution_times_seconds@ == resolution_times(self.resolved_alerts()),
            s.total_auto_resolved == self.auto_resolved(),
            self.active_entries().len() + self.resolved_alerts().len() <= usize::MAX ==> exists|now: u64|
                #[trigger] windows_counted(*self, s.alerts_last_hour, s.alerts_last_24_hours, now),
    {
        let now = crate::clock::current_timestamp();
        let s = self.get_statistics_at(now);
        proof {
            if self.active_entries().len() + self.resolved_alerts().len() <= usize::MAX {
                assert(windows_counted(*self, s.alerts_last_hour, s.alerts_last_24_hours, now));
            }
        }
        s
    }
}

} // verus!
