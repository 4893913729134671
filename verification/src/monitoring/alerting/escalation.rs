//! Alert escalation: unresolved alerts move to higher escalation levels,
//! and so to more channels, after the delays their rules set, or by hand;
//! an acknowledgment holds escalation back for a while.
//!
//! Times are seconds since the Unix epoch; each operation that depends on
//! the time has a form taking `now` and one that reads the clock.

use vstd::prelude::*;
use crate::clock::current_timestamp;
use crate::keyed::{kv_find, kv_map, kv_put, kv_remove, kv_set, kv_unique, lemma_kv_index_unique};
use crate::monitoring::alerting::alert_types::{
    clone_strings, severity_rank, Alert, AlertSeverity, AlertingError, EscalationConfig, EscalationRule,
};
use crate::text::{concat_str, decimal, decimal_string};

verus! {

/// Reasons for escalation.
#[derive(Debug, Clone, Copy, PartialEq, Eq, Structural)]
pub enum EscalationReason {
    TimeoutExpired,
    SeverityIncrease,
    ManualEscalation,
    NoAcknowledgment,
    RepeatOffender,
}

/// Name of a reason as it appears in escalation messages.
pub open spec fn reason_name(r: EscalationReason) -> Seq<char> {
    match r {
        EscalationReason::TimeoutExpired => "TimeoutExpired"@,
        EscalationReason::SeverityIncrease => "SeverityIncrease"@,
        EscalationReason::ManualEscalation => "ManualEscalation"@,
        EscalationReason::NoAcknowledgment => "NoAcknowledgment"@,
        EscalationReason::RepeatOffender => "RepeatOffender"@,
    }
}

fn reason_text(r: EscalationReason) -> (s: &'static str)
    ensures
        s@ == reason_name(r),
{
    match r {
        EscalationReason::TimeoutExpired => "TimeoutExpired",
        EscalationReason::SeverityIncrease => "SeverityIncrease",
        EscalationReason::ManualEscalation => "ManualEscalation",
        EscalationReason::NoAcknowledgment => "NoAcknowledgment",
        EscalationReason::RepeatOffender => "RepeatOffender",
    }
}

/// Acknowledgment of an alert.
#[derive(Debug)]
pub struct Acknowledgment {
    pub acknowledger: String,
    pub timestamp: u64,
    pub message: Option<String>,
}

impl Clone for Acknowledgment {
    fn clone(&self) -> (r: Self)
        ensures
            r == *self,
    {
        Acknowledgment {
            acknowledger: self.acknowledger.clone(),
            timestamp: self.timestamp,
            message: match &self.message {
                Some(m) => Some(m.clone()),
                None => None,
            },
        }
    }
}

/// Escalation state of one tracked alert.
#[derive(Debug)]
pub struct EscalationState {
    pub alert_id: String,
    pub current_level: u32,
    pub first_escalated_at: u64,
    pub last_escalated_at: u64,
    pub escalation_count: u32,
    pub acknowledgments: Vec<Acknowledgment>,
}

/// Record of an escalation event.
#[derive(Debug)]
pub struct EscalationRecord {
    pub alert_id: String,
    pub alert_name: String,
    pub from_level: u32,
    pub to_level: u32,
    pub escalated_at: u64,
    pub reason: EscalationReason,
    pub channels_notified: Vec<String>,
}

/// Current escalation status for an alert.
#[derive(Debug)]
pub struct EscalationStatus {
    pub alert_id: String,
    pub current_level: u32,
    pub escalation_count: u32,
    pub first_escalated_at: u64,
    pub last_escalated_at: u64,
    pub acknowledgments: Vec<Acknowledgment>,
    pub next_escalation_at: Option<u64>,
}

/// Escalation statistics: the number of escalations, and how many reached
/// each level, came from each reason and concerned each alert (by name), in
/// the order each was first seen.
#[derive(Debug)]
pub struct EscalationStats {
    pub total_escalations: usize,
    pub escalations_by_level: Vec<(u32, usize)>,
    pub escalations_by_reason: Vec<(EscalationReason, usize)>,
    pub escalations_by_alert: Vec<(String, usize)>,
}

/// Some entry of a list of level counts is for `level`.
pub open spec fn lists_level(levels: Seq<(u32, usize)>, level: u32) -> bool {
    exists|a: int| 0 <= a < levels.len() && (#[trigger] levels[a]).0 == level
}

/// Index of the first of the first `n` rules for `level`.
pub open spec fn find_rule_upto(rules: Seq<EscalationRule>, level: u32, n: int) -> Option<int>
    decreases n,
{
    if n <= 0 {
        None
    } else {
        match find_rule_upto(rules, level, n - 1) {
            Some(i) => Some(i),
            None => if rules[n - 1].level == level { Some(n - 1) } else { None },
        }
    }
}

/// Index of the first rule for `level`.
pub open spec fn find_rule(rules: Seq<EscalationRule>, level: u32) -> Option<int> {
    find_rule_upto(rules, level, rules.len() as int)
}

proof fn lemma_find_rule_upto(rules: Seq<EscalationRule>, level: u32, n: int)
    requires
        0 <= n <= rules.len(),
    ensures
        find_rule_upto(rules, level, n) matches Some(i) ==> 0 <= i < n && rules[i].level == level,
        find_rule_upto(rules, level, n) is None ==> forall|j: int| 0 <= j < n ==> rules[j].level != level,
    decreases n,
{
    if n > 0 {
        lemma_find_rule_upto(rules, level, n - 1);
    }
}

/// Severity after escalation to `level`: info and low alerts become medium
/// from level 2, medium ones high from level 3, high ones critical from
/// level 4; other alerts keep their severity.
pub open spec fn escalated_severity(current: AlertSeverity, level: u32) -> AlertSeverity {
    match current {
        AlertSeverity::Info | AlertSeverity::Low => if level >= 2 { AlertSeverity::Medium } else { current },
        AlertSeverity::Medium => if level >= 3 { AlertSeverity::High } else { current },
        AlertSeverity::High => if level >= 4 { AlertSeverity::Critical } else { current },
        AlertSeverity::Critical => current,
    }
}

/// Escalation never lowers a severity, and never raises it by more than a step.
pub proof fn lemma_escalation_raises_severity(current: AlertSeverity, level: u32)
    ensures
        severity_rank(current) <= severity_rank(escalated_severity(current, level)),
        severity_rank(escalated_severity(current, level)) <= severity_rank(current) + 2,
        escalated_severity(current, level) == AlertSeverity::Critical ==> current == AlertSeverity::High
            || current == AlertSeverity::Critical,
{
}

/// Info and low alerts escalate alike, and an alert below medium reaches
/// medium exactly from level 2; a medium alert reaches high exactly from
/// level 3, a high alert critical exactly from level 4, and a critical
/// alert stays critical. A higher level never gives a lower severity.
pub proof fn lemma_escalation_levels(current: AlertSeverity, level: u32, higher: u32)
    requires
        level <= higher,
    ensures
        (escalated_severity(AlertSeverity::Info, level) == AlertSeverity::Medium) <==> (escalated_severity(
            AlertSeverity::Low,
            level,
        ) == AlertSeverity::Medium),
        severity_rank(current) < 3 ==> (escalated_severity(current, level) == AlertSeverity::Medium <==> level >= 2),
        severity_rank(current) < 3 && level < 2 ==> escalated_severity(current, level) == current,
        current == AlertSeverity::Medium ==> (escalated_severity(current, level) == AlertSeverity::High <==> level >= 3),
        current == AlertSeverity::High ==> (escalated_severity(current, level) == AlertSeverity::Critical <==> level >= 4),
        current == AlertSeverity::Critical ==> escalated_severity(current, level) == AlertSeverity::Critical,
        severity_rank(escalated_severity(current, level)) <= severity_rank(escalated_severity(current, higher)),
{
    match current {
        AlertSeverity::Info => {},
        AlertSeverity::Low => {},
        AlertSeverity::Medium => {},
        AlertSeverity::High => {},
        AlertSeverity::Critical => {},
    }
}

/// A severity meets a rule's filter when the rule has one and the severity
/// reaches it.
pub open spec fn meets_filter(severity: AlertSeverity, filter: Option<AlertSeverity>) -> bool {
    filter matches Some(min) && severity_rank(severity) >= severity_rank(min)
}

/// Escalation of an alert not yet tracked: to level 1 when some level-1
/// rule's severity filter is met.
pub open spec fn new_alert_escalation(rules: Seq<EscalationRule>, severity: AlertSeverity) -> Option<(u32, EscalationReason)> {
    if exists|i: int| 0 <= i < rules.len() && #[trigger] rules[i].level == 1 && meets_filter(severity, rules[i].severity_filter) {
        Some((1u32, EscalationReason::SeverityIncrease))
    } else {
        None
    }
}

/// Seconds from `from` to `to`, 0 when `to` is earlier.
pub open spec fn elapsed(from: u64, to: u64) -> int {
    if to >= from { to - from } else { 0 }
}

/// Escalation of a tracked alert at `now`: none while the last
/// acknowledgment is more recent than the escalation delay or at the
/// maximum level; otherwise to the next level once its rule's delay has
/// passed since the last escalation, when the rule has no severity filter
/// or the alert meets it.
pub open spec fn tracked_alert_escalation(
    cfg: EscalationConfig,
    state: EscalationState,
    severity: AlertSeverity,
    now: u64,
) -> Option<(u32, EscalationReason)> {
    let acks = state.acknowledgments@;
    if acks.len() > 0 && elapsed(acks.last().timestamp, now) < cfg.escalation_delay_minutes * 60 {
        None
    } else if state.current_level >= cfg.max_escalation_level {
        None
    } else {
        let next = (state.current_level + 1) as u32;
        match find_rule(cfg.escalation_rules@, next) {
            None => None,
            Some(i) => {
                let rule = cfg.escalation_rules@[i];
                if elapsed(state.last_escalated_at, now) >= rule.delay_minutes * 60 && (rule.severity_filter is None
                    || meets_filter(severity, rule.severity_filter)) {
                    Some((next, EscalationReason::TimeoutExpired))
                } else {
                    None
                }
            },
        }
    }
}

/// Channels notified at `level`: those of its first rule, none without one.
pub open spec fn level_channels(rules: Seq<EscalationRule>, level: u32) -> Seq<String> {
    match find_rule(rules, level) {
        Some(i) => rules[i].channels@,
        None => seq![],
    }
}

/// Tracking state after an escalation to `level` at `now`.
pub open spec fn escalated_state(old: Option<EscalationState>, id: Seq<char>, level: u32, now: u64, s: EscalationState) -> bool {
    &&& s.alert_id@ == id
    &&& s.current_level == level
    &&& s.last_escalated_at == now
    &&& match old {
        Some(o) => {
            &&& s.first_escalated_at == o.first_escalated_at
            &&& s.escalation_count == (if o.escalation_count < u32::MAX { o.escalation_count + 1 } else { 0 })
            &&& s.acknowledgments@ == o.acknowledgments@
        },
        None => {
            &&& s.first_escalated_at == now
            &&& s.escalation_count == 1
            &&& s.acknowledgments@.len() == 0
        },
    }
}

/// Number of records escalated to `level`.
pub open spec fn count_level(h: Seq<EscalationRecord>, level: u32) -> nat
    decreases h.len(),
{
    if h.len() == 0 {
        0
    } else {
        count_level(h.drop_last(), level) + if h.last().to_level == level { 1nat } else { 0nat }
    }
}

/// Number of records escalated for `reason`.
pub open spec fn count_reason(h: Seq<EscalationRecord>, reason: EscalationReason) -> nat
    decreases h.len(),
{
    if h.len() == 0 {
        0
    } else {
        count_reason(h.drop_last(), reason) + if h.last().reason == reason { 1nat } else { 0nat }
    }
}

/// Number of records of the alert named `name`.
pub open spec fn count_name(h: Seq<EscalationRecord>, name: Seq<char>) -> nat
    decreases h.len(),
{
    if h.len() == 0 {
        0
    } else {
        count_name(h.drop_last(), name) + if h.last().alert_name@ == name { 1nat } else { 0nat }
    }
}

proof fn lemma_count_le(h: Seq<EscalationRecord>, level: u32, reason: EscalationReason, name: Seq<char>)
    ensures
        count_level(h, level) <= h.len(),
        count_reason(h, reason) <= h.len(),
        count_name(h, name) <= h.len(),
    decreases h.len(),
{
    if h.len() > 0 {
        lemma_count_le(h.drop_last(), level, reason, name);
    }
}

/// `new` and `r` are what checking `alert` for escalation at `now` in
/// `old` gives (see `EscalationManager::check_escalation_at`).
pub open spec fn escalation_checked(old: EscalationManager, new: EscalationManager, alert: Alert, now: u64, r: Result<Option<Alert>, AlertingError>) -> bool {
    &&& r is Ok
    &&& new.cfg() == old.cfg()
    &&& ({
        let decision = if !old.cfg().enable_escalation {
            None
        } else if old.escalation_states().contains_key(alert.id@) {
            tracked_alert_escalation(old.cfg(), old.escalation_states()[alert.id@], alert.severity, now)
        } else {
            new_alert_escalation(old.cfg().escalation_rules@, alert.severity)
        };
        match decision {
            None => r matches Ok(None) && new.escalation_states() == old.escalation_states()
                && new.records() == old.records(),
            Some((level, reason)) => {
                let from = if old.escalation_states().contains_key(alert.id@) {
                    old.escalation_states()[alert.id@].current_level
                } else {
                    0u32
                };
                &&& r matches Ok(Some(a)) && a.id == alert.id && a.name == alert.name
                    && a.severity == escalated_severity(alert.severity, level)
                    && a.description@ == alert.description@ + " [ESCALATED to level "@ + decimal(level as nat)
                    + " - "@ + reason_name(reason) + "]"@
                &&& new.escalation_states().dom() == old.escalation_states().dom().insert(alert.id@)
                &&& escalated_state(
                    if old.escalation_states().contains_key(alert.id@) { Some(old.escalation_states()[alert.id@]) } else { None },
                    alert.id@,
                    level,
                    now,
                    new.escalation_states()[alert.id@],
                )
                &&& new.records().len() == old.records().len() + 1
                &&& new.records().drop_last() == old.records()
                &&& new.records().last().alert_id == alert.id
                &&& new.records().last().alert_name == alert.name
                &&& new.records().last().from_level == from
                &&& new.records().last().to_level == level
                &&& new.records().last().escalated_at == now
                &&& new.records().last().reason == reason
                &&& new.records().last().channels_notified@ == level_channels(
                    old.cfg().escalation_rules@,
                    level,
                )
            },
        }
    })
    &&& forall|k: Seq<char>| k != alert.id@ && #[trigger] old.escalation_states().contains_key(k) ==> new.escalation_states()[k]
        == old.escalation_states()[k]
}

/// `new` and `r` are what escalating `alert` by hand to `target_level` at
/// `now` in `old` gives (see `EscalationManager::manual_escalation_at`).
pub open spec fn manually_escalated(old: EscalationManager, new: EscalationManager, alert: Alert, target_level: u32, escalator: Seq<char>, now: u64, r: Result<Alert, AlertingError>) -> bool {
    &&& new.cfg() == old.cfg()
    &&& ({
        let current = if old.escalation_states().contains_key(alert.id@) {
            old.escalation_states()[alert.id@].current_level
        } else {
            0u32
        };
        &&& target_level > old.cfg().max_escalation_level ==> (r matches Err(AlertingError::ConfigurationError(m))
            && m@ == "Target level "@ + decimal(target_level as nat) + " exceeds maximum level "@
            + decimal(old.cfg().max_escalation_level as nat))
        &&& target_level <= old.cfg().max_escalation_level && target_level <= current ==> (r matches Err(
            AlertingError::ConfigurationError(m),
        ) && m@ == "Cannot escalate to level "@ + decimal(target_level as nat) + " from current level "@
            + decimal(current as nat))
        &&& r is Err ==> new.escalation_states() == old.escalation_states() && new.records() == old.records()
        &&& r is Ok <==> (target_level <= old.cfg().max_escalation_level && target_level > current)
        &&& r matches Ok(a) ==> {
            &&& a.id == alert.id
            &&& a.severity == alert.severity
            &&& a.description@ == alert.description@ + " [ESCALATED by "@ + escalator + " to level "@ + decimal(
                target_level as nat,
            ) + "]"@
            &&& new.escalation_states().dom() == old.escalation_states().dom().insert(alert.id@)
            &&& escalated_state(
                if old.escalation_states().contains_key(alert.id@) { Some(old.escalation_states()[alert.id@]) } else { None },
                alert.id@,
                target_level,
                now,
                new.escalation_states()[alert.id@],
            )
            &&& new.records().len() == old.records().len() + 1
            &&& new.records().drop_last() == old.records()
            &&& new.records().last().from_level == current
            &&& new.records().last().to_level == target_level
            &&& new.records().last().escalated_at == now
            &&& new.records().last().reason == EscalationReason::ManualEscalation
        }
    })
    &&& forall|k: Seq<char>| k != alert.id@ && #[trigger] old.escalation_states().contains_key(k) ==> new.escalation_states()[k]
        == old.escalation_states()[k]
}

/// `new` is `old` after dropping the records and states not newer than
/// `retention_days` days before `now` (see
/// `EscalationManager::cleanup_old_records_at`).
pub open spec fn records_cleaned(old: EscalationManager, new: EscalationManager, retention_days: u32, now: u64) -> bool {
    &&& ({
        let cutoff = retention_cutoff(retention_days, now);
        &&& new.records() == records_after(old.records(), cutoff)
        &&& forall|k: Seq<char>| #[trigger] new.escalation_states().contains_key(k) <==> old.escalation_states().contains_key(k)
            && old.escalation_states()[k].last_escalated_at > cutoff
        &&& forall|k: Seq<char>| #[trigger] new.escalation_states().contains_key(k) ==> new.escalation_states()[k]
            == old.escalation_states()[k]
    })
    &&& new.cfg() == old.cfg()
}

/// The acknowledgment by `acknowledger` at `now` with `message`.
pub open spec fn acknowledgment_at(acknowledger: String, now: u64, message: Option<String>) -> Acknowledgment {
    Acknowledgment { acknowledger, timestamp: now, message }
}

/// Escalation manager: the configuration, the escalation state of each
/// tracked alert and the history of escalations.
pub struct EscalationManager {
    config: EscalationConfig,
    states: Vec<(String, EscalationState)>,
    history: Vec<EscalationRecord>,
}

impl EscalationManager {
    #[verifier::type_invariant]
    spec fn inv(self) -> bool {
        &&& kv_unique(self.states@)
        &&& forall|i: int| 0 <= i < self.states@.len() ==> (#[trigger] self.states@[i]).1.alert_id@ == self.states@[i].0@
    }

    /// The configuration.
    pub closed spec fn cfg(self) -> EscalationConfig {
        self.config
    }

    /// Escalation state of each tracked alert, by alert id.
    pub closed spec fn escalation_states(self) -> Map<Seq<char>, EscalationState> {
        kv_map(self.states@)
    }

    /// The escalations so far, oldest first.
    pub closed spec fn records(self) -> Seq<EscalationRecord> {
        self.history@
    }

    /// A manager with the given configuration, tracking nothing.
    pub fn new(config: EscalationConfig) -> (m: Self)
        ensures
            m.cfg() == config,
            m.escalation_states() == Map::<Seq<char>, EscalationState>::empty(),
            m.records().len() == 0,
    {
        let m = EscalationManager { config, states: Vec::new(), history: Vec::new() };
        assert(kv_map(m.states@) =~= Map::<Seq<char>, EscalationState>::empty());
        m
    }

    /// Index of the first rule for `level`.
    fn find_escalation_rule(&self, level: u32) -> (r: Option<usize>)
        ensures
            r matches Some(i) ==> find_rule(self.config.escalation_rules@, level) == Some(i as int)
                && i < self.config.escalation_rules@.len(),
            r is None ==> find_rule(self.config.escalation_rules@, level) is None,
    {
        let rules = &self.config.escalation_rules;
        let mut i: usize = 0;
        while i < rules.len()
            invariant
                rules@ == self.config.escalation_rules@,
                i <= rules.len(),
                find_rule_upto(rules@, level, i as int) is None,
            decreases rules.len() - i,
        {
            if rules[i].level == level {
                assert(find_rule_upto(rules@, level, (i + 1) as int) == Some(i as int));
                proof {
                    lemma_find_rule_extends(rules@, level, (i + 1) as int, rules@.len() as int);
                }
                return Some(i);
            }
            i = i + 1;
        }
        None
    }

    /// Notification channels for an escalation level.
    fn get_channels_for_level(&self, level: u32) -> (r: Vec<String>)
        ensures
            r@ == level_channels(self.config.escalation_rules@, level),
    {
        match self.find_escalation_rule(level) {
            Some(i) => clone_strings(&self.config.escalation_rules[i].channels),
            None => Vec::new(),
        }
    }

    /// Severity of an alert escalated to `level`.
    pub fn escalate_severity(&self, current: AlertSeverity, level: u32) -> (r: AlertSeverity)
        ensures
            r == escalated_severity(current, level),
    {
        match current {
            AlertSeverity::Info | AlertSeverity::Low => if level >= 2 { AlertSeverity::Medium } else { current },
            AlertSeverity::Medium => if level >= 3 { AlertSeverity::High } else { current },
            AlertSeverity::High => if level >= 4 { AlertSeverity::Critical } else { current },
            AlertSeverity::Critical => current,
        }
    }

    /// Escalation due for an alert that is not tracked yet.
    fn should_escalate_new(&self, alert: &Alert) -> (r: Option<(u32, EscalationReason)>)
        ensures
            r == new_alert_escalation(self.config.escalation_rules@, alert.severity),
    {
        let rules = &self.config.escalation_rules;
        let mut i: usize = 0;
        while i < rules.len()
            invariant
                rules@ == self.config.escalation_rules@,
                i <= rules.len(),
                forall|j: int| 0 <= j < i ==> !(#[trigger] rules@[j].level == 1 && meets_filter(alert.severity, rules@[j].severity_filter)),
            decreases rules.len() - i,
        {
            match rules[i].severity_filter {
                Some(min_severity) => {
                    if alert.severity.at_least(min_severity) && rules[i].level == 1 {
                        return Some((rules[i].level, EscalationReason::SeverityIncrease));
                    }
                },
                None => {},
            }
            i = i + 1;
        }
        None
    }

    /// Escalation due at `now` for a tracked alert.
    fn should_escalate_existing(&self, state: &EscalationState, alert: &Alert, now: u64) -> (r: Option<(u32, EscalationReason)>)
        ensures
            r == tracked_alert_escalation(self.config, *state, alert.severity, now),
    {
        let delay_secs: u64 = self.config.escalation_delay_minutes as u64 * 60;
        let n = state.acknowledgments.len();
        if n > 0 {
            let last_ack = state.acknowledgments[n - 1].timestamp;
            let since_ack: u64 = if now >= last_ack { now - last_ack } else { 0 };
            if since_ack < delay_secs {
                return None;
            }
        }
        if state.current_level >= self.config.max_escalation_level {
            return None;
        }
        let next_level = state.current_level + 1;
        match self.find_escalation_rule(next_level) {
            None => None,
            Some(i) => {
                let rule = &self.config.escalation_rules[i];
                let since_last: u64 = if now >= state.last_escalated_at { now - state.last_escalated_at } else { 0 };
                let required: u64 = rule.delay_minutes as u64 * 60;
                if since_last >= required {
                    match rule.severity_filter {
                        Some(min_severity) => {
                            if alert.severity.at_least(min_severity) {
                                Some((next_level, EscalationReason::TimeoutExpired))
                            } else {
                                None
                            }
                        },
                        None => Some((next_level, EscalationReason::TimeoutExpired)),
                    }
                } else {
                    None
                }
            },
        }
    }

    /// Records an escalation of `alert_id` to `new_level` at `now`.
    fn update_escalation_state(&mut self, alert_id: &str, new_level: u32, now: u64)
        ensures
            final(self).cfg() == old(self).cfg(),
            final(self).records() == old(self).records(),
            final(self).escalation_states().dom() == old(self).escalation_states().dom().insert(alert_id@),
            escalated_state(
                if old(self).escalation_states().contains_key(alert_id@) { Some(old(self).escalation_states()[alert_id@]) } else { None },
                alert_id@,
                new_level,
                now,
                final(self).escalation_states()[alert_id@],
            ),
            forall|k: Seq<char>| k != alert_id@ && #[trigger] old(self).escalation_states().contains_key(k) ==> final(self).escalation_states()[k]
                == old(self).escalation_states()[k],
    {
        proof {
            use_type_invariant(&*self);
        }
        let mut states = Vec::new();
        std::mem::swap(&mut states, &mut self.states);
        let ghost s = states@;
        match kv_find(&states, alert_id) {
            Some(i) => {
                proof {
                    lemma_kv_index_unique(s, i as int);
                }
                let (k, st) = states.remove(i);
                let count = if st.escalation_count < u32::MAX { st.escalation_count + 1 } else { 0 };
                let new_state = EscalationState {
                    alert_id: st.alert_id,
                    current_level: new_level,
                    first_escalated_at: st.first_escalated_at,
                    last_escalated_at: now,
                    escalation_count: count,
                    acknowledgments: st.acknowledgments,
                };
                states.insert(i, (k, new_state));
                proof {
                    let t = states@;
                    assert(forall|a: int| 0 <= a < t.len() && a != i ==> t[a] == s[a]);
                    assert(kv_unique(t)) by {
                        assert forall|a: int, b: int| 0 <= a < t.len() && 0 <= b < t.len() && a != b implies t[a].0@ != t[b].0@ by {
                            assert(t[a].0@ == s[a].0@ && t[b].0@ == s[b].0@);
                        }
                    }
                    lemma_same_keys_replaced(s, t, i as int);
                }
            },
            None => {
                let new_state = EscalationState {
                    alert_id: alert_id.to_owned(),
                    current_level: new_level,
                    first_escalated_at: now,
                    last_escalated_at: now,
                    escalation_count: 1,
                    acknowledgments: Vec::new(),
                };
                let ghost v = new_state;
                kv_put(&mut states, alert_id, new_state);
                proof {
                    lemma_ids_match_after_put(s, states@, alert_id@, v);
                }
            },
        }
        self.states = states;
        assert(self.escalation_states().dom() =~= old(self).escalation_states().dom().insert(alert_id@));
    }

    /// Checks whether `alert` is due for escalation at `now` and, if so,
    /// escalates it: its severity is raised for the new level, its
    /// description names the level and the reason, its tracking state moves
    /// to the level and the escalation is recorded.
    pub fn check_escalation_at(&mut self, alert: &Alert, now: u64) -> (r: Result<Option<Alert>, AlertingError>)
        ensures
            r is Ok,
            final(self).cfg() == old(self).cfg(),
            ({
                let decision = if !old(self).cfg().enable_escalation {
                    None
                } else if old(self).escalation_states().contains_key(alert.id@) {
                    tracked_alert_escalation(old(self).cfg(), old(self).escalation_states()[alert.id@], alert.severity, now)
                } else {
                    new_alert_escalation(old(self).cfg().escalation_rules@, alert.severity)
                };
                match decision {
                    None => r matches Ok(None) && final(self).escalation_states() == old(self).escalation_states()
                        && final(self).records() == old(self).records(),
                    Some((level, reason)) => {
                        let from = if old(self).escalation_states().contains_key(alert.id@) {
                            old(self).escalation_states()[alert.id@].current_level
                        } else {
                            0u32
                        };
                        &&& r matches Ok(Some(a)) && a.id == alert.id && a.name == alert.name
                            && a.severity == escalated_severity(alert.severity, level)
                            && a.description@ == alert.description@ + " [ESCALATED to level "@ + decimal(level as nat)
                            + " - "@ + reason_name(reason) + "]"@
                        &&& final(self).escalation_states().dom() == old(self).escalation_states().dom().insert(alert.id@)
                        &&& escalated_state(
                            if old(self).escalation_states().contains_key(alert.id@) { Some(old(self).escalation_states()[alert.id@]) } else { None },
                            alert.id@,
                            level,
                            now,
                            final(self).escalation_states()[alert.id@],
                        )
                        &&& final(self).records().len() == old(self).records().len() + 1
                        &&& final(self).records().drop_last() == old(self).records()
                        &&& final(self).records().last().alert_id == alert.id
                        &&& final(self).records().last().alert_name == alert.name
                        &&& final(self).records().last().from_level == from
                        &&& final(self).records().last().to_level == level
                        &&& final(self).records().last().escalated_at == now
                        &&& final(self).records().last().reason == reason
                        &&& final(self).records().last().channels_notified@ == level_channels(
                            old(self).cfg().escalation_rules@,
                            level,
                        )
                    },
                }
            }),
            forall|k: Seq<char>| k != alert.id@ && #[trigger] old(self).escalation_states().contains_key(k) ==> final(self).escalation_states()[k]
                == old(self).escalation_states()[k],
    {
        proof {
            use_type_invariant(&*self);
        }
        if !self.config.enable_escalation {
            return Ok(None);
        }
        let decision = match kv_find(&self.states, alert.id.as_str()) {
            Some(i) => {
                proof {
                    lemma_kv_index_unique(self.states@, i as int);
                }
                self.should_escalate_existing(&self.states[i].1, alert, now)
            },
            None => self.should_escalate_new(alert),
        };
        match decision {
            Some((new_level, reason)) => {
                let escalated = self.perform_escalation(alert, new_level, reason, now);
                Ok(Some(escalated))
            },
            None => Ok(None),
        }
    }

    /// Checks and performs escalation of `alert` at the clock's current
    /// reading: what `check_escalation_at` does at that reading.
    pub fn check_escalation(&mut self, alert: &Alert) -> (r: Result<Option<Alert>, AlertingError>)
        ensures
            exists|now: u64| #[trigger] escalation_checked(*old(self), *final(self), *alert, now, r),
    {
        let now = current_timestamp();
        let r = self.check_escalation_at(alert, now);
        assert(escalation_checked(*old(self), *self, *alert, now, r));
        r
    }

    /// The current level of a tracked alert, 0 for an untracked one.
    fn current_level_of(&self, alert_id: &str) -> (r: u32)
        ensures
            r == (if self.escalation_states().contains_key(alert_id@) { self.escalation_states()[alert_id@].current_level } else { 0u32 }),
    {
        proof {
            use_type_invariant(self);
        }
        match kv_find(&self.states, alert_id) {
            Some(i) => {
                proof {
                    lemma_kv_index_unique(self.states@, i as int);
                }
                self.states[i].1.current_level
            },
            None => 0,
        }
    }

    /// Records an escalation at `now` and appends it to the history.
    fn record_escalation(&mut self, alert: &Alert, new_level: u32, reason: EscalationReason, now: u64)
        ensures
            final(self).cfg() == old(self).cfg(),
            final(self).escalation_states().dom() == old(self).escalation_states().dom().insert(alert.id@),
            escalated_state(
                if old(self).escalation_states().contains_key(alert.id@) { Some(old(self).escalation_states()[alert.id@]) } else { None },
                alert.id@,
                new_level,
                now,
                final(self).escalation_states()[alert.id@],
            ),
            forall|k: Seq<char>| k != alert.id@ && #[trigger] old(self).escalation_states().contains_key(k) ==> final(self).escalation_states()[k]
                == old(self).escalation_states()[k],
            final(self).records().len() == old(self).records().len() + 1,
            final(self).records().drop_last() == old(self).records(),
            final(self).records().last().alert_id == alert.id,
            final(self).records().last().alert_name == alert.name,
            final(self).records().last().from_level == (if old(self).escalation_states().contains_key(alert.id@) {
                old(self).escalation_states()[alert.id@].current_level
            } else {
                0u32
            }),
            final(self).records().last().to_level == new_level,
            final(self).records().last().escalated_at == now,
            final(self).records().last().reason == reason,
            final(self).records().last().channels_notified@ == level_channels(old(self).cfg().escalation_rules@, new_level),
    {
        let current_level = self.current_level_of(alert.id.as_str());
        let channels = self.get_channels_for_level(new_level);
        self.update_escalation_state(alert.id.as_str(), new_level, now);
        let record = EscalationRecord {
            alert_id: alert.id.clone(),
            alert_name: alert.name.clone(),
            from_level: current_level,
            to_level: new_level,
            escalated_at: now,
            reason,
            channels_notified: channels,
        };
        proof {
            use_type_invariant(&*self);
        }
        let mut history = Vec::new();
        std::mem::swap(&mut history, &mut self.history);
        history.push(record);
        self.history = history;
        assert(self.records().drop_last() =~= old(self).records());
    }

    /// Escalates `alert` to `new_level` for `reason` at `now`.
    fn perform_escalation(&mut self, alert: &Alert, new_level: u32, reason: EscalationReason, now: u64) -> (a: Alert)
        ensures
            a.id == alert.id,
            a.name == alert.name,
            a.severity == escalated_severity(alert.severity, new_level),
            a.description@ == alert.description@ + " [ESCALATED to level "@ + decimal(new_level as nat) + " - "@
                + reason_name(reason) + "]"@,
            final(self).cfg() == old(self).cfg(),
            final(self).escalation_states().dom() == old(self).escalation_states().dom().insert(alert.id@),
            escalated_state(
                if old(self).escalation_states().contains_key(alert.id@) { Some(old(self).escalation_states()[alert.id@]) } else { None },
                alert.id@,
                new_level,
                now,
                final(self).escalation_states()[alert.id@],
            ),
            forall|k: Seq<char>| k != alert.id@ && #[trigger] old(self).escalation_states().contains_key(k) ==> final(self).escalation_states()[k]
                == old(self).escalation_states()[k],
            final(self).records().len() == old(self).records().len() + 1,
            final(self).records().drop_last() == old(self).records(),
            final(self).records().last().alert_id == alert.id,
            final(self).records().last().alert_name == alert.name,
            final(self).records().last().from_level == (if old(self).escalation_states().contains_key(alert.id@) {
                old(self).escalation_states()[alert.id@].current_level
            } else {
                0u32
            }),
            final(self).records().last().to_level == new_level,
            final(self).records().last().escalated_at == now,
            final(self).records().last().reason == reason,
            final(self).records().last().channels_notified@ == level_channels(old(self).cfg().escalation_rules@, new_level),
    {
        let mut escalated = alert.clone();
        escalated.severity = self.escalate_severity(alert.severity, new_level);
        let d1 = concat_str(alert.description.as_str(), " [ESCALATED to level ");
        let lvl = decimal_string(new_level as u64);
        let d2 = concat_str(d1.as_str(), lvl.as_str());
        let d3 = concat_str(d2.as_str(), " - ");
        let d4 = concat_str(d3.as_str(), reason_text(reason));
        escalated.description = concat_str(d4.as_str(), "]");
        self.record_escalation(alert, new_level, reason, now);
        escalated
    }

    /// Escalates `alert` by hand to `target_level` at `now`: a level above
    /// the maximum, or not above the alert's current level, is refused;
    /// otherwise the alert's description names the escalator and the level,
    /// its state moves to the level and the escalation is recorded.
    pub fn manual_escalation_at(&mut self, alert: &Alert, target_level: u32, escalator: &str, now: u64) -> (r: Result<Alert, AlertingError>)
        ensures
            final(self).cfg() == old(self).cfg(),
            ({
                let current = if old(self).escalation_states().contains_key(alert.id@) {
                    old(self).escalation_states()[alert.id@].current_level
                } else {
                    0u32
                };
                &&& target_level > old(self).cfg().max_escalation_level ==> (r matches Err(AlertingError::ConfigurationError(m))
                    && m@ == "Target level "@ + decimal(target_level as nat) + " exceeds maximum level "@
                    + decimal(old(self).cfg().max_escalation_level as nat))
                &&& target_level <= old(self).cfg().max_escalation_level && target_level <= current ==> (r matches Err(
                    AlertingError::ConfigurationError(m),
                ) && m@ == "Cannot escalate to level "@ + decimal(target_level as nat) + " from current level "@
                    + decimal(current as nat))
                &&& r is Err ==> final(self).escalation_states() == old(self).escalation_states() && final(self).records() == old(self).records()
                &&& r is Ok <==> (target_level <= old(self).cfg().max_escalation_level && target_level > current)
                &&& r matches Ok(a) ==> {
                    &&& a.id == alert.id
                    &&& a.severity == alert.severity
                    &&& a.description@ == alert.description@ + " [ESCALATED by "@ + escalator@ + " to level "@ + decimal(
                        target_level as nat,
                    ) + "]"@
                    &&& final(self).escalation_states().dom() == old(self).escalation_states().dom().insert(alert.id@)
                    &&& escalated_state(
                        if old(self).escalation_states().contains_key(alert.id@) { Some(old(self).escalation_states()[alert.id@]) } else { None },
                        alert.id@,
                        target_level,
                        now,
                        final(self).escalation_states()[alert.id@],
                    )
                    &&& final(self).records().len() == old(self).records().len() + 1
                    &&& final(self).records().drop_last() == old(self).records()
                    &&& final(self).records().last().from_level == current
                    &&& final(self).records().last().to_level == target_level
                    &&& final(self).records().last().escalated_at == now
                    &&& final(self).records().last().reason == EscalationReason::ManualEscalation
                }
            }),
            forall|k: Seq<char>| k != alert.id@ && #[trigger] old(self).escalation_states().contains_key(k) ==> final(self).escalation_states()[k]
                == old(self).escalation_states()[k],
    {
        if target_level > self.config.max_escalation_level {
            let m1 = concat_str("Target level ", decimal_string(target_level as u64).as_str());
            let m2 = concat_str(m1.as_str(), " exceeds maximum level ");
            let m3 = concat_str(m2.as_str(), decimal_string(self.config.max_escalation_level as u64).as_str());
            return Err(AlertingError::ConfigurationError(m3));
        }
        let current_level = self.current_level_of(alert.id.as_str());
        if target_level <= current_level {
            let m1 = concat_str("Cannot escalate to level ", decimal_string(target_level as u64).as_str());
            let m2 = concat_str(m1.as_str(), " from current level ");
            let m3 = concat_str(m2.as_str(), decimal_string(current_level as u64).as_str());
            return Err(AlertingError::ConfigurationError(m3));
        }
        let mut escalated = alert.clone();
        let d1 = concat_str(alert.description.as_str(), " [ESCALATED by ");
        let d2 = concat_str(d1.as_str(), escalator);
        let d3 = concat_str(d2.as_str(), " to level ");
        let d4 = concat_str(d3.as_str(), decimal_string(target_level as u64).as_str());
        escalated.description = concat_str(d4.as_str(), "]");
        self.record_escalation(alert, target_level, EscalationReason::ManualEscalation, now);
        Ok(escalated)
    }

    /// Escalates `alert` by hand at the clock's current reading: what
    /// `manual_escalation_at` does at that reading.
    pub fn manual_escalation(&mut self, alert: &Alert, target_level: u32, escalator: &str) -> (r: Result<Alert, AlertingError>)
        ensures
            exists|now: u64| #[trigger] manually_escalated(*old(self), *final(self), *alert, target_level, escalator@, now, r),
    {
        let now = current_timestamp();
        let r = self.manual_escalation_at(alert, target_level, escalator, now);
        assert(manually_escalated(*old(self), *self, *alert, target_level, escalator@, now, r));
        r
    }

    /// Acknowledges a tracked alert at `now`; an untracked one is refused.
    pub fn acknowledge_alert_at(&mut self, alert_id: &str, acknowledger: String, message: Option<String>, now: u64) -> (r: Result<(), AlertingError>)
        ensures
            final(self).cfg() == old(self).cfg(),
            final(self).records() == old(self).records(),
            r is Ok <==> old(self).escalation_states().contains_key(alert_id@),
            r matches Err(e) ==> (e matches AlertingError::ProcessingError(m) && m@ == "Alert "@ + alert_id@
                + " not found in escalation tracking"@) && final(self).escalation_states() == old(self).escalation_states(),
            r is Ok ==> {
                let o = old(self).escalation_states()[alert_id@];
                let n = final(self).escalation_states()[alert_id@];
                &&& final(self).escalation_states().dom() == old(self).escalation_states().dom()
                &&& n.alert_id == o.alert_id
                &&& n.current_level == o.current_level
                &&& n.first_escalated_at == o.first_escalated_at
                &&& n.last_escalated_at == o.last_escalated_at
                &&& n.escalation_count == o.escalation_count
                &&& n.acknowledgments@ == o.acknowledgments@.push(Acknowledgment { acknowledger, timestamp: now, message })
            },
            forall|k: Seq<char>| k != alert_id@ && #[trigger] old(self).escalation_states().contains_key(k) ==> final(self).escalation_states()[k]
                == old(self).escalation_states()[k],
    {
        proof {
            use_type_invariant(&*self);
        }
        match kv_find(&self.states, alert_id) {
            Some(i) => {
                let mut states = Vec::new();
                std::mem::swap(&mut states, &mut self.states);
                let ghost s = states@;
                proof {
                    lemma_kv_index_unique(s, i as int);
                }
                let (k, st) = states.remove(i);
                let mut acks = st.acknowledgments;
                acks.push(Acknowledgment { acknowledger, timestamp: now, message });
                let new_state = EscalationState {
                    alert_id: st.alert_id,
                    current_level: st.current_level,
                    first_escalated_at: st.first_escalated_at,
                    last_escalated_at: st.last_escalated_at,
                    escalation_count: st.escalation_count,
                    acknowledgments: acks,
                };
                states.insert(i, (k, new_state));
                proof {
                    let t = states@;
                    assert(forall|a: int| 0 <= a < t.len() && a != i ==> t[a] == s[a]);
                    assert(kv_unique(t)) by {
                        assert forall|a: int, b: int| 0 <= a < t.len() && 0 <= b < t.len() && a != b implies t[a].0@ != t[b].0@ by {
                            assert(t[a].0@ == s[a].0@ && t[b].0@ == s[b].0@);
                        }
                    }
                    lemma_same_keys_replaced(s, t, i as int);
                }
                self.states = states;
                assert(self.escalation_states().dom() =~= old(self).escalation_states().dom());
                Ok(())
            },
            None => {
                let m1 = concat_str("Alert ", alert_id);
                Err(AlertingError::ProcessingError(concat_str(m1.as_str(), " not found in escalation tracking")))
            },
        }
    }

    /// Acknowledges a tracked alert at the clock's current reading, as
    /// `acknowledge_alert_at` does.
    pub fn acknowledge_alert(&mut self, alert_id: &str, acknowledger: String, message: Option<String>) -> (r: Result<(), AlertingError>)
        ensures
            final(self).cfg() == old(self).cfg(),
            final(self).records() == old(self).records(),
            r is Ok <==> old(self).escalation_states().contains_key(alert_id@),
            r matches Err(e) ==> (e matches AlertingError::ProcessingError(m) && m@ == "Alert "@ + alert_id@
                + " not found in escalation tracking"@) && final(self).escalation_states() == old(self).escalation_states(),
            final(self).escalation_states().dom() == old(self).escalation_states().dom(),
            r is Ok ==> {
                let o = old(self).escalation_states()[alert_id@];
                let n = final(self).escalation_states()[alert_id@];
                &&& n.alert_id == o.alert_id
                &&& n.current_level == o.current_level
                &&& n.first_escalated_at == o.first_escalated_at
                &&& n.last_escalated_at == o.last_escalated_at
                &&& n.escalation_count == o.escalation_count
                &&& exists|now: u64| n.acknowledgments@ == o.acknowledgments@.push(#[trigger] acknowledgment_at(acknowledger, now, message))
            },
            forall|k: Seq<char>| k != alert_id@ && #[trigger] old(self).escalation_states().contains_key(k) ==> final(self).escalation_states()[k]
                == old(self).escalation_states()[k],
    {
        let ghost (a, m) = (acknowledger, message);
        let now = current_timestamp();
        let r = self.acknowledge_alert_at(alert_id, acknowledger, message, now);
        assert(acknowledgment_at(a, now, m) == Acknowledgment { acknowledger: a, timestamp: now, message: m });
        r
    }

    /// Stops tracking an alert; tells whether it was tracked.
    pub fn remove_alert(&mut self, alert_id: &str) -> (r: bool)
        ensures
            r == old(self).escalation_states().contains_key(alert_id@),
            final(self).escalation_states() == old(self).escalation_states().remove(alert_id@),
            final(self).records() == old(self).records(),
            final(self).cfg() == old(self).cfg(),
    {
        proof {
            use_type_invariant(&*self);
        }
        let mut states = Vec::new();
        std::mem::swap(&mut states, &mut self.states);
        let ghost s = states@;
        let r = kv_remove(&mut states, alert_id);
        proof {
            let t = states@;
            assert forall|a: int| 0 <= a < t.len() implies (#[trigger] t[a]).1.alert_id@ == t[a].0@ by {
                lemma_kv_index_unique(t, a);
                let k = t[a].0@;
                assert(kv_map(s).contains_key(k));
                let j = crate::keyed::kv_index(s, k);
                lemma_kv_index_unique(s, j);
            }
        }
        self.states = states;
        r.is_some()
    }

    /// Time of the next escalation of a tracked state: the last escalation
    /// plus the delay of the next level's rule, while below the maximum level.
    fn calculate_next_escalation_time(&self, state: &EscalationState) -> (r: Option<u64>)
        ensures
            state.current_level >= self.config.max_escalation_level ==> r is None,
            state.current_level < self.config.max_escalation_level ==> r == match find_rule(
                self.config.escalation_rules@,
                (state.current_level + 1) as u32,
            ) {
                Some(i) => if state.last_escalated_at + self.config.escalation_rules@[i].delay_minutes * 60 <= u64::MAX {
                    Some((state.last_escalated_at + self.config.escalation_rules@[i].delay_minutes * 60) as u64)
                } else {
                    None
                },
                None => None,
            },
    {
        if state.current_level >= self.config.max_escalation_level {
            return None;
        }
        match self.find_escalation_rule(state.current_level + 1) {
            Some(i) => state.last_escalated_at.checked_add(self.config.escalation_rules[i].delay_minutes as u64 * 60),
            None => None,
        }
    }

    /// Escalation status of a tracked alert.
    pub fn get_escalation_status(&self, alert_id: &str) -> (r: Option<EscalationStatus>)
        ensures
            r is Some <==> self.escalation_states().contains_key(alert_id@),
            r matches Some(st) ==> {
                let s = self.escalation_states()[alert_id@];
                &&& st.alert_id == s.alert_id
                &&& st.current_level == s.current_level
                &&& st.escalation_count == s.escalation_count
                &&& st.first_escalated_at == s.first_escalated_at
                &&& st.last_escalated_at == s.last_escalated_at
                &&& st.acknowledgments@ == s.acknowledgments@
                &&& (s.current_level >= self.cfg().max_escalation_level ==> st.next_escalation_at is None)
            },
    {
        proof {
            use_type_invariant(self);
        }
        match kv_find(&self.states, alert_id) {
            Some(i) => {
                proof {
                    lemma_kv_index_unique(self.states@, i as int);
                }
                let state = &self.states[i].1;
                let acks = state.acknowledgments.clone();
                assert(acks@ =~= state.acknowledgments@);
                Some(EscalationStatus {
                    alert_id: state.alert_id.clone(),
                    current_level: state.current_level,
                    escalation_count: state.escalation_count,
                    first_escalated_at: state.first_escalated_at,
                    last_escalated_at: state.last_escalated_at,
                    acknowledgments: acks,
                    next_escalation_at: self.calculate_next_escalation_time(state),
                })
            },
            None => None,
        }
    }

    /// Number of recorded escalations to `level`.
    fn escalations_at_level(&self, level: u32) -> (r: usize)
        ensures
            r == count_level(self.history@, level),
    {
        let mut n: usize = 0;
        let mut i: usize = 0;
        while i < self.history.len()
            invariant
                i <= self.history@.len(),
                n == count_level(self.history@.take(i as int), level),
            decreases self.history.len() - i,
        {
            proof {
                assert(self.history@.take((i + 1) as int).drop_last() =~= self.history@.take(i as int));
                lemma_count_le(self.history@.take(i as int), level, EscalationReason::TimeoutExpired, seq![]);
            }
            if self.history[i].to_level == level {
                n = n + 1;
            }
            i = i + 1;
        }
        assert(self.history@.take(i as int) =~= self.history@);
        n
    }

    /// Number of recorded escalations for `reason`.
    fn escalations_for_reason(&self, reason: EscalationReason) -> (r: usize)
        ensures
            r == count_reason(self.history@, reason),
    {
        let mut n: usize = 0;
        let mut i: usize = 0;
        while i < self.history.len()
            invariant
                i <= self.history@.len(),
                n == count_reason(self.history@.take(i as int), reason),
            decreases self.history.len() - i,
        {
            proof {
                assert(self.history@.take((i + 1) as int).drop_last() =~= self.history@.take(i as int));
                lemma_count_le(self.history@.take(i as int), 0, reason, seq![]);
            }
            if self.history[i].reason == reason {
                n = n + 1;
            }
            i = i + 1;
        }
        assert(self.history@.take(i as int) =~= self.history@);
        n
    }

    /// Number of recorded escalations of the alert named `name`.
    fn escalations_of_alert(&self, name: &String) -> (r: usize)
        ensures
            r == count_name(self.history@, name@),
    {
        let mut n: usize = 0;
        let mut i: usize = 0;
        while i < self.history.len()
            invariant
                i <= self.history@.len(),
                n == count_name(self.history@.take(i as int), name@),
            decreases self.history.len() - i,
        {
            proof {
                assert(self.history@.take((i + 1) as int).drop_last() =~= self.history@.take(i as int));
                lemma_count_le(self.history@.take(i as int), 0, EscalationReason::TimeoutExpired, name@);
            }
            if self.history[i].alert_name.eq(name) {
                n = n + 1;
            }
            i = i + 1;
        }
        assert(self.history@.take(i as int) =~= self.history@);
        n
    }

    /// Escalation statistics: the total, and the count for each level,
    /// reason and alert name that occurs, in the order of first occurrence.
    pub fn get_statistics(&self) -> (s: EscalationStats)
        ensures
            s.total_escalations == self.records().len(),
            forall|i: int| 0 <= i < s.escalations_by_level@.len() ==> (#[trigger] s.escalations_by_level@[i]).1
                == count_level(self.records(), s.escalations_by_level@[i].0),
            forall|i: int| 0 <= i < s.escalations_by_reason@.len() ==> (#[trigger] s.escalations_by_reason@[i]).1
                == count_reason(self.records(), s.escalations_by_reason@[i].0),
            forall|i: int| 0 <= i < s.escalations_by_alert@.len() ==> (#[trigger] s.escalations_by_alert@[i]).1
                == count_name(self.records(), s.escalations_by_alert@[i].0@),
            forall|j: int| 0 <= j < self.records().len() ==> lists_level(s.escalations_by_level@, #[trigger] self.records()[j].to_level),
            forall|a: int, b: int| 0 <= a < b < s.escalations_by_level@.len() ==> s.escalations_by_level@[a].0
                != s.escalations_by_level@[b].0,
    {
        let mut by_level: Vec<(u32, usize)> = Vec::new();
        let mut by_reason: Vec<(EscalationReason, usize)> = Vec::new();
        let mut by_alert: Vec<(String, usize)> = Vec::new();
        let mut i: usize = 0;
        while i < self.history.len()
            invariant
                i <= self.history@.len(),
                forall|a: int| 0 <= a < by_level@.len() ==> (#[trigger] by_level@[a]).1 == count_level(self.history@, by_level@[a].0),
                forall|a: int| 0 <= a < by_reason@.len() ==> (#[trigger] by_reason@[a]).1 == count_reason(self.history@, by_reason@[a].0),
                forall|a: int| 0 <= a < by_alert@.len() ==> (#[trigger] by_alert@[a]).1 == count_name(self.history@, by_alert@[a].0@),
                forall|j: int| 0 <= j < i ==> lists_level(by_level@, #[trigger] self.history@[j].to_level),
                forall|a: int, b: int| 0 <= a < b < by_level@.len() ==> by_level@[a].0 != by_level@[b].0,
            decreases self.history.len() - i,
        {
            let level = self.history[i].to_level;
            let ghost before = by_level@;
            match position_of_level(&by_level, level) {
                Some(a) => {
                    assert(by_level@[a as int].0 == self.history@[i as int].to_level);
                    assert(lists_level(by_level@, self.history@[i as int].to_level));
                },
                None => {
                    let c = self.escalations_at_level(level);
                    by_level.push((level, c));
                    proof {
                        let t = by_level@;
                        assert(forall|a: int| 0 <= a < before.len() ==> t[a] == before[a]);
                        assert(t[before.len() as int].0 == self.history@[i as int].to_level);
                        assert forall|j: int| 0 <= j < i implies lists_level(t, #[trigger] self.history@[j].to_level) by {
                            assert(lists_level(before, self.history@[j].to_level));
                            let a = choose|a: int| 0 <= a < before.len() && (#[trigger] before[a]).0 == self.history@[j].to_level;
                            assert(t[a] == before[a]);
                        }
                        assert(lists_level(t, self.history@[i as int].to_level));
                    }
                },
            }
            let reason = self.history[i].reason;
            if !has_reason(&by_reason, reason) {
                let c = self.escalations_for_reason(reason);
                by_reason.push((reason, c));
            }
            if !has_alert_name(&by_alert, &self.history[i].alert_name) {
                let c = self.escalations_of_alert(&self.history[i].alert_name);
                by_alert.push((self.history[i].alert_name.clone(), c));
            }
            i = i + 1;
        }
        assert forall|j: int| 0 <= j < self.records().len() implies lists_level(by_level@, #[trigger] self.records()[j].to_level) by {
            assert(self.records()[j] == self.history@[j]);
        }
        EscalationStats {
            total_escalations: self.history.len(),
            escalations_by_level: by_level,
            escalations_by_reason: by_reason,
            escalations_by_alert: by_alert,
        }
    }

    /// Drops the escalation records and tracking states not newer than
    /// `retention_days` days before `now`.
    pub fn cleanup_old_records_at(&mut self, retention_days: u32, now: u64)
        ensures
            ({
                let cutoff = retention_cutoff(retention_days, now);
                &&& final(self).records() == records_after(old(self).records(), cutoff)
                &&& forall|k: Seq<char>| #[trigger] final(self).escalation_states().contains_key(k) <==> old(self).escalation_states().contains_key(k)
                    && old(self).escalation_states()[k].last_escalated_at > cutoff
                &&& forall|k: Seq<char>| #[trigger] final(self).escalation_states().contains_key(k) ==> final(self).escalation_states()[k]
                    == old(self).escalation_states()[k]
            }),
            final(self).cfg() == old(self).cfg(),
    {
        proof {
            use_type_invariant(&*self);
        }
        let span: u64 = retention_days as u64 * 86400;
        let cutoff: u64 = if now >= span { now - span } else { 0 };
        let mut history = Vec::new();
        std::mem::swap(&mut history, &mut self.history);
        let ghost h = history@;
        let mut kept: Vec<EscalationRecord> = Vec::new();
        let ghost mut i: int = 0;
        while history.len() > 0
            invariant
                0 <= i <= h.len(),
                history@ == h.skip(i),
                kept@ == records_after(h.take(i), cutoff),
            decreases history.len(),
        {
            let r = history.remove(0);
            proof {
                assert(r == h[i]);
                assert(h.take(i + 1).drop_last() =~= h.take(i));
                assert(h.take(i + 1).last() == h[i]);
                i = i + 1;
                assert(history@ =~= h.skip(i));
            }
            if r.escalated_at > cutoff {
                kept.push(r);
            }
        }
        assert(h.take(i) =~= h);
        self.history = kept;

        let mut states = Vec::new();
        std::mem::swap(&mut states, &mut self.states);
        let ghost s = states@;
        let mut kept_states: Vec<(String, EscalationState)> = Vec::new();
        let ghost mut j: int = 0;
        let ghost mut origin: Seq<int> = seq![];
        let ghost mut back: Seq<int> = seq![];
        while states.len() > 0
            invariant
                0 <= j <= s.len(),
                states@ == s.skip(j),
                kv_unique(s),
                kept_from(kept_states@, s, j, cutoff, origin, back),
            decreases states.len(),
        {
            let e = states.remove(0);
            let ghost before = kept_states@;
            proof {
                assert(e == s[j]);
            }
            if e.1.last_escalated_at > cutoff {
                kept_states.push(e);
                proof {
                    let t = kept_states@;
                    assert(forall|a: int| 0 <= a < before.len() ==> t[a] == before[a]);
                    assert(kv_unique(t)) by {
                        assert forall|a: int, b: int| 0 <= a < t.len() && 0 <= b < t.len() && a != b implies t[a].0@ != t[b].0@ by {
                            if a < before.len() && b < before.len() {
                                assert(t[a] == before[a] && t[b] == before[b]);
                            } else if a < before.len() {
                                assert(t[a] == s[origin[a]]);
                            } else {
                                assert(t[b] == s[origin[b]]);
                            }
                        }
                    }
                    origin = origin.push(j);
                    back = back.push(before.len() as int);
                    assert forall|b: int| 0 <= b < j + 1 && keep_state(s[b], cutoff) implies 0 <= #[trigger] back[b] < t.len()
                        && t[back[b]] == s[b] by {
                        if b < j {
                            assert(t[back[b]] == before[back[b]]);
                        }
                    }
                }
            } else {
                proof {
                    back = back.push(0);
                    assert forall|b: int| 0 <= b < j + 1 && keep_state(s[b], cutoff) implies 0 <= #[trigger] back[b]
                        < kept_states@.len() && kept_states@[back[b]] == s[b] by {
                        if b == j {
                            assert(keep_state(s[j], cutoff) == (e.1.last_escalated_at > cutoff));
                        }
                    }
                }
            }
            proof {
                j = j + 1;
                assert(states@ =~= s.skip(j));
            }
        }
        proof {
            lemma_kept_from_done(kept_states@, s, cutoff, origin, back);
        }
        self.states = kept_states;
    }

    /// Drops the records and states not newer than `retention_days` days
    /// before the clock's current reading: what `cleanup_old_records_at`
    /// does at that reading.
    pub fn cleanup_old_records(&mut self, retention_days: u32)
        ensures
            exists|now: u64| #[trigger] records_cleaned(*old(self), *final(self), retention_days, now),
    {
        let now = current_timestamp();
        self.cleanup_old_records_at(retention_days, now);
        assert(records_cleaned(*old(self), *self, retention_days, now));
    }
}

/// The time before which escalations are dropped: `retention_days` days
/// before `now`, or the epoch.
pub open spec fn retention_cutoff(retention_days: u32, now: u64) -> u64 {
    if now >= retention_days * 86400 { (now - retention_days * 86400) as u64 } else { 0 }
}

/// The records escalated after `cutoff`, in order.
pub open spec fn records_after(h: Seq<EscalationRecord>, cutoff: u64) -> Seq<EscalationRecord>
    decreases h.len(),
{
    if h.len() == 0 {
        seq![]
    } else {
        let p = records_after(h.drop_last(), cutoff);
        if h.last().escalated_at > cutoff { p.push(h.last()) } else { p }
    }
}

/// Position of `level` in a list of level counts.
fn position_of_level(v: &Vec<(u32, usize)>, level: u32) -> (r: Option<usize>)
    ensures
        r matches Some(a) ==> a < v@.len() && v@[a as int].0 == level,
        r is None ==> forall|a: int| 0 <= a < v@.len() ==> (#[trigger] v@[a]).0 != level,
{
    let mut k: usize = 0;
    while k < v.len()
        invariant
            k <= v@.len(),
            forall|a: int| 0 <= a < k ==> (#[trigger] v@[a]).0 != level,
        decreases v.len() - k,
    {
        if v[k].0 == level {
            return Some(k);
        }
        k = k + 1;
    }
    None
}

/// Whether a list of reason counts has an entry for `reason`.
fn has_reason(v: &Vec<(EscalationReason, usize)>, reason: EscalationReason) -> (r: bool)
    ensures
        r == exists|a: int| 0 <= a < v@.len() && (#[trigger] v@[a]).0 == reason,
{
    let mut k: usize = 0;
    while k < v.len()
        invariant
            k <= v@.len(),
            forall|a: int| 0 <= a < k ==> (#[trigger] v@[a]).0 != reason,
        decreases v.len() - k,
    {
        if v[k].0 == reason {
            return true;
        }
        k = k + 1;
    }
    false
}

/// Whether a list of name counts has an entry for `name`.
fn has_alert_name(v: &Vec<(String, usize)>, name: &String) -> (r: bool)
    ensures
        r == exists|a: int| 0 <= a < v@.len() && (#[trigger] v@[a]).0@ == name@,
{
    let mut k: usize = 0;
    while k < v.len()
        invariant
            k <= v@.len(),
            forall|a: int| 0 <= a < k ==> (#[trigger] v@[a]).0@ != name@,
        decreases v.len() - k,
    {
        if v[k].0.eq(name) {
            return true;
        }
        k = k + 1;
    }
    false
}

/// A tracking state kept by a cleanup with the given cutoff.
spec fn keep_state(e: (String, EscalationState), cutoff: u64) -> bool {
    e.1.last_escalated_at > cutoff
}

/// `kept` holds, without repeated keys, exactly the entries among the first
/// `j` of `s` that a cleanup with `cutoff` keeps: `origin` gives the
/// position in `s` of each kept entry, `back` the position in `kept` of
/// each kept entry of `s`.
spec fn kept_from(
    kept: Seq<(String, EscalationState)>,
    s: Seq<(String, EscalationState)>,
    j: int,
    cutoff: u64,
    origin: Seq<int>,
    back: Seq<int>,
) -> bool {
    &&& kv_unique(kept)
    &&& origin.len() == kept.len()
    &&& back.len() == j
    &&& forall|a: int| 0 <= a < kept.len() ==> 0 <= #[trigger] origin[a] < j && kept[a] == s[origin[a]] && keep_state(
        s[origin[a]],
        cutoff,
    )
    &&& forall|b: int| 0 <= b < j && keep_state(s[b], cutoff) ==> 0 <= #[trigger] back[b] < kept.len() && kept[back[b]]
        == s[b]
}

proof fn lemma_kept_from_done(
    kept: Seq<(String, EscalationState)>,
    s: Seq<(String, EscalationState)>,
    cutoff: u64,
    origin: Seq<int>,
    back: Seq<int>,
)
    requires
        kv_unique(s),
        forall|a: int| 0 <= a < s.len() ==> (#[trigger] s[a]).1.alert_id@ == s[a].0@,
        kept_from(kept, s, s.len() as int, cutoff, origin, back),
    ensures
        kv_unique(kept),
        forall|a: int| 0 <= a < kept.len() ==> (#[trigger] kept[a]).1.alert_id@ == kept[a].0@,
        forall|k: Seq<char>| #[trigger] kv_map(kept).contains_key(k) <==> kv_map(s).contains_key(k)
            && kv_map(s)[k].last_escalated_at > cutoff,
        forall|k: Seq<char>| #[trigger] kv_map(kept).contains_key(k) ==> kv_map(kept)[k] == kv_map(s)[k],
{
    assert forall|a: int| 0 <= a < kept.len() implies (#[trigger] kept[a]).1.alert_id@ == kept[a].0@ by {
        assert(kept[a] == s[origin[a]]);
    }
    assert forall|k: Seq<char>| #[trigger] kv_map(kept).contains_key(k) <==> kv_map(s).contains_key(k)
        && kv_map(s)[k].last_escalated_at > cutoff by {
        if kv_map(kept).contains_key(k) {
            let a = crate::keyed::kv_index(kept, k);
            let b = origin[a];
            assert(kept[a] == s[b]);
            lemma_kv_index_unique(s, b);
        }
        if kv_map(s).contains_key(k) && kv_map(s)[k].last_escalated_at > cutoff {
            let b = crate::keyed::kv_index(s, k);
            lemma_kv_index_unique(s, b);
            assert(keep_state(s[b], cutoff));
            let a = back[b];
            assert(kept[a] == s[b]);
            lemma_kv_index_unique(kept, a);
        }
    }
    assert forall|k: Seq<char>| #[trigger] kv_map(kept).contains_key(k) implies kv_map(kept)[k] == kv_map(s)[k] by {
        let a = crate::keyed::kv_index(kept, k);
        lemma_kv_index_unique(kept, a);
        let b = origin[a];
        assert(kept[a] == s[b]);
        lemma_kv_index_unique(s, b);
    }
}

proof fn lemma_find_rule_extends(rules: Seq<EscalationRule>, level: u32, n: int, m: int)
    requires
        0 <= n <= m <= rules.len(),
        find_rule_upto(rules, level, n) is Some,
    ensures
        find_rule_upto(rules, level, m) == find_rule_upto(rules, level, n),
    decreases m - n,
{
    if m > n {
        lemma_find_rule_extends(rules, level, n, m - 1);
    }
}

proof fn lemma_same_keys_replaced(s: Seq<(String, EscalationState)>, t: Seq<(String, EscalationState)>, i: int)
    requires
        kv_unique(s),
        kv_unique(t),
        s.len() == t.len(),
        0 <= i < s.len(),
        t[i].0@ == s[i].0@,
        forall|a: int| 0 <= a < t.len() && a != i ==> t[a] == s[a],
    ensures
        kv_map(t) == kv_map(s).insert(s[i].0@, t[i].1),
{
    let m = kv_map(s).insert(s[i].0@, t[i].1);
    lemma_kv_index_unique(t, i);
    assert forall|k: Seq<char>| #[trigger] crate::keyed::kv_has(t, k) <==> m.contains_key(k) by {
        if crate::keyed::kv_has(s, k) {
            let j = crate::keyed::kv_index(s, k);
            if j != i {
                assert(t[j] == s[j]);
            }
        }
        if crate::keyed::kv_has(t, k) {
            let j = crate::keyed::kv_index(t, k);
            if j != i {
                assert(t[j] == s[j]);
            }
        }
    }
    assert forall|k: Seq<char>| #[trigger] kv_map(t).contains_key(k) implies kv_map(t)[k] == m[k] by {
        let j = crate::keyed::kv_index(t, k);
        lemma_kv_index_unique(t, j);
        if j != i {
            assert(t[j] == s[j]);
            lemma_kv_index_unique(s, j);
        }
    }
    assert(kv_map(t) =~= m);
}

proof fn lemma_ids_match_after_put(s: Seq<(String, EscalationState)>, t: Seq<(String, EscalationState)>, id: Seq<char>, v: EscalationState)
    requires
        kv_unique(s),
        kv_unique(t),
        forall|a: int| 0 <= a < s.len() ==> (#[trigger] s[a]).1.alert_id@ == s[a].0@,
        kv_map(t) == kv_map(s).insert(id, v),
        v.alert_id@ == id,
    ensures
        forall|a: int| 0 <= a < t.len() ==> (#[trigger] t[a]).1.alert_id@ == t[a].0@,
{
    assert forall|a: int| 0 <= a < t.len() implies (#[trigger] t[a]).1.alert_id@ == t[a].0@ by {
        lemma_kv_index_unique(t, a);
        let k = t[a].0@;
        if k != id {
            assert(kv_map(s).contains_key(k));
            let b = crate::keyed::kv_index(s, k);
            lemma_kv_index_unique(s, b);
        }
    }
}

} // verus!
