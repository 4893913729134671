//! Alert rules and the rules engine's bookkeeping: the rules kept and
//! changed by name, when a rule is due for evaluation again, the alert a
//! triggered rule raises, and the short-lived cache of metric values.
//!
//! Thresholds and metric values are floating-point numbers kept as their bit
//! patterns; comparing a value with a condition is the caller's part. Times
//! are seconds since the Unix epoch.

use vstd::prelude::*;
use crate::keyed::{kv_find, kv_map, kv_put, kv_remove, kv_unique, lemma_kv_index_unique};
use crate::monitoring::alerting::alert_types::{clone_strings, Alert, AlertSeverity};
use crate::text::concat_str;

verus! {

/// Alert condition types; the thresholds are bit patterns of `f64` values.
#[derive(Debug, Clone, Copy, PartialEq, Eq, Structural)]
pub enum AlertCondition {
    GreaterThan(u64),
    LessThan(u64),
    Equals(u64),
    NotEquals(u64),
    Between(u64, u64),
    Outside(u64, u64),
}

/// An alert rule: the metric it watches, the condition that triggers it, and
/// what the alert it raises says.
#[derive(Debug, Clone)]
pub struct AlertRule {
    pub name: String,
    pub description: String,
    pub metric_name: String,
    pub condition: AlertCondition,
    pub severity: AlertSeverity,
    pub category: String,
    /// Seconds between two alerts of the rule.
    pub evaluation_interval_secs: u64,
    pub tags: Vec<String>,
}

impl AlertRule {
    /// A rule in the "general" category, described as "Alert rule for
    /// NAME", evaluated at most once a minute, without tags.
    pub fn new(name: String, metric_name: String, condition: AlertCondition, severity: AlertSeverity) -> (r: Self)
        ensures
            r.name == name,
            r.description@ == "Alert rule for "@ + name@,
            r.metric_name == metric_name,
            r.condition == condition,
            r.severity == severity,
            r.category@ == "general"@,
            r.evaluation_interval_secs == 60,
            r.tags@.len() == 0,
    {
        let description = concat_str("Alert rule for ", name.as_str());
        AlertRule {
            name,
            description,
            metric_name,
            condition,
            severity,
            category: "general".to_string(),
            evaluation_interval_secs: 60,
            tags: Vec::new(),
        }
    }

    /// The rule with another description.
    pub fn with_description(self, description: String) -> (r: Self)
        ensures
            r == (AlertRule { description, ..self }),
    {
        AlertRule { description, ..self }
    }

    /// The rule in another category.
    pub fn with_category(self, category: String) -> (r: Self)
        ensures
            r == (AlertRule { category, ..self }),
    {
        AlertRule { category, ..self }
    }

    /// The rule with another evaluation interval, in seconds.
    pub fn with_interval(self, interval_secs: u64) -> (r: Self)
        ensures
            r == (AlertRule { evaluation_interval_secs: interval_secs, ..self }),
    {
        AlertRule { evaluation_interval_secs: interval_secs, ..self }
    }

    /// The rule with `tags` added after its own.
    pub fn with_tags(self, tags: Vec<String>) -> (r: Self)
        ensures
            r.tags@ == self.tags@ + tags@,
            r.name == self.name,
            r.description == self.description,
            r.metric_name == self.metric_name,
            r.condition == self.condition,
            r.severity == self.severity,
            r.category == self.category,
            r.evaluation_interval_secs == self.evaluation_interval_secs,
    {
        let mut r = self;
        let mut more = tags;
        r.tags.append(&mut more);
        r
    }
}

/// The rules without those named `name`, in order.
pub open spec fn without_name(rules: Seq<AlertRule>, name: Seq<char>) -> Seq<AlertRule>
    decreases rules.len(),
{
    if rules.len() == 0 {
        Seq::empty()
    } else {
        let rest = without_name(rules.drop_last(), name);
        if rules.last().name@ == name { rest } else { rest.push(rules.last()) }
    }
}

/// Index `i` holds the first rule named `name`.
pub open spec fn first_named(rules: Seq<AlertRule>, name: Seq<char>, i: int) -> bool {
    &&& 0 <= i < rules.len()
    &&& rules[i].name@ == name
    &&& forall|j: int| 0 <= j < i ==> rules[j].name@ != name
}

/// Some rule is named `name`.
pub open spec fn has_rule(rules: Seq<AlertRule>, name: Seq<char>) -> bool {
    exists|i: int| 0 <= i < rules.len() && (#[trigger] rules[i]).name@ == name
}

proof fn lemma_without_name_len(rules: Seq<AlertRule>, name: Seq<char>)
    ensures
        without_name(rules, name).len() <= rules.len(),
        without_name(rules, name).len() == rules.len() <==> !has_rule(rules, name),
    decreases rules.len(),
{
    if rules.len() > 0 {
        let init = rules.drop_last();
        lemma_without_name_len(init, name);
        if has_rule(init, name) {
            let i = choose|i: int| 0 <= i < init.len() && (#[trigger] init[i]).name@ == name;
            assert(rules[i] == init[i]);
        }
        if has_rule(rules, name) && !has_rule(init, name) {
            let i = choose|i: int| 0 <= i < rules.len() && (#[trigger] rules[i]).name@ == name;
            if i < init.len() {
                assert(init[i] == rules[i]);
            }
        }
    }
}

/// Seconds from `from` to `to`, zero when `to` is earlier.
pub open spec fn elapsed(from: u64, to: u64) -> int {
    if to >= from { to - from } else { 0 }
}

/// How long a cached metric value stays fresh, in seconds.
pub open spec fn metric_ttl() -> int {
    30
}

/// Alert rules engine: the rules, when each rule last triggered, and the
/// cached metric values (bit pattern, time cached) by metric name.
pub struct AlertRulesEngine {
    rules: Vec<AlertRule>,
    last_evaluation: Vec<(String, u64)>,
    metric_cache: Vec<(String, (u64, u64))>,
}

impl AlertRulesEngine {
    #[verifier::type_invariant]
    spec fn inv(self) -> bool {
        &&& kv_unique(self.last_evaluation@)
        &&& kv_unique(self.metric_cache@)
    }

    /// The rules, in order.
    pub closed spec fn rules(self) -> Seq<AlertRule> {
        self.rules@
    }

    /// When each rule last triggered, by rule name.
    pub closed spec fn last_triggered(self) -> Map<Seq<char>, u64> {
        kv_map(self.last_evaluation@)
    }

    /// The cached metric values with the time each was cached.
    pub closed spec fn cache(self) -> Map<Seq<char>, (u64, u64)> {
        kv_map(self.metric_cache@)
    }

    pub fn new(rules: Vec<AlertRule>) -> (e: Self)
        ensures
            e.rules() == rules@,
            e.last_triggered() == Map::<Seq<char>, u64>::empty(),
            e.cache() == Map::<Seq<char>, (u64, u64)>::empty(),
    {
        let e = AlertRulesEngine { rules, last_evaluation: Vec::new(), metric_cache: Vec::new() };
        assert(kv_map(e.last_evaluation@) =~= Map::<Seq<char>, u64>::empty());
        assert(kv_map(e.metric_cache@) =~= Map::<Seq<char>, (u64, u64)>::empty());
        e
    }

    /// Adds a rule at the end.
    pub fn add_rule(&mut self, rule: AlertRule)
        ensures
            final(self).rules() == old(self).rules().push(rule),
            final(self).last_triggered() == old(self).last_triggered(),
            final(self).cache() == old(self).cache(),
    {
        proof {
            use_type_invariant(&*self);
        }
        let mut rules = Vec::new();
        std::mem::swap(&mut rules, &mut self.rules);
        rules.push(rule);
        self.rules = rules;
    }

    /// Removes every rule named `rule_name`; whether there was one.
    pub fn remove_rule(&mut self, rule_name: &str) -> (r: bool)
        ensures
            final(self).rules() == without_name(old(self).rules(), rule_name@),
            r == has_rule(old(self).rules(), rule_name@),
            final(self).last_triggered() == old(self).last_triggered(),
            final(self).cache() == old(self).cache(),
    {
        proof {
            use_type_invariant(&*self);
        }
        let mut old_rules = Vec::new();
        std::mem::swap(&mut old_rules, &mut self.rules);
        let ghost all = old_rules@;
        let initial_len = old_rules.len();
        let mut kept: Vec<AlertRule> = Vec::new();
        let mut rest = old_rules;
        assert(all.take(0) =~= Seq::<AlertRule>::empty());
        assert(all.skip(0) =~= all);
        while rest.len() > 0
            invariant
                initial_len == all.len(),
                rest@.len() <= all.len(),
                rest@ == all.skip(all.len() - rest@.len()),
                kept@ == without_name(all.take(all.len() - rest@.len()), rule_name@),
            decreases rest@.len(),
        {
            let ghost n = all.len() - rest@.len();
            let rule = rest.remove(0);
            assert(rule == all[n]);
            proof {
                assert(rest@ =~= all.skip(n + 1));
                assert(all.take(n + 1).drop_last() =~= all.take(n));
                assert(all.take(n + 1).last() == all[n]);
            }
            if !rule.name.eq(&rule_name.to_string()) {
                kept.push(rule);
            }
        }
        assert(all.take(all.len() as int) =~= all);
        proof {
            lemma_without_name_len(all, rule_name@);
        }
        let changed = kept.len() != initial_len;
        self.rules = kept;
        changed
    }

    /// Replaces the first rule named `rule_name` with `new_rule`; whether
    /// there was one.
    pub fn update_rule(&mut self, rule_name: &str, new_rule: AlertRule) -> (r: bool)
        ensures
            r == has_rule(old(self).rules(), rule_name@),
            !r ==> final(self).rules() == old(self).rules(),
            r ==> exists|i: int| first_named(old(self).rules(), rule_name@, i) && final(self).rules()
                == old(self).rules().update(i, new_rule),
            final(self).last_triggered() == old(self).last_triggered(),
            final(self).cache() == old(self).cache(),
    {
        let name = rule_name.to_string();
        let mut i: usize = 0;
        while i < self.rules.len()
            invariant
                i <= self.rules@.len(),
                name@ == rule_name@,
                self.rules@ == old(self).rules@,
                self.last_evaluation@ == old(self).last_evaluation@,
                self.metric_cache@ == old(self).metric_cache@,
                forall|j: int| 0 <= j < i ==> (#[trigger] self.rules@[j]).name@ != rule_name@,
            decreases self.rules@.len() - i,
        {
            if self.rules[i].name.eq(&name) {
                assert(first_named(self.rules@, rule_name@, i as int));
                proof {
                    use_type_invariant(&*self);
                }
                let mut rules = Vec::new();
                std::mem::swap(&mut rules, &mut self.rules);
                rules.set(i, new_rule);
                self.rules = rules;
                return true;
            }
            i = i + 1;
        }
        false
    }

    /// The rules, in order.
    pub fn get_rules(&self) -> (r: &Vec<AlertRule>)
        ensures
            r@ == self.rules(),
    {
        &self.rules
    }

    /// Whether rule `index` is due for evaluation at `now`: a rule that
    /// never triggered is; otherwise its interval must have passed since it
    /// last triggered.
    pub fn should_evaluate_rule_at(&self, index: usize, now: u64) -> (r: bool)
        requires
            index < self.rules().len(),
        ensures
            ({
                let rule = self.rules()[index as int];
                let last = self.last_triggered();
                r == (!last.contains_key(rule.name@) || elapsed(last[rule.name@], now) >= rule.evaluation_interval_secs)
            }),
    {
        proof {
            use_type_invariant(self);
        }
        let rule = &self.rules[index];
        match kv_find(&self.last_evaluation, rule.name.as_str()) {
            Some(j) => {
                proof {
                    lemma_kv_index_unique(self.last_evaluation@, j as int);
                }
                let last = self.last_evaluation[j].1;
                let since: u64 = if now >= last { now - last } else { 0 };
                since >= rule.evaluation_interval_secs
            },
            None => true,
        }
    }

    /// Records that rule `index` triggered at `now`.
    pub fn record_trigger_at(&mut self, index: usize, now: u64)
        requires
            index < old(self).rules().len(),
        ensures
            final(self).rules() == old(self).rules(),
            final(self).last_triggered() == old(self).last_triggered().insert(old(self).rules()[index as int].name@, now),
            final(self).cache() == old(self).cache(),
    {
        proof {
            use_type_invariant(&*self);
        }
        let name = self.rules[index].name.clone();
        let mut last = Vec::new();
        std::mem::swap(&mut last, &mut self.last_evaluation);
        kv_put(&mut last, name.as_str(), now);
        self.last_evaluation = last;
    }

    /// The alert that rule `index` raises at `now` for the measured value
    /// (its bits), with the condition's threshold (its bits): named,
    /// described, classed and tagged as the rule, with a fresh id.
    pub fn alert_for_rule_at(&self, index: usize, value_bits: u64, threshold_bits: u64, id: String, now: u64) -> (a: Alert)
        requires
            index < self.rules().len(),
        ensures
            ({
                let rule = self.rules()[index as int];
                &&& a.id == id
                &&& a.name@ == rule.name@
                &&& a.description@ == rule.description@
                &&& a.severity == rule.severity
                &&& a.category@ == rule.category@
                &&& a.metric_name@ == rule.metric_name@
                &&& a.current_value_bits == value_bits
                &&& a.threshold_value_bits == threshold_bits
                &&& a.timestamp == now
                &&& a.resolved_at is None
                &&& a.tags@ == rule.tags@
            }),
    {
        let rule = &self.rules[index];
        let a = Alert::new_at(
            id,
            rule.name.clone(),
            rule.description.clone(),
            rule.severity,
            rule.category.clone(),
            rule.metric_name.clone(),
            value_bits,
            threshold_bits,
            now,
        );
        let a = a.with_tags(clone_strings(&rule.tags));
        assert(a.tags@ =~= rule.tags@);
        a
    }

    /// The cached value of a metric at `now`, while fresh (cached less than
    /// thirty seconds before).
    pub fn cached_metric_at(&self, metric_name: &str, now: u64) -> (r: Option<u64>)
        ensures
            ({
                let c = self.cache();
                &&& (c.contains_key(metric_name@) && elapsed(c[metric_name@].1, now) < metric_ttl()) ==> r == Some(
                    c[metric_name@].0,
                )
                &&& !(c.contains_key(metric_name@) && elapsed(c[metric_name@].1, now) < metric_ttl()) ==> r is None
            }),
    {
        proof {
            use_type_invariant(self);
        }
        match kv_find(&self.metric_cache, metric_name) {
            Some(j) => {
                proof {
                    lemma_kv_index_unique(self.metric_cache@, j as int);
                }
                let (value, at) = self.metric_cache[j].1;
                let age: u64 = if now >= at { now - at } else { 0 };
                if age < 30 {
                    Some(value)
                } else {
                    None
                }
            },
            None => None,
        }
    }

    /// Caches a freshly read metric value at `now`.
    pub fn store_metric_at(&mut self, metric_name: &str, value_bits: u64, now: u64)
        ensures
            final(self).cache() == old(self).cache().insert(metric_name@, (value_bits, now)),
            final(self).rules() == old(self).rules(),
            final(self).last_triggered() == old(self).last_triggered(),
    {
        proof {
            use_type_invariant(&*self);
        }
        let mut cache = Vec::new();
        std::mem::swap(&mut cache, &mut self.metric_cache);
        kv_put(&mut cache, metric_name, (value_bits, now));
        self.metric_cache = cache;
    }

    /// Empties the metric cache.
    pub fn clear_cache(&mut self)
        ensures
            final(self).cache() == Map::<Seq<char>, (u64, u64)>::empty(),
            final(self).rules() == old(self).rules(),
            final(self).last_triggered() == old(self).last_triggered(),
    {
        proof {
            use_type_invariant(&*self);
        }
        self.metric_cache = Vec::new();
        assert(kv_map(self.metric_cache@) =~= Map::<Seq<char>, (u64, u64)>::empty());
    }

    /// Drops the cached values of the named metrics, so that they are read
    /// afresh.
    pub fn forget_metrics(&mut self, metric_names: &Vec<String>)
        ensures
            forall|k: Seq<char>| #[trigger] final(self).cache().contains_key(k) <==> old(self).cache().contains_key(k)
                && !metric_names@.map_values(|s: String| s@).contains(k),
            forall|k: Seq<char>| #[trigger] final(self).cache().contains_key(k) ==> final(self).cache()[k] == old(self).cache()[k],
            final(self).rules() == old(self).rules(),
            final(self).last_triggered() == old(self).last_triggered(),
    {
        proof {
            use_type_invariant(&*self);
        }
        let ghost names = metric_names@.map_values(|s: String| s@);
        let ghost start = old(self).cache();
        let mut cache = Vec::new();
        std::mem::swap(&mut cache, &mut self.metric_cache);
        let mut i: usize = 0;
        while i < metric_names.len()
            invariant
                i <= metric_names@.len(),
                names == metric_names@.map_values(|s: String| s@),
                kv_unique(cache@),
                forall|k: Seq<char>| #[trigger] kv_map(cache@).contains_key(k) <==> start.contains_key(k) && !names.take(
                    i as int,
                ).contains(k),
                forall|k: Seq<char>| #[trigger] kv_map(cache@).contains_key(k) ==> kv_map(cache@)[k] == start[k],
            decreases metric_names@.len() - i,
        {
            let ghost before = kv_map(cache@);
            let _ = kv_remove(&mut cache, metric_names[i].as_str());
            proof {
                assert(names[i as int] == metric_names@[i as int]@);
                assert forall|k: Seq<char>| names.take(i + 1).contains(k) <==> names.take(i as int).contains(k) || k
                    == names[i as int] by {
                    if names.take(i + 1).contains(k) {
                        let x = choose|x: int| 0 <= x < i + 1 && #[trigger] names.take(i + 1)[x] == k;
                        if x < i {
                            assert(names.take(i as int)[x] == k);
                        }
                    }
                    if names.take(i as int).contains(k) {
                        let x = choose|x: int| 0 <= x < i && #[trigger] names.take(i as int)[x] == k;
                        assert(names.take(i + 1)[x] == k);
                    }
                    if k == names[i as int] {
                        assert(names.take(i + 1)[i as int] == k);
                    }
                }
            }
            i = i + 1;
        }
        assert(names.take(i as int) =~= names);
        self.metric_cache = cache;
    }

    /// The cached values, each with its age in seconds at `now`.
    pub fn get_cache_stats_at(&self, now: u64) -> (r: Vec<(String, (u64, u64))>)
        ensures
            kv_unique(r@),
            forall|k: Seq<char>| #[trigger] kv_map(r@).contains_key(k) <==> self.cache().contains_key(k),
            forall|k: Seq<char>| #[trigger] kv_map(r@).contains_key(k) ==> kv_map(r@)[k] == (
                self.cache()[k].0,
                elapsed(self.cache()[k].1, now) as u64,
            ),
    {
        proof {
            use_type_invariant(self);
        }
        let mut r: Vec<(String, (u64, u64))> = Vec::new();
        let mut i: usize = 0;
        while i < self.metric_cache.len()
            invariant
                i <= self.metric_cache@.len(),
                kv_unique(self.metric_cache@),
                r@.len() == i,
                forall|k: int| 0 <= k < i ==> {
                    &&& (#[trigger] r@[k]).0@ == self.metric_cache@[k].0@
                    &&& r@[k].1 == (self.metric_cache@[k].1.0, elapsed(self.metric_cache@[k].1.1, now) as u64)
                },
            decreases self.metric_cache@.len() - i,
        {
            let (value, at) = self.metric_cache[i].1;
            let age: u64 = if now >= at { now - at } else { 0 };
            r.push((self.metric_cache[i].0.clone(), (value, age)));
            i = i + 1;
        }
        proof {
            let a = r@;
            let b = self.metric_cache@;
            assert(kv_unique(a)) by {
                assert forall|x: int, y: int| 0 <= x < a.len() && 0 <= y < a.len() && x != y implies a[x].0@ != a[y].0@ by {
                    assert(a[x].0@ == b[x].0@ && a[y].0@ == b[y].0@);
                }
            }
            assert forall|k: Seq<char>| #[trigger] kv_map(a).contains_key(k) <==> kv_map(b).contains_key(k) by {
                if crate::keyed::kv_has(a, k) {
                    let x = crate::keyed::kv_index(a, k);
                    assert(b[x].0@ == k);
                }
                if crate::keyed::kv_has(b, k) {
                    let x = crate::keyed::kv_index(b, k);
                    assert(a[x].0@ == k);
                }
            }
            assert forall|k: Seq<char>| #[trigger] kv_map(a).contains_key(k) implies kv_map(a)[k] == (
                kv_map(b)[k].0,
                elapsed(kv_map(b)[k].1, now) as u64,
            ) by {
                let x = crate::keyed::kv_index(a, k);
                lemma_kv_index_unique(a, x);
                assert(b[x].0@ == k);
                lemma_kv_index_unique(b, x);
            }
        }
        r
    }
}

} // verus!
