//! Notification channels: which channels an alert goes to, how each
//! channel shows a severity, the per-alert rate limits, and the outcome of
//! a round of sends. The sends themselves are made by the caller.

use vstd::prelude::*;
use crate::keyed::{kv_find, kv_map, kv_put, kv_unique, lemma_kv_index_unique};
use crate::monitoring::alerting::alert_types::{
    severity_rank, Alert, AlertSeverity, AlertingError, NotificationChannel, NotificationConfig, NotificationRateLimit,
};
use crate::text::{concat_str, string_eq};

verus! {

/// Whether `s` holds a string equal to `x`.
pub open spec fn holds_string(s: Seq<String>, x: Seq<char>) -> bool {
    exists|i: int| 0 <= i < s.len() && (#[trigger] s[i])@ == x
}

/// Whether a channel takes an alert: the alert reaches the channel's
/// minimum severity, belongs to one of its categories (when it names any)
/// and carries all its required tags.
pub open spec fn channel_accepts(channel: NotificationChannel, alert: Alert) -> bool {
    &&& (channel.min_severity matches Some(min) ==> severity_rank(alert.severity) >= severity_rank(min))
    &&& (channel.categories@.len() > 0 ==> holds_string(channel.categories@, alert.category@))
    &&& forall|i: int| 0 <= i < channel.required_tags@.len() ==> holds_string(alert.tags@, (#[trigger] channel.required_tags@[i])@)
}

fn contains_string(v: &Vec<String>, x: &String) -> (r: bool)
    ensures
        r == holds_string(v@, x@),
{
    let mut i: usize = 0;
    while i < v.len()
        invariant
            i <= v@.len(),
            forall|j: int| 0 <= j < i ==> (#[trigger] v@[j])@ != x@,
        decreases v.len() - i,
    {
        if string_eq(&v[i], x) {
            return true;
        }
        i = i + 1;
    }
    false
}

/// Whether `alert` goes to `channel`.
pub fn should_send_to_channel(channel: &NotificationChannel, alert: &Alert) -> (r: bool)
    ensures
        r == channel_accepts(*channel, *alert),
{
    match channel.min_severity {
        Some(min_severity) => {
            if !alert.severity.at_least(min_severity) {
                return false;
            }
        },
        None => {},
    }
    if channel.categories.len() > 0 && !contains_string(&channel.categories, &alert.category) {
        return false;
    }
    let mut i: usize = 0;
    while i < channel.required_tags.len()
        invariant
            i <= channel.required_tags@.len(),
            forall|j: int| 0 <= j < i ==> holds_string(alert.tags@, (#[trigger] channel.required_tags@[j])@),
        decreases channel.required_tags.len() - i,
    {
        if !contains_string(&alert.tags, &channel.required_tags[i]) {
            return false;
        }
        i = i + 1;
    }
    true
}

/// Slack attachment color of a severity.
pub open spec fn slack_color(s: AlertSeverity) -> Seq<char> {
    match s {
        AlertSeverity::Critical => "danger"@,
        AlertSeverity::High => "warning"@,
        AlertSeverity::Medium => "warning"@,
        AlertSeverity::Low => "good"@,
        AlertSeverity::Info => "#439FE0"@,
    }
}

/// Discord embed color of a severity.
pub open spec fn discord_color(s: AlertSeverity) -> u32 {
    match s {
        AlertSeverity::Critical => 0xFF0000,
        AlertSeverity::High => 0xFF8C00,
        AlertSeverity::Medium => 0xFFD700,
        AlertSeverity::Low => 0x32CD32,
        AlertSeverity::Info => 0x1E90FF,
    }
}

/// Teams card color of a severity.
pub open spec fn teams_color(s: AlertSeverity) -> Seq<char> {
    match s {
        AlertSeverity::Critical => "FF0000"@,
        AlertSeverity::High => "FF8C00"@,
        AlertSeverity::Medium => "FFD700"@,
        AlertSeverity::Low => "32CD32"@,
        AlertSeverity::Info => "439FE0"@,
    }
}

/// PagerDuty event severity of a severity.
pub open spec fn pagerduty_severity(s: AlertSeverity) -> Seq<char> {
    match s {
        AlertSeverity::Critical => "critical"@,
        AlertSeverity::High => "error"@,
        AlertSeverity::Medium => "warning"@,
        AlertSeverity::Low => "warning"@,
        AlertSeverity::Info => "info"@,
    }
}

/// Slack icon of a severity.
pub open spec fn slack_icon(s: AlertSeverity) -> Seq<char> {
    match s {
        AlertSeverity::Critical => "\u{1F6A8}"@,
        AlertSeverity::High => "\u{26A0}\u{FE0F}"@,
        AlertSeverity::Medium => "\u{1F536}"@,
        AlertSeverity::Low => "\u{2139}\u{FE0F}"@,
        AlertSeverity::Info => "\u{1F4A1}"@,
    }
}

/// Discord and Teams icon of a severity.
pub open spec fn card_icon(s: AlertSeverity) -> Seq<char> {
    match s {
        AlertSeverity::Critical => "\u{1F6A8}"@,
        AlertSeverity::High => "\u{26A0}\u{FE0F}"@,
        AlertSeverity::Medium => "\u{1F536}"@,
        AlertSeverity::Low => "\u{2705}"@,
        AlertSeverity::Info => "\u{2139}\u{FE0F}"@,
    }
}

pub fn get_slack_color(severity: &AlertSeverity) -> (r: &'static str)
    ensures
        r@ == slack_color(*severity),
{
    match severity {
        AlertSeverity::Critical => "danger",
        AlertSeverity::High => "warning",
        AlertSeverity::Medium => "warning",
        AlertSeverity::Low => "good",
        AlertSeverity::Info => "#439FE0",
    }
}

pub fn get_slack_icon(severity: &AlertSeverity) -> (r: &'static str)
    ensures
        r@ == slack_icon(*severity),
{
    match severity {
        AlertSeverity::Critical => "\u{1F6A8}",
        AlertSeverity::High => "\u{26A0}\u{FE0F}",
        AlertSeverity::Medium => "\u{1F536}",
        AlertSeverity::Low => "\u{2139}\u{FE0F}",
        AlertSeverity::Info => "\u{1F4A1}",
    }
}

pub fn get_discord_color(severity: &AlertSeverity) -> (r: u32)
    ensures
        r == discord_color(*severity),
{
    match severity {
        AlertSeverity::Critical => 0xFF0000,
        AlertSeverity::High => 0xFF8C00,
        AlertSeverity::Medium => 0xFFD700,
        AlertSeverity::Low => 0x32CD32,
        AlertSeverity::Info => 0x1E90FF,
    }
}

pub fn get_discord_icon(severity: &AlertSeverity) -> (r: &'static str)
    ensures
        r@ == card_icon(*severity),
{
    match severity {
        AlertSeverity::Critical => "\u{1F6A8}",
        AlertSeverity::High => "\u{26A0}\u{FE0F}",
        AlertSeverity::Medium => "\u{1F536}",
        AlertSeverity::Low => "\u{2705}",
        AlertSeverity::Info => "\u{2139}\u{FE0F}",
    }
}

pub fn get_teams_color(severity: &AlertSeverity) -> (r: &'static str)
    ensures
        r@ == teams_color(*severity),
{
    match severity {
        AlertSeverity::Critical => "FF0000",
        AlertSeverity::High => "FF8C00",
        AlertSeverity::Medium => "FFD700",
        AlertSeverity::Low => "32CD32",
        AlertSeverity::Info => "439FE0",
    }
}

pub fn get_teams_icon(severity: &AlertSeverity) -> (r: &'static str)
    ensures
        r@ == card_icon(*severity),
{
    get_discord_icon(severity)
}

pub fn get_pagerduty_severity(severity: &AlertSeverity) -> (r: &'static str)
    ensures
        r@ == pagerduty_severity(*severity),
{
    match severity {
        AlertSeverity::Critical => "critical",
        AlertSeverity::High => "error",
        AlertSeverity::Medium => "warning",
        AlertSeverity::Low => "warning",
        AlertSeverity::Info => "info",
    }
}

/// The most notifications of one alert sent within a minute.
pub const MAX_PER_MINUTE: u32 = 10;

/// Count of `name` in a table of counts, 0 when absent.
pub open spec fn count_of(m: Map<Seq<char>, u32>, name: Seq<char>) -> u32 {
    if m.contains_key(name) { m[name] } else { 0 }
}

/// `n + 1`, wrapping around at 2^32.
pub open spec fn bump(n: u32) -> u32 {
    if n < u32::MAX { (n + 1) as u32 } else { 0 }
}

fn lookup_count(counts: &Vec<(String, u32)>, name: &str) -> (r: u32)
    requires
        kv_unique(counts@),
    ensures
        r == count_of(kv_map(counts@), name@),
{
    match kv_find(counts, name) {
        Some(i) => {
            proof {
                lemma_kv_index_unique(counts@, i as int);
            }
            counts[i].1
        },
        None => 0,
    }
}

fn bump_count(counts: &mut Vec<(String, u32)>, name: &str)
    requires
        kv_unique(old(counts)@),
    ensures
        kv_unique(final(counts)@),
        kv_map(final(counts)@) == kv_map(old(counts)@).insert(name@, bump(count_of(kv_map(old(counts)@), name@))),
{
    let c = lookup_count(counts, name);
    let n = if c < u32::MAX { c + 1 } else { 0 };
    kv_put(counts, name, n);
}

/// Rate limiter for notifications: counts of sends per alert name in the
/// current minute, hour and day.
pub struct NotificationRateLimiter {
    rate_limit: NotificationRateLimit,
    per_minute_counts: Vec<(String, u32)>,
    per_hour_counts: Vec<(String, u32)>,
    per_day_counts: Vec<(String, u32)>,
}

impl NotificationRateLimiter {
    #[verifier::type_invariant]
    spec fn inv(self) -> bool {
        &&& kv_unique(self.per_minute_counts@)
        &&& kv_unique(self.per_hour_counts@)
        &&& kv_unique(self.per_day_counts@)
    }

    /// The limits.
    pub closed spec fn limits(self) -> NotificationRateLimit {
        self.rate_limit
    }

    /// Sends per alert name in the current minute.
    pub closed spec fn minute(self) -> Map<Seq<char>, u32> {
        kv_map(self.per_minute_counts@)
    }

    /// Sends per alert name in the current hour.
    pub closed spec fn hour(self) -> Map<Seq<char>, u32> {
        kv_map(self.per_hour_counts@)
    }

    /// Sends per alert name in the current day.
    pub closed spec fn day(self) -> Map<Seq<char>, u32> {
        kv_map(self.per_day_counts@)
    }

    pub fn new(rate_limit: NotificationRateLimit) -> (l: Self)
        ensures
            l.limits() == rate_limit,
            l.minute() == Map::<Seq<char>, u32>::empty(),
            l.hour() == Map::<Seq<char>, u32>::empty(),
            l.day() == Map::<Seq<char>, u32>::empty(),
    {
        let l = NotificationRateLimiter {
            rate_limit,
            per_minute_counts: Vec::new(),
            per_hour_counts: Vec::new(),
            per_day_counts: Vec::new(),
        };
        assert(kv_map(l.per_minute_counts@) =~= Map::<Seq<char>, u32>::empty());
        l
    }

    /// Whether one more notification of `alert_name` may go out: fewer than
    /// ten this minute, and fewer than the hourly and daily limits.
    pub fn can_send(&self, alert_name: &str) -> (r: bool)
        ensures
            r == (count_of(self.minute(), alert_name@) < MAX_PER_MINUTE && count_of(self.hour(), alert_name@)
                < self.limits().max_per_hour && count_of(self.day(), alert_name@) < self.limits().max_per_day),
    {
        proof {
            use_type_invariant(self);
        }
        if lookup_count(&self.per_minute_counts, alert_name) >= MAX_PER_MINUTE {
            return false;
        }
        if lookup_count(&self.per_hour_counts, alert_name) >= self.rate_limit.max_per_hour {
            return false;
        }
        if lookup_count(&self.per_day_counts, alert_name) >= self.rate_limit.max_per_day {
            return false;
        }
        true
    }

    /// Counts a sent notification of `alert_name` in all three periods.
    pub fn record_sent(&mut self, alert_name: &str)
        ensures
            final(self).limits() == old(self).limits(),
            final(self).minute() == old(self).minute().insert(alert_name@, bump(count_of(old(self).minute(), alert_name@))),
            final(self).hour() == old(self).hour().insert(alert_name@, bump(count_of(old(self).hour(), alert_name@))),
            final(self).day() == old(self).day().insert(alert_name@, bump(count_of(old(self).day(), alert_name@))),
    {
        proof {
            use_type_invariant(&*self);
        }
        let mut m = Vec::new();
        std::mem::swap(&mut m, &mut self.per_minute_counts);
        bump_count(&mut m, alert_name);
        self.per_minute_counts = m;
        let mut h = Vec::new();
        std::mem::swap(&mut h, &mut self.per_hour_counts);
        bump_count(&mut h, alert_name);
        self.per_hour_counts = h;
        let mut d = Vec::new();
        std::mem::swap(&mut d, &mut self.per_day_counts);
        bump_count(&mut d, alert_name);
        self.per_day_counts = d;
    }

    /// Starts a new minute.
    pub fn reset_minute_counters(&mut self)
        ensures
            final(self).limits() == old(self).limits(),
            final(self).minute() == Map::<Seq<char>, u32>::empty(),
            final(self).hour() == old(self).hour(),
            final(self).day() == old(self).day(),
    {
        proof {
            use_type_invariant(&*self);
        }
        self.per_minute_counts = Vec::new();
        assert(kv_map(self.per_minute_counts@) =~= Map::<Seq<char>, u32>::empty());
    }

    /// Starts a new hour.
    pub fn reset_hour_counters(&mut self)
        ensures
            final(self).limits() == old(self).limits(),
            final(self).hour() == Map::<Seq<char>, u32>::empty(),
            final(self).minute() == old(self).minute(),
            final(self).day() == old(self).day(),
    {
        proof {
            use_type_invariant(&*self);
        }
        self.per_hour_counts = Vec::new();
        assert(kv_map(self.per_hour_counts@) =~= Map::<Seq<char>, u32>::empty());
    }

    /// Starts a new day.
    pub fn reset_day_counters(&mut self)
        ensures
            final(self).limits() == old(self).limits(),
            final(self).day() == Map::<Seq<char>, u32>::empty(),
            final(self).minute() == old(self).minute(),
            final(self).hour() == old(self).hour(),
    {
        proof {
            use_type_invariant(&*self);
        }
        self.per_day_counts = Vec::new();
        assert(kv_map(self.per_day_counts@) =~= Map::<Seq<char>, u32>::empty());
    }

    /// Whether any period has a count for `k`.
    pub open spec fn counts_name(self, k: Seq<char>) -> bool {
        self.minute().contains_key(k) || self.hour().contains_key(k) || self.day().contains_key(k)
    }

    /// The (minute, hour, day) counts of the alert named `alert_name`.
    pub fn get_counts(&self, alert_name: &str) -> (r: (u32, u32, u32))
        ensures
            r == (count_of(self.minute(), alert_name@), count_of(self.hour(), alert_name@), count_of(self.day(), alert_name@)),
    {
        proof {
            use_type_invariant(self);
        }
        (
            lookup_count(&self.per_minute_counts, alert_name),
            lookup_count(&self.per_hour_counts, alert_name),
            lookup_count(&self.per_day_counts, alert_name),
        )
    }

    /// The counts of every alert name that has any, each name once.
    pub fn get_status(&self) -> (r: Vec<(String, (u32, u32, u32))>)
        ensures
            forall|i: int| 0 <= i < r@.len() ==> (#[trigger] r@[i]).1 == (
                count_of(self.minute(), r@[i].0@),
                count_of(self.hour(), r@[i].0@),
                count_of(self.day(), r@[i].0@),
            ),
            forall|k: Seq<char>| #[trigger] self.counts_name(k) <==> status_names(r@, k),
            forall|i: int, j: int| 0 <= i < j < r@.len() ==> r@[i].0@ != r@[j].0@,
    {
        proof {
            use_type_invariant(self);
        }
        let mut out: Vec<(String, (u32, u32, u32))> = Vec::new();
        let mut keys: Vec<(String, ())> = Vec::new();
        self.collect_keys(&self.per_minute_counts, &mut keys);
        self.collect_keys(&self.per_hour_counts, &mut keys);
        self.collect_keys(&self.per_day_counts, &mut keys);
        let mut i: usize = 0;
        while i < keys.len()
            invariant
                i <= keys@.len(),
                kv_unique(keys@),
                out@.len() == i,
                forall|a: int| 0 <= a < i ==> (#[trigger] out@[a]).0@ == keys@[a].0@,
                forall|a: int| 0 <= a < i ==> (#[trigger] out@[a]).1 == (
                    count_of(self.minute(), out@[a].0@),
                    count_of(self.hour(), out@[a].0@),
                    count_of(self.day(), out@[a].0@),
                ),
                kv_unique(self.per_minute_counts@),
                kv_unique(self.per_hour_counts@),
                kv_unique(self.per_day_counts@),
            decreases keys.len() - i,
        {
            let name = keys[i].0.clone();
            let counts = self.get_counts(name.as_str());
            out.push((name, counts));
            i = i + 1;
        }
        proof {
            assert forall|k: Seq<char>| #[trigger] self.counts_name(k) <==> status_names(out@, k) by {
                if kv_map(keys@).contains_key(k) {
                    let a = crate::keyed::kv_index(keys@, k);
                    assert(out@[a].0@ == k);
                }
                if exists|a: int| 0 <= a < out@.len() && (#[trigger] out@[a]).0@ == k {
                    let a = choose|a: int| 0 <= a < out@.len() && (#[trigger] out@[a]).0@ == k;
                    lemma_kv_index_unique(keys@, a);
                }
            }
        }
        out
    }

    /// Adds the names of a table of counts to a list of names.
    fn collect_keys(&self, counts: &Vec<(String, u32)>, keys: &mut Vec<(String, ())>)
        requires
            kv_unique(counts@),
            kv_unique(old(keys)@),
        ensures
            kv_unique(final(keys)@),
            kv_map(final(keys)@).dom() == kv_map(old(keys)@).dom().union(kv_map(counts@).dom()),
    {
        let ghost k0 = kv_map(keys@).dom();
        let mut i: usize = 0;
        while i < counts.len()
            invariant
                i <= counts@.len(),
                kv_unique(counts@),
                kv_unique(keys@),
                kv_map(keys@).dom() == k0.union(Set::new(|k: Seq<char>| exists|j: int| 0 <= j < i && (#[trigger] counts@[j]).0@ == k)),
            decreases counts.len() - i,
        {
            let ghost before = kv_map(keys@).dom();
            kv_put(keys, counts[i].0.as_str(), ());
            proof {
                let s_old = Set::new(|k: Seq<char>| exists|j: int| 0 <= j < i && (#[trigger] counts@[j]).0@ == k);
                let s_new = Set::new(|k: Seq<char>| exists|j: int| 0 <= j < i + 1 && (#[trigger] counts@[j]).0@ == k);
                assert(s_new =~= s_old.insert(counts@[i as int].0@));
                assert(kv_map(keys@).dom() =~= before.insert(counts@[i as int].0@));
                assert(kv_map(keys@).dom() =~= k0.union(s_new));
            }
            i = i + 1;
        }
        proof {
            let s_all = Set::new(|k: Seq<char>| exists|j: int| 0 <= j < counts@.len() && (#[trigger] counts@[j]).0@ == k);
            assert forall|k: Seq<char>| s_all.contains(k) <==> kv_map(counts@).dom().contains(k) by {
                if s_all.contains(k) {
                    let j = choose|j: int| 0 <= j < counts@.len() && (#[trigger] counts@[j]).0@ == k;
                    lemma_kv_index_unique(counts@, j);
                }
            }
            assert(s_all =~= kv_map(counts@).dom());
        }
    }
}

/// Some entry of a status list is for `k`.
pub open spec fn status_names(r: Seq<(String, (u32, u32, u32))>, k: Seq<char>) -> bool {
    exists|i: int| 0 <= i < r.len() && (#[trigger] r[i]).0@ == k
}

/// Rate-limiting never lets more sends through than the hourly limit:
/// where the hourly count has reached the limit, nothing more may go out.
pub proof fn lemma_hourly_limit(limiter: NotificationRateLimiter, name: Seq<char>)
    requires
        count_of(limiter.hour(), name) >= limiter.limits().max_per_hour,
    ensures
        !(count_of(limiter.minute(), name) < MAX_PER_MINUTE && count_of(limiter.hour(), name) < limiter.limits().max_per_hour
            && count_of(limiter.day(), name) < limiter.limits().max_per_day),
{
}

/// A recorded send raises each period's count of that alert by one (below
/// 2^32) and leaves the other alerts' counts as they were.
pub proof fn lemma_record_counts(m: Map<Seq<char>, u32>, name: Seq<char>, other: Seq<char>)
    requires
        count_of(m, name) < u32::MAX,
        other != name,
    ensures
        count_of(m.insert(name, bump(count_of(m, name))), name) == count_of(m, name) + 1,
        count_of(m.insert(name, bump(count_of(m, name))), other) == count_of(m, other),
{
}

/// Notification dispatcher: the channels and the rate limiter.
pub struct NotificationDispatcher {
    pub channels: Vec<NotificationChannel>,
    pub rate_limiter: NotificationRateLimiter,
}

impl NotificationDispatcher {
    pub fn new(config: NotificationConfig) -> (d: Self)
        ensures
            d.channels == config.channels,
            d.rate_limiter.limits() == config.rate_limit,
            d.rate_limiter.hour() == Map::<Seq<char>, u32>::empty(),
    {
        NotificationDispatcher { channels: config.channels, rate_limiter: NotificationRateLimiter::new(config.rate_limit) }
    }

    /// Adds a channel.
    pub fn add_channel(&mut self, channel: NotificationChannel)
        ensures
            final(self).channels@ == old(self).channels@.push(channel),
    {
        self.channels.push(channel);
    }

    /// Removes the channels named `channel_name`; tells whether any was.
    pub fn remove_channel(&mut self, channel_name: &str) -> (r: bool)
        ensures
            forall|i: int| 0 <= i < final(self).channels@.len() ==> (#[trigger] final(self).channels@[i]).name@ != channel_name@,
            forall|i: int| 0 <= i < old(self).channels@.len() && (#[trigger] old(self).channels@[i]).name@ != channel_name@
                ==> final(self).channels@.contains(old(self).channels@[i]),
            forall|i: int| 0 <= i < final(self).channels@.len() ==> old(self).channels@.contains(#[trigger] final(self).channels@[i]),
            r == (final(self).channels@.len() != old(self).channels@.len()),
            r == exists|i: int| 0 <= i < old(self).channels@.len() && (#[trigger] old(self).channels@[i]).name@ == channel_name@,
    {
        let mut old_channels = Vec::new();
        std::mem::swap(&mut old_channels, &mut self.channels);
        let ghost s = old_channels@;
        let initial_len = old_channels.len();
        let mut kept: Vec<NotificationChannel> = Vec::new();
        let ghost mut i: int = 0;
        let mut found = false;
        while old_channels.len() > 0
            invariant
                0 <= i <= s.len(),
                old_channels@ == s.skip(i),
                initial_len == s.len(),
                kept@.len() <= i,
                found == (kept@.len() < i),
                found == exists|j: int| 0 <= j < i && (#[trigger] s[j]).name@ == channel_name@,
                forall|a: int| 0 <= a < kept@.len() ==> (#[trigger] kept@[a]).name@ != channel_name@,
                forall|j: int| 0 <= j < i && (#[trigger] s[j]).name@ != channel_name@ ==> kept@.contains(s[j]),
                forall|a: int| 0 <= a < kept@.len() ==> s.take(i).contains(#[trigger] kept@[a]),
            decreases old_channels.len(),
        {
            let c = old_channels.remove(0);
            let ghost before = kept@;
            proof {
                assert(c == s[i]);
                assert(s.take(i + 1) =~= s.take(i).push(s[i]));
            }
            let name_matches = crate::text::str_eq(c.name.as_str(), channel_name);
            if !name_matches {
                kept.push(c);
                proof {
                    assert(forall|a: int| 0 <= a < before.len() ==> kept@[a] == before[a]);
                    assert(kept@[before.len() as int] == s[i]);
                    assert forall|a: int| 0 <= a < kept@.len() implies s.take(i + 1).contains(#[trigger] kept@[a]) by {
                        if a < before.len() {
                            assert(s.take(i).contains(before[a]));
                            let w = choose|w: int| 0 <= w < s.take(i).len() && s.take(i)[w] == before[a];
                            assert(s.take(i + 1)[w] == before[a]);
                        } else {
                            assert(s.take(i + 1)[i] == s[i]);
                        }
                    }
                    assert forall|j: int| 0 <= j < i + 1 && (#[trigger] s[j]).name@ != channel_name@ implies kept@.contains(s[j]) by {
                        if j < i {
                            let w = choose|w: int| 0 <= w < before.len() && before[w] == s[j];
                            assert(kept@[w] == s[j]);
                        } else {
                            assert(kept@[before.len() as int] == s[j]);
                        }
                    }
                }
            } else {
                found = true;
                proof {
                    assert(s[i].name@ == channel_name@);
                    assert forall|a: int| 0 <= a < kept@.len() implies s.take(i + 1).contains(#[trigger] kept@[a]) by {
                        let w = choose|w: int| 0 <= w < s.take(i).len() && s.take(i)[w] == kept@[a];
                        assert(s.take(i + 1)[w] == kept@[a]);
                    }
                }
            }
            proof {
                i = i + 1;
                assert(old_channels@ =~= s.skip(i));
            }
        }
        proof {
            assert(s.take(i) =~= s);
        }
        let removed = kept.len() != initial_len;
        self.channels = kept;
        removed
    }

    /// Positions of the channels that take `alert`.
    pub fn matching_channels(&self, alert: &Alert) -> (r: Vec<usize>)
        ensures
            forall|i: int| 0 <= i < r@.len() ==> (#[trigger] r@[i]) < self.channels@.len()
                && channel_accepts(self.channels@[r@[i] as int], *alert),
            forall|j: int| 0 <= j < self.channels@.len() && channel_accepts(#[trigger] self.channels@[j], *alert) ==> r@.contains(
                j as usize,
            ),
            forall|a: int, b: int| 0 <= a < b < r@.len() ==> r@[a] < r@[b],
    {
        let mut r: Vec<usize> = Vec::new();
        let mut i: usize = 0;
        while i < self.channels.len()
            invariant
                i <= self.channels@.len(),
                forall|a: int| 0 <= a < r@.len() ==> (#[trigger] r@[a]) < i && channel_accepts(self.channels@[r@[a] as int], *alert),
                forall|j: int| 0 <= j < i && channel_accepts(#[trigger] self.channels@[j], *alert) ==> r@.contains(j as usize),
                forall|a: int, b: int| 0 <= a < b < r@.len() ==> r@[a] < r@[b],
            decreases self.channels.len() - i,
        {
            if should_send_to_channel(&self.channels[i], alert) {
                let ghost before = r@;
                r.push(i);
                proof {
                    assert(r@[before.len() as int] == i);
                    assert forall|j: int| 0 <= j < i + 1 && channel_accepts(#[trigger] self.channels@[j], *alert) implies r@.contains(
                        j as usize,
                    ) by {
                        if j < i {
                            let w = choose|w: int| 0 <= w < before.len() && before[w] == j as usize;
                            assert(r@[w] == j as usize);
                        }
                    }
                }
            }
            i = i + 1;
        }
        r
    }

    /// Outcome of a round of sends of `alert_name`: when any channel took
    /// the alert, the send is counted against the rate limits and the round
    /// succeeds; with no channel matching it also succeeds; otherwise it
    /// fails with the errors, joined by semicolons.
    pub fn finish_notification(&mut self, alert_name: &str, successful_sends: usize, errors: &Vec<String>) -> (r: Result<(), AlertingError>)
        ensures
            successful_sends > 0 ==> r is Ok && final(self).rate_limiter.hour() == old(self).rate_limiter.hour().insert(
                alert_name@,
                bump(count_of(old(self).rate_limiter.hour(), alert_name@)),
            ),
            successful_sends == 0 ==> final(self).rate_limiter.hour() == old(self).rate_limiter.hour()
                && final(self).rate_limiter.minute() == old(self).rate_limiter.minute()
                && final(self).rate_limiter.day() == old(self).rate_limiter.day(),
            successful_sends == 0 && errors@.len() == 0 ==> r is Ok,
            successful_sends == 0 && errors@.len() > 0 ==> (r matches Err(AlertingError::NotificationError(m)) && m@
                == "All notification attempts failed: "@ + joined(errors@)),
            final(self).channels == old(self).channels,
    {
        if successful_sends > 0 {
            self.rate_limiter.record_sent(alert_name);
            Ok(())
        } else if errors.len() == 0 {
            Ok(())
        } else {
            let j = join_errors(errors);
            Err(AlertingError::NotificationError(concat_str("All notification attempts failed: ", j.as_str())))
        }
    }
}

/// Texts joined with "; " between them.
pub open spec fn joined(s: Seq<String>) -> Seq<char>
    decreases s.len(),
{
    if s.len() == 0 {
        seq![]
    } else if s.len() == 1 {
        s[0]@
    } else {
        joined(s.drop_last()) + "; "@ + s.last()@
    }
}

fn join_errors(errors: &Vec<String>) -> (r: String)
    ensures
        r@ == joined(errors@),
{
    if errors.len() == 0 {
        return String::new();
    }
    let mut out = errors[0].clone();
    let mut i: usize = 1;
    while i < errors.len()
        invariant
            1 <= i <= errors@.len(),
            out@ == joined(errors@.take(i as int)),
        decreases errors.len() - i,
    {
        proof {
            assert(errors@.take((i + 1) as int).drop_last() =~= errors@.take(i as int));
        }
        let sep = concat_str(out.as_str(), "; ");
        out = concat_str(sep.as_str(), errors[i].as_str());
        i = i + 1;
    }
    proof {
        assert(errors@.take(1).len() == 1);
    }
    assert(errors@.take(i as int) =~= errors@);
    out
}

} // verus!
