//! Structured logging: the logging configuration, request correlation
//! contexts and the log aggregators' settings.

use vstd::prelude::*;
use crate::keyed::{kv_find, kv_map, kv_put, kv_unique, lemma_kv_index_unique};
use crate::text::{new_uuid_string, uuid_parse};

verus! {

/// Global logging configuration. Module levels are (module, level) pairs
/// with distinct modules.
pub struct LoggingConfig {
    /// Global log level (trace, debug, info, warn, error).
    pub level: String,
    /// Module-specific log levels.
    pub module_levels: Vec<(String, String)>,
    /// Enable JSON output format.
    pub json_format: bool,
    /// Enable request correlation.
    pub enable_correlation: bool,
    /// Maximum log files to retain.
    pub max_log_files: usize,
    /// Maximum log file size in bytes.
    pub max_file_size_bytes: usize,
    /// Log file prefix.
    pub log_file_prefix: String,
    /// Enable async logging.
    pub async_logging: bool,
}

impl Default for LoggingConfig {
    /// Level info, JSON output, correlation and async logging on, ten files
    /// of 100 MiB named `bitcraps`, and module levels for consensus and
    /// gaming (info), network and monitoring (debug), btleplug and warp (warn).
    fn default() -> (c: Self)
        ensures
            c.level@ == "info"@,
            kv_unique(c.module_levels@),
            kv_map(c.module_levels@).dom() == set![
                "bitcraps::consensus"@,
                "bitcraps::gaming"@,
                "bitcraps::network"@,
                "bitcraps::monitoring"@,
                "btleplug"@,
                "warp"@,
            ],
            kv_map(c.module_levels@)["bitcraps::consensus"@]@ == "info"@,
            kv_map(c.module_levels@)["bitcraps::gaming"@]@ == "info"@,
            kv_map(c.module_levels@)["bitcraps::network"@]@ == "debug"@,
            kv_map(c.module_levels@)["bitcraps::monitoring"@]@ == "debug"@,
            kv_map(c.module_levels@)["btleplug"@]@ == "warn"@,
            kv_map(c.module_levels@)["warp"@]@ == "warn"@,
            c.json_format,
            c.enable_correlation,
            c.max_log_files == 10,
            c.max_file_size_bytes == 104857600,
            c.log_file_prefix@ == "bitcraps"@,
            c.async_logging,
    {
        let mut module_levels: Vec<(String, String)> = Vec::new();
        assert(kv_map(module_levels@) =~= Map::<Seq<char>, String>::empty());
        proof {
            reveal_strlit("bitcraps::consensus");
            reveal_strlit("bitcraps::gaming");
            reveal_strlit("bitcraps::network");
            reveal_strlit("bitcraps::monitoring");
            reveal_strlit("btleplug");
            reveal_strlit("warp");
        }
        assert("bitcraps::consensus"@.len() == 19 && "bitcraps::gaming"@.len() == 16 && "bitcraps::network"@.len() == 17
            && "bitcraps::monitoring"@.len() == 20 && "btleplug"@.len() == 8 && "warp"@.len() == 4);
        kv_put(&mut module_levels, "bitcraps::consensus", "info".to_owned());
        kv_put(&mut module_levels, "bitcraps::gaming", "info".to_owned());
        kv_put(&mut module_levels, "bitcraps::network", "debug".to_owned());
        kv_put(&mut module_levels, "bitcraps::monitoring", "debug".to_owned());
        kv_put(&mut module_levels, "btleplug", "warn".to_owned());
        kv_put(&mut module_levels, "warp", "warn".to_owned());
        proof {
            let m = kv_map(module_levels@);
            assert(m.dom() =~= set![
                "bitcraps::consensus"@,
                "bitcraps::gaming"@,
                "bitcraps::network"@,
                "bitcraps::monitoring"@,
                "btleplug"@,
                "warp"@,
            ]);
            assert(m["bitcraps::consensus"@]@ == "info"@);
            assert(m["bitcraps::gaming"@]@ == "info"@);
            assert(m["bitcraps::network"@]@ == "debug"@);
            assert(m["bitcraps::monitoring"@]@ == "debug"@);
            assert(m["btleplug"@]@ == "warn"@);
            assert(m["warp"@]@ == "warn"@);
        }
        LoggingConfig {
            level: "info".to_owned(),
            module_levels,
            json_format: true,
            enable_correlation: true,
            max_log_files: 10,
            max_file_size_bytes: 100 * 1024 * 1024,
            log_file_prefix: "bitcraps".to_owned(),
            async_logging: true,
        }
    }
}

/// Custom trace entries of a correlation context: (key, value) pairs with
/// distinct keys, in the order the keys were first set.
pub struct TraceContext {
    entries: Vec<(String, String)>,
}

impl View for TraceContext {
    type V = Map<Seq<char>, String>;

    closed spec fn view(&self) -> Map<Seq<char>, String> {
        kv_map(self.entries@)
    }
}

impl TraceContext {
    #[verifier::type_invariant]
    spec fn inv(self) -> bool {
        kv_unique(self.entries@)
    }

    /// No entries.
    pub fn new() -> (t: Self)
        ensures
            t@ == Map::<Seq<char>, String>::empty(),
    {
        let t = TraceContext { entries: Vec::new() };
        assert(kv_map(t.entries@) =~= Map::<Seq<char>, String>::empty());
        t
    }

    /// Sets entry `key` to `value`, replacing an earlier one.
    pub fn insert(&mut self, key: &str, value: String)
        ensures
            final(self)@ == old(self)@.insert(key@, value),
    {
        proof {
            use_type_invariant(&*self);
        }
        let mut entries = Vec::new();
        std::mem::swap(&mut entries, &mut self.entries);
        kv_put(&mut entries, key, value);
        self.entries = entries;
    }

    /// The value of entry `key`, if set.
    pub fn get(&self, key: &str) -> (r: Option<&String>)
        ensures
            r is Some <==> self@.contains_key(key@),
            r matches Some(v) ==> *v == self@[key@],
    {
        proof {
            use_type_invariant(self);
        }
        match kv_find(&self.entries, key) {
            Some(i) => {
                proof {
                    lemma_kv_index_unique(self.entries@, i as int);
                }
                Some(&self.entries[i].1)
            },
            None => None,
        }
    }

    /// The entries, each key once.
    pub fn entries(&self) -> (r: &Vec<(String, String)>)
        ensures
            kv_unique(r@),
            kv_map(r@) == self@,
    {
        proof {
            use_type_invariant(self);
        }
        &self.entries
    }
}

/// Request correlation context.
pub struct CorrelationContext {
    /// Unique request ID.
    pub request_id: String,
    /// User ID if available.
    pub user_id: Option<String>,
    /// Session ID if available.
    pub session_id: Option<String>,
    /// Game ID if in gaming context.
    pub game_id: Option<String>,
    /// Custom trace context.
    pub trace_context: TraceContext,
}

impl CorrelationContext {
    /// A context with a fresh random request id and nothing else.
    pub fn new() -> (c: Self)
        ensures
            uuid_parse(c.request_id@) is Some,
            c.user_id is None,
            c.session_id is None,
            c.game_id is None,
            c.trace_context@ == Map::<Seq<char>, String>::empty(),
    {
        CorrelationContext {
            request_id: new_uuid_string(),
            user_id: None,
            session_id: None,
            game_id: None,
            trace_context: TraceContext::new(),
        }
    }

    pub fn with_request_id(self, request_id: String) -> (c: Self)
        ensures
            c.request_id == request_id,
            c.user_id == self.user_id,
            c.session_id == self.session_id,
            c.game_id == self.game_id,
            c.trace_context == self.trace_context,
    {
        let mut c = self;
        c.request_id = request_id;
        c
    }

    pub fn with_user_id(self, user_id: String) -> (c: Self)
        ensures
            c.request_id == self.request_id,
            c.user_id == Some(user_id),
            c.session_id == self.session_id,
            c.game_id == self.game_id,
            c.trace_context == self.trace_context,
    {
        let mut c = self;
        c.user_id = Some(user_id);
        c
    }

    pub fn with_session_id(self, session_id: String) -> (c: Self)
        ensures
            c.request_id == self.request_id,
            c.user_id == self.user_id,
            c.session_id == Some(session_id),
            c.game_id == self.game_id,
            c.trace_context == self.trace_context,
    {
        let mut c = self;
        c.session_id = Some(session_id);
        c
    }

    pub fn with_game_id(self, game_id: String) -> (c: Self)
        ensures
            c.request_id == self.request_id,
            c.user_id == self.user_id,
            c.session_id == self.session_id,
            c.game_id == Some(game_id),
            c.trace_context == self.trace_context,
    {
        let mut c = self;
        c.game_id = Some(game_id);
        c
    }

    /// Sets the trace context entry `key` to `value`, replacing an earlier one.
    pub fn add_context(self, key: String, value: String) -> (c: Self)
        ensures
            c.trace_context@ == self.trace_context@.insert(key@, value),
            c.request_id == self.request_id,
            c.user_id == self.user_id,
            c.session_id == self.session_id,
            c.game_id == self.game_id,
    {
        let mut c = self;
        c.trace_context.insert(key.as_str(), value);
        c
    }
}

/// Makes `context` the current correlation context held in `slot`.
pub fn set_correlation_context(slot: &mut Option<CorrelationContext>, context: CorrelationContext)
    ensures
        *final(slot) == Some(context),
{
    *slot = Some(context);
}

/// The current correlation context held in `slot`.
pub fn get_correlation_context(slot: &Option<CorrelationContext>) -> (r: Option<&CorrelationContext>)
    ensures
        r == match slot {
            Some(c) => Some(c),
            None => None::<&CorrelationContext>,
        },
{
    match slot {
        Some(c) => Some(c),
        None => None,
    }
}

/// Clears the current correlation context held in `slot`.
pub fn clear_correlation_context(slot: &mut Option<CorrelationContext>)
    ensures
        *final(slot) is None,
{
    *slot = None;
}

/// The layer that writes each log event as one line of JSON.
pub struct StructuredLoggingLayer;

/// Fluentd log aggregator settings.
pub struct FluentdAggregator {
    pub host: String,
    pub port: u16,
    pub tag: String,
}

impl FluentdAggregator {
    pub fn new(host: String, port: u16, tag: String) -> (a: Self)
        ensures
            a.host == host,
            a.port == port,
            a.tag == tag,
    {
        FluentdAggregator { host, port, tag }
    }
}

} // verus!
