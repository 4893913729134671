//! The Linux monitor's reading of the kernel's status files: the CPU
//! counters of `/proc/stat`, the memory figures of `/proc/meminfo`, the
//! thread count of `/proc/self/status` and a battery's charging status.
//! The files are read by the caller; these functions take their text.

use vstd::prelude::*;
use crate::monitoring::system::monitors::{cpu_total, CpuStats, LinuxSystemMonitor, SystemMonitorError};
use crate::monitoring::system::proc_text::{
    digits_from, int_error_message, int_error_text, is_whitespace_char, is_ws, lines, parse_uint, parse_uint_chars,
    split_lines, split_words, starts_with, string_from_chars, texts, vec_starts_with, words, IntErrorKind,
};
use crate::text::{chars_of, concat_str};

verus! {

/// The value of a number that reads without error, else zero.
pub open spec fn uval(t: Seq<char>) -> u64 {
    match parse_uint(t, u64::MAX as nat) {
        Ok(v) => v as u64,
        Err(_) => 0,
    }
}

/// Field `k` of the words of the CPU line reads as a number.
pub open spec fn field_ok(w: Seq<Seq<char>>, k: int) -> bool {
    parse_uint(w[k], u64::MAX as nat) is Ok
}

/// Field `k` is the first of the ten counters (fields 1 to 10) that does
/// not read as a number.
pub open spec fn first_bad_field(w: Seq<Seq<char>>, k: int) -> bool {
    &&& 1 <= k <= 10
    &&& !field_ok(w, k)
    &&& forall|j: int| 1 <= j < k ==> field_ok(w, j)
}

/// The message for a CPU counter that does not read.
pub open spec fn cpu_field_message(t: Seq<char>, e: IntErrorKind) -> Seq<char> {
    "Failed to parse CPU stat '"@ + t + "': "@ + int_error_text(e)
}

/// The ten counters of the CPU line's words, fields 1 to 10.
pub open spec fn cpu_stats_of(w: Seq<Seq<char>>) -> CpuStats {
    CpuStats {
        user: uval(w[1]),
        nice: uval(w[2]),
        system: uval(w[3]),
        idle: uval(w[4]),
        iowait: uval(w[5]),
        irq: uval(w[6]),
        softirq: uval(w[7]),
        steal: uval(w[8]),
        guest: uval(w[9]),
        guest_nice: uval(w[10]),
    }
}

/// "cpu " as characters.
pub open spec fn cpu_prefix() -> Seq<char> {
    seq!['c', 'p', 'u', ' ']
}

fn error_with(text: &str, part: &str, tail: &str) -> (s: String)
    ensures
        s@ == text@ + part@ + tail@,
{
    let a = concat_str(text, part);
    concat_str(a.as_str(), tail)
}

fn parse_field_message(t: &Vec<char>, e: IntErrorKind) -> (s: String)
    ensures
        s@ == cpu_field_message(t@, e),
{
    let token = string_from_chars(t);
    let a = error_with("Failed to parse CPU stat '", token.as_str(), "': ");
    concat_str(a.as_str(), int_error_message(e))
}

/// Whether a battery's status text (trimmed, in lower case) says it
/// charges: "charging" does; "discharging", "not charging" and "full" do
/// not; any other status says nothing.
pub open spec fn charging_of(status: Seq<char>) -> Option<bool> {
    if status == "charging"@ {
        Some(true)
    } else if status == "discharging"@ || status == "not charging"@ || status == "full"@ {
        Some(false)
    } else {
        None
    }
}

/// A battery is reported as charging for the status "charging" and for no
/// other; "discharging", "not charging" and "full" report it as not
/// charging.
pub proof fn lemma_charging_status(status: Seq<char>)
    ensures
        (charging_of(status) == Some(true)) <==> status == "charging"@,
        charging_of("discharging"@) == Some(false),
        charging_of("not charging"@) == Some(false),
        charging_of("full"@) == Some(false),
{
    reveal_strlit("charging");
    reveal_strlit("discharging");
    reveal_strlit("not charging");
    reveal_strlit("full");
    assert("discharging"@ != "charging"@) by {
        assert("discharging"@.len() != "charging"@.len());
    }
    assert("not charging"@ != "charging"@) by {
        assert("not charging"@.len() != "charging"@.len());
    }
    assert("full"@ != "charging"@) by {
        assert("full"@.len() != "charging"@.len());
    }
}

/// The memory figures of `/proc/meminfo`, in KiB, as the monitor reads them.
#[derive(Debug, Clone, Copy, PartialEq, Eq, Structural)]
pub struct MemInfoKb {
    pub total: u64,
    pub available: u64,
    pub free: u64,
    pub buffers: u64,
    pub cached: u64,
}

/// Whitespace trimmed from the front.
pub open spec fn trim_start(s: Seq<char>) -> Seq<char>
    decreases s.len(),
{
    if s.len() > 0 && is_ws(s[0]) {
        trim_start(s.drop_first())
    } else {
        s
    }
}

/// Whitespace trimmed from the back.
pub open spec fn trim_end(s: Seq<char>) -> Seq<char>
    decreases s.len(),
{
    if s.len() > 0 && is_ws(s.last()) {
        trim_end(s.drop_last())
    } else {
        s
    }
}

/// Whitespace trimmed from both ends, as `str::trim` does.
pub open spec fn trim(s: Seq<char>) -> Seq<char> {
    trim_end(trim_start(s))
}

/// Index of the first ':' of a line, if any.
pub open spec fn colon_at(l: Seq<char>) -> Option<int> {
    if exists|i: int| 0 <= i < l.len() && l[i] == ':' && forall|j: int| 0 <= j < i ==> l[j] != ':' {
        Some(choose|i: int| 0 <= i < l.len() && l[i] == ':' && forall|j: int| 0 <= j < i ==> l[j] != ':')
    } else {
        None
    }
}

/// " kB" as characters.
pub open spec fn kb_suffix() -> Seq<char> {
    seq![' ', 'k', 'B']
}

/// The value text of a meminfo line after its colon: trimmed, then without
/// a " kB" ending.
pub open spec fn value_text(l: Seq<char>, colon: int) -> Seq<char> {
    let v = trim(l.subrange(colon + 1, l.len() as int));
    if v.len() >= 3 && v.subrange(v.len() - 3, v.len() as int) == kb_suffix() {
        v.subrange(0, v.len() - 3)
    } else {
        v
    }
}

/// The message for a memory value that does not read.
pub open spec fn mem_value_message(t: Seq<char>, e: IntErrorKind) -> Seq<char> {
    "Failed to parse memory value '"@ + t + "': "@ + int_error_text(e)
}

/// The figures after one more line of meminfo: a line with a colon whose
/// value reads sets the figure its key names (MemTotal, MemAvailable,
/// MemFree, Buffers or Cached), other keys leave them; a line without a
/// colon is skipped; a value that does not read stops the reading with the
/// value's text and the error.
pub open spec fn mem_line(acc: MemInfoKb, l: Seq<char>) -> Result<MemInfoKb, (Seq<char>, IntErrorKind)> {
    match colon_at(l) {
        None => Ok(acc),
        Some(c) => {
            let key = l.subrange(0, c);
            let t = value_text(l, c);
            match parse_uint(trim(t), u64::MAX as nat) {
                Err(e) => Err((t, e)),
                Ok(v) => Ok(
                    if key == "MemTotal"@ {
                        MemInfoKb { total: v as u64, ..acc }
                    } else if key == "MemAvailable"@ {
                        MemInfoKb { available: v as u64, ..acc }
                    } else if key == "MemFree"@ {
                        MemInfoKb { free: v as u64, ..acc }
                    } else if key == "Buffers"@ {
                        MemInfoKb { buffers: v as u64, ..acc }
                    } else if key == "Cached"@ {
                        MemInfoKb { cached: v as u64, ..acc }
                    } else {
                        acc
                    },
                ),
            }
        },
    }
}

/// The figures after the lines `ls`, starting from `acc`.
pub open spec fn mem_lines(acc: MemInfoKb, ls: Seq<Seq<char>>) -> Result<MemInfoKb, (Seq<char>, IntErrorKind)>
    decreases ls.len(),
{
    if ls.len() == 0 {
        Ok(acc)
    } else {
        match mem_line(acc, ls[0]) {
            Err(x) => Err(x),
            Ok(a) => mem_lines(a, ls.drop_first()),
        }
    }
}

/// No figure read yet.
pub open spec fn mem_zero() -> MemInfoKb {
    MemInfoKb { total: 0, available: 0, free: 0, buffers: 0, cached: 0 }
}

/// The available memory: the kernel's figure, or, where it gives none (older
/// kernels), free memory with buffers and cache.
pub open spec fn available_kb(m: MemInfoKb) -> int {
    if m.available == 0 { m.free + m.buffers + m.cached } else { m.available as int }
}

/// The figures convert to bytes without overflow, and no more memory is
/// available than there is.
pub open spec fn mem_in_range(m: MemInfoKb) -> bool {
    &&& available_kb(m) <= u64::MAX
    &&& m.total * 1024 <= u64::MAX
    &&& available_kb(m) * 1024 <= m.total * 1024
}

fn trim_chars(v: &Vec<char>, from: usize, to: usize) -> (r: Vec<char>)
    requires
        from <= to <= v@.len(),
    ensures
        r@ == trim(v@.subrange(from as int, to as int)),
{
    let ghost s = v@.subrange(from as int, to as int);
    let mut a: usize = from;
    while a < to && is_whitespace_char(v[a])
        invariant
            from <= a <= to <= v@.len(),
            trim_start(s) == trim_start(v@.subrange(a as int, to as int)),
        decreases to - a,
    {
        proof {
            let t = v@.subrange(a as int, to as int);
            assert(t.drop_first() =~= v@.subrange(a + 1, to as int));
        }
        a = a + 1;
    }
    let ghost st = v@.subrange(a as int, to as int);
    proof {
        if a < to {
            assert(st[0] == v@[a as int]);
        } else {
            assert(st.len() == 0);
        }
    }
    let mut b: usize = to;
    while b > a && is_whitespace_char(v[b - 1])
        invariant
            a <= b <= to <= v@.len(),
            trim_start(s) == st,
            st == v@.subrange(a as int, to as int),
            trim_end(st) == trim_end(v@.subrange(a as int, b as int)),
        decreases b - a,
    {
        proof {
            let t = v@.subrange(a as int, b as int);
            assert(t.drop_last() =~= v@.subrange(a as int, b - 1));
        }
        b = b - 1;
    }
    proof {
        let t = v@.subrange(a as int, b as int);
        if a < b {
            assert(t.last() == v@[b - 1]);
        }
    }
    let mut r: Vec<char> = Vec::new();
    let mut i: usize = a;
    while i < b
        invariant
            a <= i <= b <= v@.len(),
            r@ == v@.subrange(a as int, i as int),
        decreases b - i,
    {
        r.push(v[i]);
        i = i + 1;
        assert(r@ =~= v@.subrange(a as int, i as int));
    }
    r
}

fn chars_eq_str(v: &Vec<char>, s: &str) -> (r: bool)
    ensures
        r == (v@ == s@),
{
    let w = chars_of(s);
    if v.len() != w.len() {
        return false;
    }
    let mut i: usize = 0;
    while i < v.len()
        invariant
            v@.len() == w@.len(),
            w@ == s@,
            i <= v@.len(),
            forall|k: int| 0 <= k < i ==> v@[k] == w@[k],
        decreases v@.len() - i,
    {
        if v[i] != w[i] {
            return false;
        }
        i = i + 1;
    }
    assert(v@ =~= w@);
    true
}

fn copy_range(v: &Vec<char>, from: usize, to: usize) -> (r: Vec<char>)
    requires
        from <= to <= v@.len(),
    ensures
        r@ == v@.subrange(from as int, to as int),
{
    let mut r: Vec<char> = Vec::new();
    let mut i: usize = from;
    while i < to
        invariant
            from <= i <= to <= v@.len(),
            r@ == v@.subrange(from as int, i as int),
        decreases to - i,
    {
        r.push(v[i]);
        i = i + 1;
        assert(r@ =~= v@.subrange(from as int, i as int));
    }
    r
}

fn find_colon(l: &Vec<char>) -> (r: Option<usize>)
    ensures
        match colon_at(l@) {
            None => r is None,
            Some(c) => r == Some(c as usize),
        },
        r matches Some(i) ==> i < l@.len() && l@[i as int] == ':',
{
    let mut i: usize = 0;
    while i < l.len()
        invariant
            i <= l@.len(),
            forall|j: int| 0 <= j < i ==> l@[j] != ':',
        decreases l@.len() - i,
    {
        if l[i] == ':' {
            assert(exists|k: int| 0 <= k < l@.len() && l@[k] == ':' && forall|j: int| 0 <= j < k ==> l@[j] != ':');
            let ghost c = choose|k: int| 0 <= k < l@.len() && l@[k] == ':' && forall|j: int| 0 <= j < k ==> l@[j] != ':';
            assert(0 <= i < l@.len() && l@[i as int] == ':' && forall|j: int| 0 <= j < i ==> l@[j] != ':');
            assert(c == i) by {
                if c < i {
                    assert(l@[c] != ':');
                } else if c > i {
                    assert(l@[i as int] != ':');
                }
            }
            return Some(i);
        }
        i = i + 1;
    }
    None
}

impl LinuxSystemMonitor {
    /// The CPU counters of the first line of `/proc/stat`: the line must
    /// begin with "cpu " and hold ten counters after its label. An empty
    /// file, another first line, too few counters, or a counter that does
    /// not read (the first such one is named) are parse errors.
    pub fn parse_cpu_stats(content: &str) -> (r: Result<CpuStats, SystemMonitorError>)
        ensures
            ({
                let ls = lines(content@);
                let w = words(ls[0]);
                &&& ls.len() == 0 ==> (r matches Err(SystemMonitorError::ParseError(m)) && m@ == "Empty /proc/stat"@)
                &&& ls.len() > 0 && !starts_with(ls[0], cpu_prefix()) ==> (r matches Err(SystemMonitorError::ParseError(m))
                    && m@ == "Invalid /proc/stat format"@)
                &&& ls.len() > 0 && starts_with(ls[0], cpu_prefix()) && w.len() < 11 ==> (r matches Err(
                    SystemMonitorError::ParseError(m),
                ) && m@ == "Insufficient CPU stats in /proc/stat"@)
                &&& ls.len() > 0 && starts_with(ls[0], cpu_prefix()) && w.len() >= 11 ==> {
                    &&& (forall|k: int| 1 <= k <= 10 ==> field_ok(w, k)) ==> r == Ok::<CpuStats, SystemMonitorError>(
                        cpu_stats_of(w),
                    )
                    &&& forall|k: int| #[trigger] first_bad_field(w, k) ==> (r matches Err(SystemMonitorError::ParseError(m))
                        && m@ == cpu_field_message(w[k], parse_uint(w[k], u64::MAX as nat)->Err_0))
                }
            }),
    {
        let cs = chars_of(content);
        let ls = split_lines(&cs);
        if ls.len() == 0 {
            return Err(SystemMonitorError::ParseError("Empty /proc/stat".to_string()));
        }
        let line = &ls[0];
        assert(line@ == lines(content@)[0]);
        let prefix = vec!['c', 'p', 'u', ' '];
        assert(prefix@ =~= cpu_prefix());
        if !vec_starts_with(line, &prefix) {
            return Err(SystemMonitorError::ParseError("Invalid /proc/stat format".to_string()));
        }
        let parts = split_words(line);
        let ghost w = words(line@);
        assert(texts(parts@) == w);
        if parts.len() < 11 {
            return Err(SystemMonitorError::ParseError("Insufficient CPU stats in /proc/stat".to_string()));
        }
        let mut vals: Vec<u64> = Vec::new();
        let mut k: usize = 1;
        while k <= 10
            invariant
                1 <= k <= 11,
                parts@.len() >= 11,
                texts(parts@) == w,
                lines(content@).len() > 0,
                starts_with(lines(content@)[0], cpu_prefix()),
                w == words(lines(content@)[0]),
                vals@.len() == k - 1,
                forall|j: int| 1 <= j < k ==> #[trigger] field_ok(w, j),
                forall|j: int| 0 <= j < vals@.len() ==> #[trigger] vals@[j] == uval(w[j + 1]),
            decreases 11 - k,
        {
            assert(parts@[k as int]@ == w[k as int]);
            match parse_uint_chars(&parts[k], u64::MAX) {
                Ok(v) => {
                    vals.push(v);
                },
                Err(e) => {
                    let msg = parse_field_message(&parts[k], e);
                    assert(first_bad_field(w, k as int));
                    proof {
                        assert forall|j: int| #[trigger] first_bad_field(w, j) implies j == k by {
                            if j < k {
                                assert(field_ok(w, j));
                            } else if j > k {
                                assert(field_ok(w, k as int));
                            }
                        }
                    }
                    return Err(SystemMonitorError::ParseError(msg));
                },
            }
            k = k + 1;
        }
        proof {
            assert forall|j: int| #[trigger] first_bad_field(w, j) implies false by {
                assert(field_ok(w, j));
            }
            assert(field_ok(w, 1) && vals@[0] == uval(w[1]));
            assert(field_ok(w, 2) && vals@[1] == uval(w[2]));
            assert(field_ok(w, 3) && vals@[2] == uval(w[3]));
            assert(field_ok(w, 4) && vals@[3] == uval(w[4]));
            assert(field_ok(w, 5) && vals@[4] == uval(w[5]));
            assert(field_ok(w, 6) && vals@[5] == uval(w[6]));
            assert(field_ok(w, 7) && vals@[6] == uval(w[7]));
            assert(field_ok(w, 8) && vals@[7] == uval(w[8]));
            assert(field_ok(w, 9) && vals@[8] == uval(w[9]));
            assert(field_ok(w, 10) && vals@[9] == uval(w[10]));
        }
        Ok(CpuStats {
            user: vals[0],
            nice: vals[1],
            system: vals[2],
            idle: vals[3],
            iowait: vals[4],
            irq: vals[5],
            softirq: vals[6],
            steal: vals[7],
            guest: vals[8],
            guest_nice: vals[9],
        })
    }

    /// Whether a battery charges, from its status text trimmed and in lower
    /// case.
    pub fn charging_from_status(status: &str) -> (r: Option<bool>)
        ensures
            r == charging_of(status@),
    {
        let cs = chars_of(status);
        proof {
            reveal_strlit("charging");
            reveal_strlit("discharging");
            reveal_strlit("not charging");
            reveal_strlit("full");
        }
        if chars_eq_str(&cs, "charging") {
            Some(true)
        } else if chars_eq_str(&cs, "discharging") || chars_eq_str(&cs, "not charging") || chars_eq_str(&cs, "full") {
            Some(false)
        } else {
            None
        }
    }

    /// Reads the memory figures of `/proc/meminfo` line by line (see
    /// `mem_line`); the first value that does not read is a parse error
    /// naming it.
    pub fn scan_memory_info(content: &str) -> (r: Result<MemInfoKb, SystemMonitorError>)
        ensures
            match mem_lines(mem_zero(), lines(content@)) {
                Ok(m) => r == Ok::<MemInfoKb, SystemMonitorError>(m),
                Err((t, e)) => r matches Err(SystemMonitorError::ParseError(msg)) && msg@ == mem_value_message(t, e),
            },
    {
        let cs = chars_of(content);
        let ls = split_lines(&cs);
        let ghost all = lines(content@);
        let mut acc = MemInfoKb { total: 0, available: 0, free: 0, buffers: 0, cached: 0 };
        let mut i: usize = 0;
        assert(all.skip(0) =~= all);
        while i < ls.len()
            invariant
                i <= ls@.len(),
                texts(ls@) == all,
                all == lines(content@),
                mem_lines(acc, all.skip(i as int)) == mem_lines(mem_zero(), all),
            decreases ls@.len() - i,
        {
            let ghost rest = all.skip(i as int);
            proof {
                assert(rest[0] == ls@[i as int]@);
                assert(rest.drop_first() =~= all.skip(i + 1));
            }
            let line = &ls[i];
            match find_colon(line) {
                None => {},
                Some(c) => {
                    let len = line.len();
                    assert(c < len);
                    let key = copy_range(line, 0, c);
                    let v = trim_chars(line, c + 1, len);
                    let ghost vt = v@;
                    let n = v.len();
                    let mut t = v;
                    let suffix = vec![' ', 'k', 'B'];
                    assert(suffix@ =~= kb_suffix());
                    if n >= 3 && t[n - 3] == ' ' && t[n - 2] == 'k' && t[n - 1] == 'B' {
                        assert(vt.subrange(n - 3, n as int) =~= kb_suffix());
                        t = copy_range(&t, 0, n - 3);
                    } else {
                        proof {
                            if n >= 3 && vt.subrange(n - 3, n as int) == kb_suffix() {
                                assert(vt[n - 3] == vt.subrange(n - 3, n as int)[0]);
                                assert(vt[n - 2] == vt.subrange(n - 3, n as int)[1]);
                                assert(vt[n - 1] == vt.subrange(n - 3, n as int)[2]);
                            }
                        }
                    }
                    assert(t@ == crate::monitoring::system::linux::value_text(line@, c as int));
                    let trimmed = trim_chars(&t, 0, t.len());
                    assert(t@.subrange(0, t@.len() as int) =~= t@);
                    match parse_uint_chars(&trimmed, u64::MAX) {
                        Err(e) => {
                            let token = string_from_chars(&t);
                            let a = error_with("Failed to parse memory value '", token.as_str(), "': ");
                            let msg = concat_str(a.as_str(), int_error_message(e));
                            return Err(SystemMonitorError::ParseError(msg));
                        },
                        Ok(x) => {
                            assert(key@ == line@.subrange(0, c as int));
                            if chars_eq_str(&key, "MemTotal") {
                                acc = MemInfoKb { total: x, ..acc };
                            } else if chars_eq_str(&key, "MemAvailable") {
                                acc = MemInfoKb { available: x, ..acc };
                            } else if chars_eq_str(&key, "MemFree") {
                                acc = MemInfoKb { free: x, ..acc };
                            } else if chars_eq_str(&key, "Buffers") {
                                acc = MemInfoKb { buffers: x, ..acc };
                            } else if chars_eq_str(&key, "Cached") {
                                acc = MemInfoKb { cached: x, ..acc };
                            }
                        },
                    }
                },
            }
            i = i + 1;
        }
        proof {
            assert(all.skip(i as int) =~= Seq::<Seq<char>>::empty());
        }
        Ok(acc)
    }

    /// Total, used and available memory in bytes from the figures: the
    /// available memory is the kernel's figure or, without one, free memory
    /// with buffers and cache; used is the rest of the total.
    pub fn memory_totals(m: MemInfoKb) -> (r: (u64, u64, u64))
        requires
            mem_in_range(m),
        ensures
            r.0 == m.total * 1024,
            r.2 == available_kb(m) * 1024,
            r.1 == r.0 - r.2,
    {
        let available = if m.available == 0 { m.free + m.buffers + m.cached } else { m.available };
        let total_bytes = m.total * 1024;
        let available_bytes = available * 1024;
        (total_bytes, total_bytes - available_bytes, available_bytes)
    }

    /// The thread count of the first `Threads:` line of `/proc/self/status`:
    /// its second word read as a 32-bit number. `None` without such a line.
    pub fn thread_count_from_status(status: &str) -> (r: Option<Result<u32, SystemMonitorError>>)
        ensures
            ({
                let ls = lines(status@);
                let threads = seq!['T', 'h', 'r', 'e', 'a', 'd', 's', ':'];
                &&& (forall|i: int| 0 <= i < ls.len() ==> !starts_with(#[trigger] ls[i], threads)) <==> r is None
                &&& forall|i: int|
                    0 <= i < ls.len() && starts_with(#[trigger] ls[i], threads) && (forall|j: int| 0 <= j < i ==> !starts_with(ls[j], threads))
                    ==> {
                        let w = words(ls[i]);
                        &&& w.len() < 2 ==> (r matches Some(Err(SystemMonitorError::ParseError(m)))
                            && m@ == "Invalid Threads line in /proc/self/status"@)
                        &&& w.len() >= 2 ==> match parse_uint(w[1], u32::MAX as nat) {
                            Ok(v) => r == Some(Ok::<u32, SystemMonitorError>(v as u32)),
                            Err(e) => r matches Some(Err(SystemMonitorError::ParseError(m)))
                                && m@ == "Failed to parse thread count: "@ + int_error_text(e),
                        }
                    }
            }),
    {
        let cs = chars_of(status);
        let ls = split_lines(&cs);
        let ghost all = lines(status@);
        let threads = vec!['T', 'h', 'r', 'e', 'a', 'd', 's', ':'];
        let ghost tp = seq!['T', 'h', 'r', 'e', 'a', 'd', 's', ':'];
        assert(threads@ =~= tp);
        let mut i: usize = 0;
        while i < ls.len()
            invariant
                i <= ls@.len(),
                texts(ls@) == all,
                all == lines(status@),
                tp == seq!['T', 'h', 'r', 'e', 'a', 'd', 's', ':'],
                threads@ == tp,
                forall|j: int| 0 <= j < i ==> !starts_with(#[trigger] all[j], tp),
            decreases ls@.len() - i,
        {
            assert(ls@[i as int]@ == all[i as int]);
            if vec_starts_with(&ls[i], &threads) {
                let w = split_words(&ls[i]);
                proof {
                    assert forall|a: int|
                        0 <= a < all.len() && starts_with(#[trigger] all[a], tp) && (forall|j: int| 0 <= j < a ==> !starts_with(all[j], tp))
                        implies a == i by {
                        if a < i {
                        } else if a > i {
                            assert(!starts_with(all[i as int], tp));
                        }
                    }
                }
                if w.len() < 2 {
                    return Some(Err(SystemMonitorError::ParseError("Invalid Threads line in /proc/self/status".to_string())));
                }
                assert(w@[1]@ == words(all[i as int])[1]);
                return match parse_uint_chars(&w[1], 4294967295) {
                    Ok(v) => Some(Ok(v as u32)),
                    Err(e) => Some(Err(SystemMonitorError::ParseError(concat_str(
                        "Failed to parse thread count: ",
                        int_error_message(e),
                    )))),
                };
            }
            i = i + 1;
        }
        None
    }
}

/// A new CPU reading can be compared with the last one: the counters only
/// grow, and their sums fit in 64 bits.
pub open spec fn cpu_sample_in_range(last: Option<CpuStats>, current: CpuStats) -> bool {
    &&& cpu_total(current) <= u64::MAX
    &&& last matches Some(l) ==> {
        &&& cpu_total(l) <= cpu_total(current)
        &&& l.idle + l.iowait <= current.idle + current.iowait
        &&& (current.idle + current.iowait) - (l.idle + l.iowait) <= cpu_total(current) - cpu_total(l)
    }
}

impl LinuxSystemMonitor {
    /// Records a CPU reading and compares it with the last one: the time
    /// spent working and the total time since then, or `None` for the first
    /// reading. The CPU usage is the first part of the second.
    pub fn record_cpu_sample(&mut self, current: CpuStats) -> (r: Option<(u64, u64)>)
        requires
            cpu_sample_in_range(old(self).last_cpu_stats, current),
        ensures
            final(self).last_cpu_stats == Some(current),
            old(self).last_cpu_stats is None ==> r is None,
            old(self).last_cpu_stats matches Some(l) ==> r == Some((
                ((cpu_total(current) - cpu_total(l)) - ((current.idle + current.iowait) - (l.idle + l.iowait))) as u64,
                (cpu_total(current) - cpu_total(l)) as u64,
            )),
    {
        let r = match self.last_cpu_stats {
            Some(last) => {
                let total_diff = current.total() - last.total();
                let idle_diff = current.idle_total() - last.idle_total();
                Some((total_diff - idle_diff, total_diff))
            },
            None => None,
        };
        self.last_cpu_stats = Some(current);
        r
    }
}

/// `s` without the colons at its end, as `trim_end_matches(':')` gives it.
pub open spec fn trim_colons(s: Seq<char>) -> Seq<char>
    decreases s.len(),
{
    if s.len() > 0 && s.last() == ':' {
        trim_colons(s.drop_last())
    } else {
        s
    }
}

/// Counters of one interface line of `/proc/net/dev`, over character
/// sequences.
pub struct NetDevView {
    pub name: Seq<char>,
    pub bytes_received: u64,
    pub packets_received: u64,
    pub bytes_sent: u64,
    pub packets_sent: u64,
}

/// Counters of one interface of `/proc/net/dev`; whether the interface is
/// up is read from elsewhere.
#[derive(Debug)]
pub struct NetDevStats {
    pub name: String,
    pub bytes_received: u64,
    pub packets_received: u64,
    pub bytes_sent: u64,
    pub packets_sent: u64,
}

/// The message for a network counter that does not read.
pub open spec fn net_field_message(t: Seq<char>, e: IntErrorKind) -> Seq<char> {
    "Failed to parse network stat '"@ + t + "': "@ + int_error_text(e)
}

/// Reading the counters of an interface line's words, fields 1, 2, 9 and 10
/// in that order; the first that does not read stops the reading.
pub open spec fn net_entry(w: Seq<Seq<char>>) -> Result<NetDevView, (Seq<char>, IntErrorKind)> {
    match parse_uint(w[1], u64::MAX as nat) {
        Err(e) => Err((w[1], e)),
        Ok(br) => match parse_uint(w[2], u64::MAX as nat) {
            Err(e) => Err((w[2], e)),
            Ok(pr) => match parse_uint(w[9], u64::MAX as nat) {
                Err(e) => Err((w[9], e)),
                Ok(bs) => match parse_uint(w[10], u64::MAX as nat) {
                    Err(e) => Err((w[10], e)),
                    Ok(ps) => Ok(
                        NetDevView {
                            name: trim_colons(w[0]),
                            bytes_received: br as u64,
                            packets_received: pr as u64,
                            bytes_sent: bs as u64,
                            packets_sent: ps as u64,
                        },
                    ),
                },
            },
        },
    }
}

/// The interfaces of the lines `ls`: each line of at least seventeen words
/// is an interface, the others are skipped.
pub open spec fn net_scan(ls: Seq<Seq<char>>) -> Result<Seq<NetDevView>, (Seq<char>, IntErrorKind)>
    decreases ls.len(),
{
    if ls.len() == 0 {
        Ok(Seq::empty())
    } else {
        let w = words(ls[0]);
        if w.len() >= 17 {
            match net_entry(w) {
                Err(x) => Err(x),
                Ok(d) => match net_scan(ls.drop_first()) {
                    Err(x) => Err(x),
                    Ok(rest) => Ok(seq![d] + rest),
                },
            }
        } else {
            net_scan(ls.drop_first())
        }
    }
}

/// The lines after the two header lines.
pub open spec fn after_headers(ls: Seq<Seq<char>>) -> Seq<Seq<char>> {
    if ls.len() >= 2 { ls.skip(2) } else { Seq::empty() }
}

/// The vector holds the interfaces of the view, in order.
pub open spec fn net_matches(r: Seq<NetDevStats>, v: Seq<NetDevView>) -> bool {
    &&& r.len() == v.len()
    &&& forall|i: int| 0 <= i < r.len() ==> {
        &&& (#[trigger] r[i]).name@ == v[i].name
        &&& r[i].bytes_received == v[i].bytes_received
        &&& r[i].packets_received == v[i].packets_received
        &&& r[i].bytes_sent == v[i].bytes_sent
        &&& r[i].packets_sent == v[i].packets_sent
    }
}

fn trim_colons_vec(v: &Vec<char>) -> (r: Vec<char>)
    ensures
        r@ == trim_colons(v@),
{
    let mut n: usize = v.len();
    assert(v@.subrange(0, n as int) =~= v@);
    while n > 0 && v[n - 1] == ':'
        invariant
            n <= v@.len(),
            trim_colons(v@) == trim_colons(v@.subrange(0, n as int)),
        decreases n,
    {
        proof {
            assert(v@.subrange(0, n as int).drop_last() =~= v@.subrange(0, n - 1));
        }
        n = n - 1;
    }
    proof {
        if n > 0 {
            assert(v@.subrange(0, n as int).last() == v@[n - 1]);
        }
    }
    copy_range(v, 0, n)
}

fn net_field(w: &Vec<Vec<char>>, k: usize) -> (r: Result<u64, String>)
    requires
        k < w@.len(),
    ensures
        match parse_uint(w@[k as int]@, u64::MAX as nat) {
            Ok(v) => r == Ok::<u64, String>(v as u64),
            Err(e) => r matches Err(m) && m@ == net_field_message(w@[k as int]@, e),
        },
{
    match parse_uint_chars(&w[k], u64::MAX) {
        Ok(v) => Ok(v),
        Err(e) => {
            let token = string_from_chars(&w[k]);
            let a = error_with("Failed to parse network stat '", token.as_str(), "': ");
            Err(concat_str(a.as_str(), int_error_message(e)))
        },
    }
}

impl LinuxSystemMonitor {
    /// The interfaces of `/proc/net/dev`: after the two header lines, each
    /// line of at least seventeen words gives an interface, named by its
    /// first word without trailing colons, with its received bytes and
    /// packets (fields 1 and 2) and sent bytes and packets (fields 9 and
    /// 10). The first counter that does not read is a parse error naming it.
    pub fn parse_net_dev(content: &str) -> (r: Result<Vec<NetDevStats>, SystemMonitorError>)
        ensures
            match net_scan(after_headers(lines(content@))) {
                Ok(v) => r matches Ok(x) && net_matches(x@, v),
                Err((t, e)) => r matches Err(SystemMonitorError::ParseError(m)) && m@ == net_field_message(t, e),
            },
    {
        let cs = chars_of(content);
        let ls = split_lines(&cs);
        let ghost body = after_headers(lines(content@));
        let mut out: Vec<NetDevStats> = Vec::new();
        let mut i: usize = if ls.len() >= 2 { 2 } else { ls.len() };
        let ghost start = i as int;
        proof {
            assert(ls@.len() >= 2 ==> lines(content@).skip(2) =~= texts(ls@).skip(start));
            assert(ls@.len() < 2 ==> texts(ls@).skip(start) =~= Seq::<Seq<char>>::empty());
            assert(body == texts(ls@).skip(start));
            match net_scan(body) {
                Ok(all) => {
                    assert(net_matches(out@, Seq::<NetDevView>::empty()));
                    assert(all =~= Seq::<NetDevView>::empty() + all);
                },
                Err(_) => {},
            }
        }
        while i < ls.len()
            invariant
                start <= i <= ls@.len(),
                texts(ls@) == lines(content@),
                body == texts(ls@).skip(start),
                body == after_headers(lines(content@)),
                match net_scan(texts(ls@).skip(i as int)) {
                    Ok(rest) => match net_scan(body) {
                        Ok(all) => exists|done: Seq<NetDevView>| net_matches(out@, done) && all == done + rest,
                        Err(_) => false,
                    },
                    Err(x) => net_scan(body) == Err::<Seq<NetDevView>, (Seq<char>, IntErrorKind)>(x),
                },
            decreases ls@.len() - i,
        {
            let ghost rest = texts(ls@).skip(i as int);
            proof {
                assert(rest[0] == ls@[i as int]@);
                assert(rest.drop_first() =~= texts(ls@).skip(i + 1));
            }
            let w = split_words(&ls[i]);
            let ghost ww = texts(w@);
            proof {
                assert(words(rest[0]) == ww);
            }
            if w.len() >= 17 {
                proof {
                    assert(ww[1] == w@[1]@ && ww[2] == w@[2]@ && ww[9] == w@[9]@ && ww[10] == w@[10]@);
                    assert(ww[0] == w@[0]@);
                    assert(net_scan(rest) == (match net_entry(ww) {
                        Err(x) => Err(x),
                        Ok(d) => match net_scan(rest.drop_first()) {
                            Err(x) => Err(x),
                            Ok(r2) => Ok(seq![d] + r2),
                        },
                    }));
                }
                let br = match net_field(&w, 1) {
                    Ok(v) => v,
                    Err(m) => return Err(SystemMonitorError::ParseError(m)),
                };
                let pr = match net_field(&w, 2) {
                    Ok(v) => v,
                    Err(m) => return Err(SystemMonitorError::ParseError(m)),
                };
                let bs = match net_field(&w, 9) {
                    Ok(v) => v,
                    Err(m) => return Err(SystemMonitorError::ParseError(m)),
                };
                let ps = match net_field(&w, 10) {
                    Ok(v) => v,
                    Err(m) => return Err(SystemMonitorError::ParseError(m)),
                };
                let name_chars = trim_colons_vec(&w[0]);
                let name = string_from_chars(&name_chars);
                let ghost before = out@;
                out.push(NetDevStats {
                    name,
                    bytes_received: br,
                    packets_received: pr,
                    bytes_sent: bs,
                    packets_sent: ps,
                });
                proof {
                    let d = NetDevView {
                        name: trim_colons(ww[0]),
                        bytes_received: br,
                        packets_received: pr,
                        bytes_sent: bs,
                        packets_sent: ps,
                    };
                    assert(net_entry(ww) == Ok::<NetDevView, (Seq<char>, IntErrorKind)>(d));
                    match net_scan(texts(ls@).skip(i + 1)) {
                        Ok(rest2) => {
                            assert(net_scan(rest) == Ok::<Seq<NetDevView>, (Seq<char>, IntErrorKind)>(seq![d] + rest2));
                            match net_scan(body) {
                                Ok(all) => {
                                    let done = choose|done: Seq<NetDevView>| net_matches(before, done) && all == done + (seq![d] + rest2);
                                    let done2 = done.push(d);
                                    assert(net_matches(out@, done2)) by {
                                        assert forall|k: int| 0 <= k < out@.len() implies {
                                            &&& (#[trigger] out@[k]).name@ == done2[k].name
                                            &&& out@[k].bytes_received == done2[k].bytes_received
                                            &&& out@[k].packets_received == done2[k].packets_received
                                            &&& out@[k].bytes_sent == done2[k].bytes_sent
                                            &&& out@[k].packets_sent == done2[k].packets_sent
                                        } by {
                                            if k < before.len() {
                                                assert(out@[k] == before[k]);
                                            }
                                        }
                                    }
                                    assert(all == done2 + rest2);
                                },
                                Err(_) => {},
                            }
                        },
                        Err(x) => {
                            assert(net_scan(rest) == Err::<Seq<NetDevView>, (Seq<char>, IntErrorKind)>(x));
                        },
                    }
                }
            } else {
                proof {
                    assert(net_scan(rest) == net_scan(rest.drop_first()));
                }
            }
            i = i + 1;
        }
        proof {
            assert(texts(ls@).skip(i as int) =~= Seq::<Seq<char>>::empty());
            match net_scan(body) {
                Ok(all) => {
                    let done = choose|done: Seq<NetDevView>| net_matches(out@, done) && all == done + Seq::<NetDevView>::empty();
                    assert(all =~= done);
                },
                Err(_) => {},
            }
        }
        Ok(out)
    }
}

} // verus!
