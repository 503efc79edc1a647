//! Generic Linux hardware provider — no Acer-specific claims. Backed only by
//! generic interfaces: `hwmon`, `/proc/stat`, `/proc/meminfo`,
//! `power_supply`, and `nvidia-smi` for the discrete GPU. This module holds
//! the integer readings and every parser; readings reported as fractional
//! quantities (temperatures, percentages, frequencies) are computed by the
//! application from the values these functions return.

use vstd::prelude::*;
use crate::capability::CapabilityState;
use crate::command::{arg_texts, CommandRunner};
use crate::evidence::{evidence_from_read, read_evidence, Evidence, EvidenceProvider};
use crate::sensor::GpuKind;
use crate::sensor::{battery_status_of, BatteryStatus, MemoryUsage, Rpm};
use crate::sysfs::{file_name, file_name_of, join_path, path_join, IoError, SysfsReader};
use crate::text::{
    all_digits, chars_eq_str, chars_of, copy_range, ends_with, has_prefix, has_suffix, lines,
    parse_u32, parse_u32_chars, parse_u64, parse_u64_chars, split_lines, split_once,
    split_once_char, split_words, starts_with, trim, trim_chars, views, words,
};

verus! {

/// Cumulative idle and total CPU time from the aggregate `/proc/stat` line.
#[derive(Debug, Clone, Copy, PartialEq, Eq, Structural)]
pub struct CpuStatSample {
    pub idle: u64,
    pub total: u64,
}

/// CPU time elapsed between two samples: how much of it was idle, out of a
/// non-zero total.
#[derive(Debug, Clone, Copy, PartialEq, Eq, Structural)]
pub struct CpuTimeDelta {
    pub idle: u64,
    pub total: u64,
}

pub struct GenericLinux<R: SysfsReader, C: CommandRunner> {
    sysfs: R,
    commands: C,
    cpu_stat_history: Option<CpuStatSample>,
}

// ---------------------------------------------------------------------
// File-name predicates
// ---------------------------------------------------------------------

/// `cpu` followed by one or more ASCII digits (a per-CPU sysfs directory).
pub open spec fn cpu_dir_name(name: Seq<char>) -> bool {
    has_prefix(name, "cpu"@) && name.len() > 3 && all_digits(name.subrange(3, name.len() as int))
}

/// `fan<digits>_input` with at least one digit (a fan tachometer file).
pub open spec fn fan_input_name(name: Seq<char>) -> bool {
    &&& has_prefix(name, "fan"@)
    &&& has_suffix(name.subrange(3, name.len() as int), "_input"@)
    &&& name.len() > 9
    &&& all_digits(name.subrange(3, name.len() - 6))
}

fn digits_only(s: &[char], lo: usize, hi: usize) -> (r: bool)
    requires
        lo <= hi <= s.len(),
    ensures
        r == all_digits(s@.subrange(lo as int, hi as int)),
{
    let mut i = lo;
    while i < hi
        invariant
            lo <= i <= hi <= s.len(),
            forall|j: int| lo <= j < i ==> '0' <= #[trigger] s@[j] <= '9',
        decreases hi - i,
    {
        if !('0' <= s[i] && s[i] <= '9') {
            assert(!crate::text::is_digit(s@.subrange(lo as int, hi as int)[i - lo]));
            return false;
        }
        i = i + 1;
    }
    assert forall|j: int| 0 <= j < hi - lo implies crate::text::is_digit(
        #[trigger] s@.subrange(lo as int, hi as int)[j],
    ) by {
        assert(s@.subrange(lo as int, hi as int)[j] == s@[lo + j]);
    }
    true
}

pub fn is_cpu_dir_name(name: &str) -> (r: bool)
    ensures
        r == cpu_dir_name(name@),
{
    proof {
        reveal_strlit("cpu");
    }
    let v = chars_of(name);
    let p = chars_of("cpu");
    if !starts_with(v.as_slice(), p.as_slice()) || v.len() <= 3 {
        return false;
    }
    digits_only(v.as_slice(), 3, v.len())
}

pub fn is_fan_input_name(name: &str) -> (r: bool)
    ensures
        r == fan_input_name(name@),
{
    proof {
        reveal_strlit("fan");
        reveal_strlit("_input");
    }
    let v = chars_of(name);
    let p = chars_of("fan");
    if !starts_with(v.as_slice(), p.as_slice()) {
        return false;
    }
    let rest = copy_range(v.as_slice(), 3, v.len());
    let suffix = chars_of("_input");
    if !ends_with(rest.as_slice(), suffix.as_slice()) {
        return false;
    }
    if v.len() <= 9 {
        return false;
    }
    digits_only(v.as_slice(), 3, v.len() - 6)
}

// ---------------------------------------------------------------------
// Directory listings
// ---------------------------------------------------------------------

/// A per-CPU directory among the entries of `/sys/devices/system/cpu`.
pub open spec fn is_cpu_entry(path: Seq<char>) -> bool {
    file_name(path) matches Some(n) && cpu_dir_name(n)
}

/// A battery among the entries of `/sys/class/power_supply`: its name
/// starts with `BAT`.
pub open spec fn is_battery_entry(path: Seq<char>) -> bool {
    file_name(path) matches Some(n) && has_prefix(n, "BAT"@)
}

/// The per-CPU directories among `entries`, in listing order.
pub open spec fn cpu_entries(entries: Seq<Seq<char>>) -> Seq<Seq<char>>
    decreases entries.len(),
{
    if entries.len() == 0 {
        Seq::empty()
    } else if is_cpu_entry(entries.last()) {
        cpu_entries(entries.drop_last()).push(entries.last())
    } else {
        cpu_entries(entries.drop_last())
    }
}

/// The first battery among `entries`.
pub open spec fn first_battery(entries: Seq<Seq<char>>) -> Option<Seq<char>>
    decreases entries.len(),
{
    if entries.len() == 0 {
        None
    } else if is_battery_entry(entries[0]) {
        Some(entries[0])
    } else {
        first_battery(entries.drop_first())
    }
}

pub open spec fn path_views(v: Seq<String>) -> Seq<Seq<char>> {
    v.map_values(|s: String| s@)
}

fn cpu_entry(path: &str) -> (r: bool)
    ensures
        r == is_cpu_entry(path@),
{
    match file_name_of(path) {
        Some(n) => is_cpu_dir_name(crate::text::string_of(n.as_slice()).as_str()),
        None => false,
    }
}

fn battery_entry(path: &str) -> (r: bool)
    ensures
        r == is_battery_entry(path@),
{
    match file_name_of(path) {
        Some(n) => {
            let bat = chars_of("BAT");
            starts_with(n.as_slice(), bat.as_slice())
        },
        None => false,
    }
}

/// The per-CPU directories (`cpu<N>`) among the entries of
/// `/sys/devices/system/cpu`, in listing order.
pub fn cpu_dirs(entries: &Vec<String>) -> (r: Vec<String>)
    ensures
        path_views(r@) == cpu_entries(path_views(entries@)),
{
    let ghost all = path_views(entries@);
    let mut out: Vec<String> = Vec::new();
    let mut i: usize = 0;
    assert(all.take(0) =~= Seq::<Seq<char>>::empty());
    while i < entries.len()
        invariant
            i <= entries.len(),
            all == path_views(entries@),
            path_views(out@) == cpu_entries(all.take(i as int)),
        decreases entries.len() - i,
    {
        assert(all.take(i + 1).drop_last() =~= all.take(i as int));
        assert(all.take(i + 1).last() == entries@[i as int]@);
        let ghost before = out@;
        if cpu_entry(entries[i].as_str()) {
            out.push(crate::text::owned(entries[i].as_str()));
            assert(path_views(out@) =~= path_views(before).push(entries@[i as int]@));
        }
        i = i + 1;
    }
    assert(all.take(entries.len() as int) =~= all);
    out
}

/// The first battery (`BAT*`) among the entries of
/// `/sys/class/power_supply`.
pub fn battery_dir(entries: &Vec<String>) -> (r: Option<String>)
    ensures
        match r {
            Some(p) => first_battery(path_views(entries@)) == Some(p@),
            None => first_battery(path_views(entries@)) is None,
        },
{
    let ghost all = path_views(entries@);
    let mut i: usize = 0;
    assert(all.subrange(0, all.len() as int) =~= all);
    while i < entries.len()
        invariant
            i <= entries.len(),
            all == path_views(entries@),
            first_battery(all) == first_battery(all.subrange(i as int, all.len() as int)),
        decreases entries.len() - i,
    {
        let ghost t = all.subrange(i as int, all.len() as int);
        assert(t[0] == entries@[i as int]@);
        assert(t.drop_first() =~= all.subrange(i + 1, all.len() as int));
        if battery_entry(entries[i].as_str()) {
            return Some(crate::text::owned(entries[i].as_str()));
        }
        i = i + 1;
    }
    None
}

// ---------------------------------------------------------------------
// /proc/stat
// ---------------------------------------------------------------------

/// The first line of `ls` starting with `p`.
pub open spec fn first_with_prefix(ls: Seq<Seq<char>>, p: Seq<char>) -> Option<Seq<char>>
    decreases ls.len(),
{
    if ls.len() == 0 {
        None
    } else if has_prefix(ls[0], p) {
        Some(ls[0])
    } else {
        first_with_prefix(ls.drop_first(), p)
    }
}

/// Every word read as a `u64`, or `None` if any is not one.
pub open spec fn all_u64(ws: Seq<Seq<char>>) -> Option<Seq<u64>>
    decreases ws.len(),
{
    if ws.len() == 0 {
        Some(Seq::empty())
    } else {
        match (all_u64(ws.drop_last()), parse_u64(ws.last())) {
            (Some(prefix), Some(v)) => Some(prefix.push(v)),
            _ => None,
        }
    }
}

pub open spec fn sum_of(xs: Seq<u64>) -> nat
    decreases xs.len(),
{
    if xs.len() == 0 {
        0
    } else {
        sum_of(xs.drop_last()) + xs.last() as nat
    }
}

/// The aggregate CPU counters of a `/proc/stat` text: the first line starting
/// `"cpu "`, every field after the label a `u64`, at least four of them;
/// idle time is field four plus field five (iowait) when present, total
/// time the sum of all fields. A sum beyond `u64` counts as malformed.
pub open spec fn cpu_stat_of(raw: Seq<char>) -> Option<CpuStatSample> {
    match first_with_prefix(lines(raw), "cpu "@) {
        None => None,
        Some(line) => match all_u64(words(line).drop_first()) {
            None => None,
            Some(fs) => {
                let idle = fs[3] + if fs.len() > 4 {
                    fs[4] as nat
                } else {
                    0nat
                };
                if fs.len() < 4 || sum_of(fs) > u64::MAX || idle > u64::MAX {
                    None
                } else {
                    Some(CpuStatSample { idle: idle as u64, total: sum_of(fs) as u64 })
                }
            },
        },
    }
}

proof fn lemma_first_with_prefix_skip(ls: Seq<Seq<char>>, p: Seq<char>, i: int)
    requires
        0 <= i < ls.len(),
        !has_prefix(ls[i], p),
    ensures
        first_with_prefix(ls.subrange(i, ls.len() as int), p) == first_with_prefix(
            ls.subrange(i + 1, ls.len() as int),
            p,
        ),
{
    let t = ls.subrange(i, ls.len() as int);
    assert(t[0] == ls[i]);
    assert(t.drop_first() =~= ls.subrange(i + 1, ls.len() as int));
}

proof fn lemma_sum_prefix_bound(xs: Seq<u64>, i: int)
    requires
        0 <= i <= xs.len(),
    ensures
        sum_of(xs.take(i)) <= sum_of(xs),
    decreases xs.len() - i,
{
    if i < xs.len() {
        lemma_sum_prefix_bound(xs, i + 1);
        assert(xs.take(i + 1).drop_last() =~= xs.take(i));
    } else {
        assert(xs.take(i) =~= xs);
    }
}

/// Reads every word as a `u64`.
fn parse_all_u64(ws: &[Vec<char>], from: usize) -> (r: Option<Vec<u64>>)
    requires
        from <= ws.len(),
    ensures
        match r {
            Some(v) => all_u64(views(ws@).subrange(from as int, ws@.len() as int)) == Some(v@),
            None => all_u64(views(ws@).subrange(from as int, ws@.len() as int)) is None,
        },
{
    let mut out: Vec<u64> = Vec::new();
    let mut i = from;
    let ghost all = views(ws@).subrange(from as int, ws@.len() as int);
    assert(all.take(0) =~= Seq::<Seq<char>>::empty());
    while i < ws.len()
        invariant
            from <= i <= ws.len(),
            all == views(ws@).subrange(from as int, ws@.len() as int),
            all_u64(all.take(i - from)) == Some(out@),
        decreases ws.len() - i,
    {
        let ghost k = i - from;
        assert(all.take(k + 1).drop_last() =~= all.take(k));
        assert(all.take(k + 1).last() == ws@[i as int]@);
        match parse_u64_chars(ws[i].as_slice()) {
            Some(v) => {
                out.push(v);
            },
            None => {
                proof {
                    lemma_all_u64_prefix_none(all, k + 1);
                }
                return None;
            },
        }
        i = i + 1;
    }
    assert(all.take(ws.len() - from) =~= all);
    Some(out)
}

proof fn lemma_all_u64_prefix_none(ws: Seq<Seq<char>>, i: int)
    requires
        0 <= i <= ws.len(),
        all_u64(ws.take(i)) is None,
    ensures
        all_u64(ws) is None,
    decreases ws.len() - i,
{
    if i < ws.len() {
        assert(ws.take(i + 1).drop_last() =~= ws.take(i));
        lemma_all_u64_prefix_none(ws, i + 1);
    } else {
        assert(ws.take(i) =~= ws);
    }
}

proof fn lemma_all_u64_len(ws: Seq<Seq<char>>)
    ensures
        all_u64(ws) matches Some(v) ==> v.len() == ws.len(),
    decreases ws.len(),
{
    if ws.len() > 0 {
        lemma_all_u64_len(ws.drop_last());
    }
}

/// The aggregate CPU counters of a `/proc/stat` text (see `cpu_stat_of`).
pub fn parse_cpu_stat_line(raw: &str) -> (r: Option<CpuStatSample>)
    ensures
        r == cpu_stat_of(raw@),
{
    let chars = chars_of(raw);
    let ls = split_lines(chars.as_slice());
    let label = chars_of("cpu ");
    let mut i: usize = 0;
    let ghost all = views(ls@);
    assert(all.subrange(0, all.len() as int) =~= all);
    while i < ls.len()
        invariant
            i <= ls.len(),
            all == views(ls@),
            all == lines(raw@),
            label@ == "cpu "@,
            first_with_prefix(all, "cpu "@) == first_with_prefix(
                all.subrange(i as int, all.len() as int),
                "cpu "@,
            ),
        ensures
            i <= ls.len(),
            i < ls.len() ==> has_prefix(all[i as int], "cpu "@),
            first_with_prefix(all, "cpu "@) == first_with_prefix(
                all.subrange(i as int, all.len() as int),
                "cpu "@,
            ),
        decreases ls.len() - i,
    {
        if starts_with(ls[i].as_slice(), label.as_slice()) {
            break;
        }
        proof {
            lemma_first_with_prefix_skip(all, "cpu "@, i as int);
        }
        i = i + 1;
    }
    if i >= ls.len() {
        return None;
    }
    let line = &ls[i];
    assert(all[i as int] == line@);
    assert(first_with_prefix(all, "cpu "@) == Some(line@)) by {
        assert(all.subrange(i as int, all.len() as int)[0] == line@);
    }
    let ws = split_words(line.as_slice());
    if ws.len() == 0 {
        // a line starting "cpu " always has the label word
        proof {
            lemma_cpu_line_has_word(line@);
        }
        return None;
    }
    let fields = match parse_all_u64(ws.as_slice(), 1) {
        Some(f) => f,
        None => {
            assert(views(ws@).subrange(1, ws@.len() as int) =~= words(line@).drop_first());
            return None;
        },
    };
    assert(views(ws@).subrange(1, ws@.len() as int) =~= words(line@).drop_first());
    proof {
        lemma_all_u64_len(words(line@).drop_first());
    }
    if fields.len() < 4 {
        return None;
    }
    let mut total: u64 = 0;
    let mut k: usize = 0;
    assert(fields@.take(0) =~= Seq::<u64>::empty());
    assert(sum_of(fields@) > u64::MAX ==> cpu_stat_of(raw@) is None);
    while k < fields.len()
        invariant
            k <= fields.len(),
            total == sum_of(fields@.take(k as int)),
            sum_of(fields@) > u64::MAX ==> cpu_stat_of(raw@) is None,
        decreases fields.len() - k,
    {
        assert(fields@.take(k + 1).drop_last() =~= fields@.take(k as int));
        match total.checked_add(fields[k]) {
            Some(t) => {
                total = t;
            },
            None => {
                proof {
                    assert(fields@.take(k + 1).last() == fields@[k as int]);
                    lemma_sum_prefix_bound(fields@, k + 1);
                }
                return None;
            },
        }
        k = k + 1;
    }
    assert(fields@.take(fields.len() as int) =~= fields@);
    let extra: u64 = if fields.len() > 4 {
        fields[4]
    } else {
        0
    };
    let idle = match fields[3].checked_add(extra) {
        Some(v) => v,
        None => return None,
    };
    Some(CpuStatSample { idle, total })
}

proof fn lemma_cpu_line_has_word(line: Seq<char>)
    requires
        has_prefix(line, "cpu "@),
    ensures
        words(line).len() > 0,
{
    reveal_strlit("cpu ");
    assert(line.subrange(0, 4)[0] == line[0]);
    crate::text::lemma_words_nonempty_if_non_ws(line, 0);
}

/// One `/proc/stat` reading against the previous sample: the new sample to
/// keep (unchanged when this read yields none) and the CPU time elapsed
/// since the previous one. The first sample has no baseline and reports
/// `Unknown`; so does an interval with no elapsed total time.
pub open spec fn cpu_usage_step(
    prev: Option<CpuStatSample>,
    read: Result<String, IoError>,
) -> (Option<CpuStatSample>, CapabilityState<CpuTimeDelta>) {
    match read {
        Err(IoError::NotFound) => (prev, CapabilityState::Unsupported),
        Err(_) => (prev, CapabilityState::Unknown),
        Ok(raw) => match cpu_stat_of(raw@) {
            None => (prev, CapabilityState::Unknown),
            Some(sample) => (
                Some(sample),
                match prev {
                    None => CapabilityState::Unknown,
                    Some(p) => {
                        let idle = if sample.idle >= p.idle {
                            sample.idle - p.idle
                        } else {
                            0
                        };
                        let total = if sample.total >= p.total {
                            sample.total - p.total
                        } else {
                            0
                        };
                        if total == 0 {
                            CapabilityState::Unknown
                        } else {
                            CapabilityState::Supported(
                                CpuTimeDelta { idle: idle as u64, total: total as u64 },
                            )
                        }
                    },
                },
            ),
        },
    }
}

/// The CPU time between a previous sample and a new one.
pub fn cpu_time_since(prev: Option<CpuStatSample>, sample: CpuStatSample) -> (r: CapabilityState<
    CpuTimeDelta,
>)
    ensures
        r == (match prev {
            None => CapabilityState::Unknown,
            Some(p) => {
                let idle = if sample.idle >= p.idle {
                    sample.idle - p.idle
                } else {
                    0
                };
                let total = if sample.total >= p.total {
                    sample.total - p.total
                } else {
                    0
                };
                if total == 0 {
                    CapabilityState::Unknown
                } else {
                    CapabilityState::Supported(
                        CpuTimeDelta { idle: idle as u64, total: total as u64 },
                    )
                }
            },
        }),
{
    match prev {
        None => CapabilityState::Unknown,
        Some(p) => {
            let idle = sample.idle.saturating_sub(p.idle);
            let total = sample.total.saturating_sub(p.total);
            if total == 0 {
                CapabilityState::Unknown
            } else {
                CapabilityState::Supported(CpuTimeDelta { idle, total })
            }
        },
    }
}

// ---------------------------------------------------------------------
// /proc/meminfo
// ---------------------------------------------------------------------

/// The value of `field` on one meminfo line: `<field>:` then whitespace and
/// a `u64`.
pub open spec fn meminfo_line_value(line: Seq<char>, field: Seq<char>) -> Option<u64> {
    if has_prefix(line, field) && line.len() > field.len() && line[field.len() as int] == ':' {
        let ws = words(line.subrange(field.len() + 1int, line.len() as int));
        if ws.len() > 0 {
            parse_u64(ws[0])
        } else {
            None
        }
    } else {
        None
    }
}

/// The first meminfo line that yields a value for `field`.
pub open spec fn meminfo_lines_value(ls: Seq<Seq<char>>, field: Seq<char>) -> Option<u64>
    decreases ls.len(),
{
    if ls.len() == 0 {
        None
    } else {
        match meminfo_line_value(ls[0], field) {
            Some(v) => Some(v),
            None => meminfo_lines_value(ls.drop_first(), field),
        }
    }
}

pub open spec fn meminfo_value(raw: Seq<char>, field: Seq<char>) -> Option<u64> {
    meminfo_lines_value(lines(raw), field)
}

fn meminfo_line(line: &[char], field: &[char]) -> (r: Option<u64>)
    ensures
        r == meminfo_line_value(line@, field@),
{
    if !starts_with(line, field) || line.len() <= field.len() || line[field.len()] != ':' {
        return None;
    }
    let rest = copy_range(line, field.len() + 1, line.len());
    let ws = split_words(rest.as_slice());
    if ws.len() == 0 {
        return None;
    }
    assert(views(ws@)[0] == ws@[0]@);
    parse_u64_chars(ws[0].as_slice())
}

/// The value of `field` (e.g. `MemTotal`) in a `/proc/meminfo` text.
pub fn parse_meminfo_field(raw: &str, field: &str) -> (r: Option<u64>)
    ensures
        r == meminfo_value(raw@, field@),
{
    let chars = chars_of(raw);
    let f = chars_of(field);
    let ls = split_lines(chars.as_slice());
    let ghost all = views(ls@);
    assert(all.subrange(0, all.len() as int) =~= all);
    let mut i: usize = 0;
    while i < ls.len()
        invariant
            i <= ls.len(),
            all == views(ls@),
            all == lines(raw@),
            f@ == field@,
            meminfo_lines_value(all, field@) == meminfo_lines_value(
                all.subrange(i as int, all.len() as int),
                field@,
            ),
        decreases ls.len() - i,
    {
        let ghost t = all.subrange(i as int, all.len() as int);
        assert(t[0] == ls@[i as int]@);
        assert(t.drop_first() =~= all.subrange(i + 1, all.len() as int));
        match meminfo_line(ls[i].as_slice(), f.as_slice()) {
            Some(v) => return Some(v),
            None => {},
        }
        i = i + 1;
    }
    None
}

/// What `ram_usage` reports for a read of `/proc/meminfo`: total and used
/// (total minus available) in bytes; `Unknown` when either field is missing,
/// when available exceeds total, or when a byte count would exceed `u64`.
pub open spec fn ram_usage_of(read: Result<String, IoError>) -> CapabilityState<MemoryUsage> {
    match read {
        Err(IoError::NotFound) => CapabilityState::Unsupported,
        Err(_) => CapabilityState::Unknown,
        Ok(raw) => match (meminfo_value(raw@, "MemTotal"@), meminfo_value(raw@, "MemAvailable"@)) {
            (Some(total), Some(available)) => if total >= available && total * 1024 <= u64::MAX {
                CapabilityState::Supported(
                    MemoryUsage {
                        total_bytes: (total * 1024) as u64,
                        used_bytes: ((total - available) * 1024) as u64,
                    },
                )
            } else {
                CapabilityState::Unknown
            },
            _ => CapabilityState::Unknown,
        },
    }
}

pub fn ram_usage_from_read(read: Result<String, IoError>) -> (r: CapabilityState<MemoryUsage>)
    ensures
        r == ram_usage_of(read),
{
    let raw = match read {
        Ok(s) => s,
        Err(IoError::NotFound) => return CapabilityState::Unsupported,
        Err(_) => return CapabilityState::Unknown,
    };
    let total_kb = parse_meminfo_field(raw.as_str(), "MemTotal");
    let available_kb = parse_meminfo_field(raw.as_str(), "MemAvailable");
    match (total_kb, available_kb) {
        (Some(total), Some(available)) => {
            if total >= available {
                match total.checked_mul(1024) {
                    Some(total_bytes) => CapabilityState::Supported(
                        MemoryUsage { total_bytes, used_bytes: (total - available) * 1024 },
                    ),
                    None => CapabilityState::Unknown,
                }
            } else {
                CapabilityState::Unknown
            }
        },
        _ => CapabilityState::Unknown,
    }
}

// ---------------------------------------------------------------------
// power_supply uevent
// ---------------------------------------------------------------------

/// The `KEY=value` pairs of a uevent text, one per line containing `=`, in
/// order (split at the first `=`).
pub open spec fn uevent_pairs(ls: Seq<Seq<char>>) -> Seq<(Seq<char>, Seq<char>)>
    decreases ls.len(),
{
    if ls.len() == 0 {
        Seq::empty()
    } else {
        match split_once(ls.last(), '=') {
            Some(kv) => uevent_pairs(ls.drop_last()).push(kv),
            None => uevent_pairs(ls.drop_last()),
        }
    }
}

pub open spec fn pair_views(v: Seq<(String, String)>) -> Seq<(Seq<char>, Seq<char>)> {
    v.map_values(|p: (String, String)| (p.0@, p.1@))
}

/// The `KEY=value` pairs of a `power_supply` uevent file, in order. A key
/// that occurs twice keeps its last value (see `uevent_value`).
pub fn parse_uevent(raw: &str) -> (r: Vec<(String, String)>)
    ensures
        pair_views(r@) == uevent_pairs(lines(raw@)),
{
    let chars = chars_of(raw);
    let ls = split_lines(chars.as_slice());
    let ghost all = views(ls@);
    let mut out: Vec<(String, String)> = Vec::new();
    let mut i: usize = 0;
    assert(all.take(0) =~= Seq::<Seq<char>>::empty());
    while i < ls.len()
        invariant
            i <= ls.len(),
            all == views(ls@),
            pair_views(out@) == uevent_pairs(all.take(i as int)),
        decreases ls.len() - i,
    {
        assert(all.take(i + 1).drop_last() =~= all.take(i as int));
        assert(all.take(i + 1).last() == ls@[i as int]@);
        let ghost before = out@;
        match split_once_char(ls[i].as_slice(), '=') {
            Some((k, v)) => {
                out.push((crate::text::string_of(k.as_slice()), crate::text::string_of(v.as_slice())));
                assert(pair_views(out@) =~= pair_views(before).push((k@, v@)));
            },
            None => {},
        }
        i = i + 1;
    }
    assert(all.take(ls.len() as int) =~= all);
    out
}

/// The value a uevent text gives `key`: that of its last occurrence.
pub open spec fn uevent_lookup(pairs: Seq<(Seq<char>, Seq<char>)>, key: Seq<char>) -> Option<
    Seq<char>,
>
    decreases pairs.len(),
{
    if pairs.len() == 0 {
        None
    } else if pairs.last().0 == key {
        Some(pairs.last().1)
    } else {
        uevent_lookup(pairs.drop_last(), key)
    }
}

/// The value of `key` among parsed uevent pairs (its last occurrence).
pub fn uevent_value(pairs: &Vec<(String, String)>, key: &str) -> (r: Option<String>)
    ensures
        match r {
            Some(v) => uevent_lookup(pair_views(pairs@), key@) == Some(v@),
            None => uevent_lookup(pair_views(pairs@), key@) is None,
        },
{
    let mut i = pairs.len();
    let ghost all = pair_views(pairs@);
    assert(all.take(all.len() as int) =~= all);
    while i > 0
        invariant
            i <= pairs.len(),
            all == pair_views(pairs@),
            uevent_lookup(all, key@) == uevent_lookup(all.take(i as int), key@),
        decreases i,
    {
        let ghost t = all.take(i as int);
        assert(t.last() == (pairs@[i - 1].0@, pairs@[i - 1].1@));
        assert(t.drop_last() =~= all.take(i - 1));
        if crate::power_profile::str_eq(pairs[i - 1].0.as_str(), key) {
            return Some(pairs[i - 1].1.clone());
        }
        i = i - 1;
    }
    None
}

/// The fields of a battery's `uevent` that its reading is made of, as the
/// file gives them; the application turns the numeric ones into units.
#[derive(Debug, Clone, PartialEq, Eq)]
pub struct BatteryFields {
    /// `POWER_SUPPLY_CAPACITY`.
    pub capacity: String,
    /// `POWER_SUPPLY_STATUS` as a status, `Unknown` when absent.
    pub status: BatteryStatus,
    /// `POWER_SUPPLY_VOLTAGE_NOW` (µV), when present.
    pub voltage_now: Option<String>,
    /// `POWER_SUPPLY_CURRENT_NOW` (µA), when present.
    pub current_now: Option<String>,
}

pub open spec fn text_of(o: Option<String>) -> Option<Seq<char>> {
    match o {
        Some(s) => Some(s@),
        None => None,
    }
}

/// What a battery `uevent` text gives: `Unknown` without a capacity field,
/// otherwise the fields as the file has them (the last occurrence of each).
pub open spec fn battery_fields_of(raw: Seq<char>, r: CapabilityState<BatteryFields>) -> bool {
    let pairs = uevent_pairs(lines(raw));
    match uevent_lookup(pairs, "POWER_SUPPLY_CAPACITY"@) {
        None => r is Unknown,
        Some(capacity) => r matches CapabilityState::Supported(f) && f.capacity@ == capacity
            && f.status == match uevent_lookup(pairs, "POWER_SUPPLY_STATUS"@) {
            Some(status) => battery_status_of(status),
            None => BatteryStatus::Unknown,
        } && text_of(f.voltage_now) == uevent_lookup(pairs, "POWER_SUPPLY_VOLTAGE_NOW"@)
            && text_of(f.current_now) == uevent_lookup(pairs, "POWER_SUPPLY_CURRENT_NOW"@),
    }
}

/// The battery fields of a `uevent` text (see `battery_fields_of`).
pub fn battery_fields_from(raw: &str) -> (r: CapabilityState<BatteryFields>)
    ensures
        battery_fields_of(raw@, r),
{
    let fields = parse_uevent(raw);
    let capacity = match uevent_value(&fields, "POWER_SUPPLY_CAPACITY") {
        Some(c) => c,
        None => return CapabilityState::Unknown,
    };
    let status = match uevent_value(&fields, "POWER_SUPPLY_STATUS") {
        Some(st) => BatteryStatus::parse(st.as_str()),
        None => BatteryStatus::Unknown,
    };
    let voltage_now = uevent_value(&fields, "POWER_SUPPLY_VOLTAGE_NOW");
    let current_now = uevent_value(&fields, "POWER_SUPPLY_CURRENT_NOW");
    CapabilityState::Supported(BatteryFields { capacity, status, voltage_now, current_now })
}

/// A battery reading: the listing of `/sys/class/power_supply` (a failed
/// listing or no `BAT*` entry is `Unsupported`), then the first battery's
/// `uevent` (a failed read is `Unknown`), then its fields.
pub open spec fn battery_result<R: SysfsReader>(reader: R, r: CapabilityState<BatteryFields>) -> bool {
    exists|top: Result<Vec<String>, IoError>|
        #[trigger] reader.listing_result("/sys/class/power_supply"@, top) && match top {
            Err(_) => r is Unsupported,
            Ok(entries) => match first_battery(path_views(entries@)) {
                None => r is Unsupported,
                Some(dir) => battery_uevent_result(reader, dir, r),
            },
        }
}

/// The read of `<dir>/uevent`: a failed read is `Unknown`, otherwise the
/// fields it gives.
pub open spec fn battery_uevent_result<R: SysfsReader>(
    reader: R,
    dir: Seq<char>,
    r: CapabilityState<BatteryFields>,
) -> bool {
    exists|read: Result<String, IoError>|
        #[trigger] reader.read_result(path_join(dir, "uevent"@), read) && match read {
            Err(_) => r is Unknown,
            Ok(raw) => battery_fields_of(raw@, r),
        }
}

// ---------------------------------------------------------------------
// Fans
// ---------------------------------------------------------------------

/// The speed a fan tachometer read yields: its trimmed content as a `u32`.
pub open spec fn rpm_of(read: Result<String, IoError>) -> Option<Rpm> {
    match read {
        Ok(raw) => match parse_u32(trim(raw@)) {
            Some(v) => Some(Rpm(v)),
            None => None,
        },
        Err(_) => None,
    }
}

pub fn rpm_from_read(read: Result<String, IoError>) -> (r: Option<Rpm>)
    ensures
        r == rpm_of(read),
{
    match read {
        Ok(raw) => {
            let chars = chars_of(raw.as_str());
            let t = trim_chars(chars.as_slice());
            match parse_u32_chars(t.as_slice()) {
                Some(v) => Some(Rpm(v)),
                None => None,
            }
        },
        Err(_) => None,
    }
}

/// Whether the content of an hwmon `name` file, trimmed, is one of `chips`.
pub open spec fn chip_matches(name: Seq<char>, chips: Seq<&str>) -> bool {
    exists|i: int| 0 <= i < chips.len() && #[trigger] chips[i]@ == trim(name)
}

fn chip_name_in(name: &str, chips: &[&str]) -> (r: bool)
    ensures
        r == chip_matches(name@, chips@),
{
    let chars = chars_of(name);
    let t = trim_chars(chars.as_slice());
    let mut i: usize = 0;
    while i < chips.len()
        invariant
            i <= chips.len(),
            t@ == trim(name@),
            forall|j: int| 0 <= j < i ==> #[trigger] chips@[j]@ != t@,
        decreases chips.len() - i,
    {
        if chars_eq_str(t.as_slice(), chips[i]) {
            assert(chips@[i as int]@ == trim(name@));
            return true;
        }
        i = i + 1;
    }
    false
}

/// Whether a read of an hwmon `name` file names one of `chips`; a failed
/// read names none.
pub fn chip_matches_read(read: &Result<String, IoError>, chips: &[&str]) -> (r: bool)
    ensures
        r == (read matches Ok(name) && chip_matches(name@, chips@)),
{
    match read {
        Ok(name) => chip_name_in(name.as_str(), chips),
        Err(_) => false,
    }
}

// ---------------------------------------------------------------------
// What the provider's scans read
// ---------------------------------------------------------------------

/// Whether a read of an hwmon `name` file names one of `chips`.
pub open spec fn name_read_matches(read: Result<String, IoError>, chips: Seq<&str>) -> bool {
    read matches Ok(name) && chip_matches(name@, chips)
}

/// The `name` reads of a scan over hwmon `entries`: one per entry, in order,
/// stopping at the first that names one of `chips`; `r` is that entry, or
/// none when no entry matched.
pub open spec fn hwmon_scan<R: SysfsReader>(
    reader: R,
    entries: Seq<String>,
    reads: Seq<Result<String, IoError>>,
    chips: Seq<&str>,
    r: Option<String>,
) -> bool {
    &&& reads.len() <= entries.len()
    &&& forall|i: int|
        0 <= i < reads.len() ==> #[trigger] reader.read_result(
            path_join(entries[i]@, "name"@),
            reads[i],
        )
    &&& forall|i: int|
        0 <= i < reads.len() ==> (name_read_matches(#[trigger] reads[i], chips) <==> (r is Some && i
            == reads.len() - 1))
    &&& match r {
        Some(p) => reads.len() > 0 && p@ == entries[reads.len() - 1]@,
        None => reads.len() == entries.len(),
    }
}

/// What `find_hwmon_by_name` answers: the listing of `/sys/class/hwmon`,
/// then the scan of its entries' `name` files.
pub open spec fn hwmon_result<R: SysfsReader>(reader: R, chips: Seq<&str>, r: Option<String>) -> bool {
    exists|listing: Result<Vec<String>, IoError>|
        #[trigger] reader.listing_result("/sys/class/hwmon"@, listing) && match listing {
            Err(_) => r is None,
            Ok(entries) => exists|reads: Seq<Result<String, IoError>>|
                #[trigger] hwmon_scan(reader, entries@, reads, chips, r),
        }
}

/// A fan tachometer among an hwmon directory's entries: `fan<N>_input`.
pub open spec fn is_fan_entry(path: Seq<char>) -> bool {
    file_name(path) matches Some(n) && fan_input_name(n)
}

/// The fan tachometers among `files`, in listing order.
pub open spec fn fan_entries(files: Seq<String>) -> Seq<Seq<char>>
    decreases files.len(),
{
    if files.len() == 0 {
        Seq::empty()
    } else if is_fan_entry(files.last()@) {
        fan_entries(files.drop_last()).push(files.last()@)
    } else {
        fan_entries(files.drop_last())
    }
}

/// The speeds that tachometer reads give, in order; a failed or malformed
/// read gives none.
pub open spec fn readings(reads: Seq<Result<String, IoError>>) -> Seq<Rpm>
    decreases reads.len(),
{
    if reads.len() == 0 {
        Seq::empty()
    } else {
        match rpm_of(reads.last()) {
            Some(v) => readings(reads.drop_last()).push(v),
            None => readings(reads.drop_last()),
        }
    }
}

/// The speeds of every directory's reads, directory by directory.
pub open spec fn all_readings(reads: Seq<Seq<Result<String, IoError>>>) -> Seq<Rpm>
    decreases reads.len(),
{
    if reads.len() == 0 {
        Seq::empty()
    } else {
        all_readings(reads.drop_last()) + readings(reads.last())
    }
}

/// One hwmon directory of the fan scan: its listing, then one read of each
/// of its tachometers, in order; no reads when it cannot be listed.
pub open spec fn dir_scan<R: SysfsReader>(
    reader: R,
    dir: Seq<char>,
    listing: Result<Vec<String>, IoError>,
    reads: Seq<Result<String, IoError>>,
) -> bool {
    &&& reader.listing_result(dir, listing)
    &&& match listing {
        Err(_) => reads.len() == 0,
        Ok(files) => reads.len() == fan_entries(files@).len() && forall|k: int|
            0 <= k < reads.len() ==> #[trigger] reader.read_result(fan_entries(files@)[k], reads[k]),
    }
}

/// What `fan_rpm` answers: the listing of `/sys/class/hwmon`, then every
/// listed directory scanned in order; the readings all together, in order,
/// `Unsupported` when there are none (never an empty or made-up list).
pub open spec fn fan_rpm_result<R: SysfsReader>(reader: R, r: CapabilityState<Vec<Rpm>>) -> bool {
    exists|top: Result<Vec<String>, IoError>|
        #[trigger] reader.listing_result("/sys/class/hwmon"@, top) && match top {
            Err(_) => r is Unsupported,
            Ok(dirs) => exists|
                listings: Seq<Result<Vec<String>, IoError>>,
                reads: Seq<Seq<Result<String, IoError>>>,
            |
                #![trigger all_readings(reads), listings.len()]
                listings.len() == dirs@.len() && reads.len() == dirs@.len() && (forall|i: int|
                    0 <= i < dirs@.len() ==> #[trigger] dir_scan(
                        reader,
                        dirs@[i]@,
                        listings[i],
                        reads[i],
                    )) && if all_readings(reads).len() == 0 {
                    r is Unsupported
                } else {
                    r matches CapabilityState::Supported(v) && v@ == all_readings(reads)
                },
        }
}

proof fn lemma_fan_entries_step(files: Seq<String>, j: int)
    requires
        0 <= j < files.len(),
    ensures
        fan_entries(files.take(j + 1)) == if is_fan_entry(files[j]@) {
            fan_entries(files.take(j)).push(files[j]@)
        } else {
            fan_entries(files.take(j))
        },
{
    assert(files.take(j + 1).drop_last() =~= files.take(j));
    assert(files.take(j + 1).last() == files[j]);
}

proof fn lemma_readings_push(reads: Seq<Result<String, IoError>>, x: Result<String, IoError>)
    ensures
        readings(reads.push(x)) == match rpm_of(x) {
            Some(v) => readings(reads).push(v),
            None => readings(reads),
        },
{
    assert(reads.push(x).drop_last() =~= reads);
}

proof fn lemma_all_readings_push(reads: Seq<Seq<Result<String, IoError>>>, x: Seq<Result<String, IoError>>)
    ensures
        all_readings(reads.push(x)) == all_readings(reads) + readings(x),
{
    assert(reads.push(x).drop_last() =~= reads);
}

impl<R: SysfsReader, C: CommandRunner> GenericLinux<R, C> {
    /// A provider over `sysfs` and `commands`, with no CPU sample yet.
    pub fn new(sysfs: R, commands: C) -> (r: Self)
        ensures
            r.reader() == sysfs,
            r.runner() == commands,
            r.cpu_history() is None,
    {
        Self { sysfs, commands, cpu_stat_history: None }
    }

    pub closed spec fn reader(&self) -> R {
        self.sysfs
    }

    pub closed spec fn runner(&self) -> C {
        self.commands
    }

    /// The previous `/proc/stat` sample, the baseline of the next reading.
    pub closed spec fn cpu_history(&self) -> Option<CpuStatSample> {
        self.cpu_stat_history
    }

    pub fn sysfs(&self) -> (r: &R)
        ensures
            *r == self.reader(),
    {
        &self.sysfs
    }

    pub fn commands(&self) -> (r: &C)
        ensures
            *r == self.runner(),
    {
        &self.commands
    }

    /// The first `hwmon*` directory under `/sys/class/hwmon` whose `name`
    /// file (trimmed) is one of `chip_names`, scanning in listing order.
    pub fn find_hwmon_by_name(&self, chip_names: &[&str]) -> (r: Option<String>)
        ensures
            hwmon_result(self.reader(), chip_names@, r),
    {
        let listing = self.sysfs.read_dir("/sys/class/hwmon");
        let ghost top = listing;
        let entries = match listing {
            Ok(e) => e,
            Err(_) => {
                assert(self.reader().listing_result("/sys/class/hwmon"@, top));
                return None;
            },
        };
        let ghost mut reads: Seq<Result<String, IoError>> = Seq::empty();
        let mut i: usize = 0;
        while i < entries.len()
            invariant
                i <= entries.len(),
                self.reader().listing_result("/sys/class/hwmon"@, top),
                top == Ok::<Vec<String>, IoError>(entries),
                reads.len() == i,
                forall|k: int|
                    0 <= k < i ==> #[trigger] self.reader().read_result(
                        path_join(entries@[k]@, "name"@),
                        reads[k],
                    ),
                forall|k: int| 0 <= k < i ==> !name_read_matches(#[trigger] reads[k], chip_names@),
            decreases entries.len() - i,
        {
            let name_path = join_path(entries[i].as_str(), "name");
            let read = self.sysfs.read_to_string(name_path.as_str());
            let ghost seen = read;
            let found = chip_matches_read(&read, chip_names);
            proof {
                reads = reads.push(seen);
            }
            if found {
                let r = Some(entries[i].clone());
                assert(hwmon_scan(self.reader(), entries@, reads, chip_names@, r));
                assert(top->Ok_0@ == entries@);
                assert(hwmon_scan(self.reader(), top->Ok_0@, reads, chip_names@, r));
                return r;
            }
            i = i + 1;
        }
        assert(hwmon_scan(self.reader(), entries@, reads, chip_names@, None));
        assert(self.reader().listing_result("/sys/class/hwmon"@, top));
        None
    }

    /// CPU time since the previous sample, from `/proc/stat`, and the new
    /// baseline (see `cpu_usage_step`): the first successful sample of a
    /// provider has no baseline and is `Unknown`; a missing `/proc/stat` is
    /// `Unsupported`; a failed read or malformed text is `Unknown` and keeps
    /// the previous sample.
    pub fn cpu_utilization_sample(&mut self) -> (r: CapabilityState<CpuTimeDelta>)
        ensures
            final(self).reader() == old(self).reader(),
            final(self).runner() == old(self).runner(),
            exists|read: Result<String, IoError>|
                #[trigger] old(self).reader().read_result("/proc/stat"@, read) && cpu_usage_step(
                    old(self).cpu_history(),
                    read,
                ) == (final(self).cpu_history(), r),
    {
        let read = self.sysfs.read_to_string("/proc/stat");
        let ghost seen = read;
        let ghost prev = self.cpu_stat_history;
        let raw = match read {
            Ok(s) => s,
            Err(IoError::NotFound) => {
                assert(self.reader().read_result("/proc/stat"@, seen));
                return CapabilityState::Unsupported;
            },
            Err(_) => {
                assert(self.reader().read_result("/proc/stat"@, seen));
                return CapabilityState::Unknown;
            },
        };
        let sample = match parse_cpu_stat_line(raw.as_str()) {
            Some(s) => s,
            None => {
                assert(self.reader().read_result("/proc/stat"@, seen));
                return CapabilityState::Unknown;
            },
        };
        let r = cpu_time_since(self.cpu_stat_history, sample);
        self.cpu_stat_history = Some(sample);
        assert(cpu_usage_step(prev, seen) == (Some(sample), r));
        assert(self.reader().read_result("/proc/stat"@, seen));
        r
    }

    /// Memory usage from `/proc/meminfo` (see `ram_usage_of`).
    /// The first battery's `uevent` fields (see `battery_result`).
    pub fn battery_fields(&self) -> (r: CapabilityState<BatteryFields>)
        ensures
            battery_result(self.reader(), r),
    {
        let listing = self.sysfs.read_dir("/sys/class/power_supply");
        let ghost top = listing;
        let entries = match listing {
            Ok(e) => e,
            Err(_) => {
                assert(self.reader().listing_result("/sys/class/power_supply"@, top));
                return CapabilityState::Unsupported;
            },
        };
        let dir = match battery_dir(&entries) {
            Some(d) => d,
            None => {
                assert(top->Ok_0@ == entries@);
                assert(self.reader().listing_result("/sys/class/power_supply"@, top));
                return CapabilityState::Unsupported;
            },
        };
        assert(top == Ok::<Vec<String>, IoError>(entries));
        assert(first_battery(path_views(top->Ok_0@)) == Some(dir@));
        let path = join_path(dir.as_str(), "uevent");
        let read = self.sysfs.read_to_string(path.as_str());
        let ghost seen = read;
        let r = match read {
            Ok(raw) => battery_fields_from(raw.as_str()),
            Err(_) => CapabilityState::Unknown,
        };
        assert(self.reader().read_result(path_join(dir@, "uevent"@), seen));
        assert(battery_uevent_result(self.reader(), dir@, r));
        assert(self.reader().listing_result("/sys/class/power_supply"@, top));
        r
    }

    pub fn ram_usage(&self) -> (r: CapabilityState<MemoryUsage>)
        ensures
            exists|read: Result<String, IoError>|
                #[trigger] self.reader().read_result("/proc/meminfo"@, read) && ram_usage_of(read)
                    == r,
    {
        let read = self.sysfs.read_to_string("/proc/meminfo");
        let ghost seen = read;
        let r = ram_usage_from_read(read);
        assert(self.reader().read_result("/proc/meminfo"@, seen) && ram_usage_of(seen) == r);
        r
    }

    /// Every readable `fan<N>_input` under every hwmon device, in listing
    /// order (see `fan_rpm_result`).
    pub fn fan_rpm(&self) -> (r: CapabilityState<Vec<Rpm>>)
        ensures
            fan_rpm_result(self.reader(), r),
    {
        let top = self.sysfs.read_dir("/sys/class/hwmon");
        let ghost seen_top = top;
        let hwmon_dirs = match top {
            Ok(d) => d,
            Err(_) => {
                assert(self.reader().listing_result("/sys/class/hwmon"@, seen_top));
                return CapabilityState::Unsupported;
            },
        };
        let mut rpms: Vec<Rpm> = Vec::new();
        let ghost mut listings: Seq<Result<Vec<String>, IoError>> = Seq::empty();
        let ghost mut reads: Seq<Seq<Result<String, IoError>>> = Seq::empty();
        let mut i: usize = 0;
        while i < hwmon_dirs.len()
            invariant
                i <= hwmon_dirs.len(),
                listings.len() == i,
                reads.len() == i,
                forall|k: int|
                    0 <= k < i ==> #[trigger] dir_scan(
                        self.reader(),
                        hwmon_dirs@[k]@,
                        listings[k],
                        reads[k],
                    ),
                rpms@ == all_readings(reads),
            decreases hwmon_dirs.len() - i,
        {
            let listing = self.sysfs.read_dir(hwmon_dirs[i].as_str());
            let ghost seen_listing = listing;
            let ghost mut cur: Seq<Result<String, IoError>> = Seq::empty();
            let ghost base = rpms@;
            match listing {
                Ok(files) => {
                    let mut j: usize = 0;
                    assert(files@.take(0) =~= Seq::<String>::empty());
                    while j < files.len()
                        invariant
                            j <= files.len(),
                            cur.len() == fan_entries(files@.take(j as int)).len(),
                            forall|k: int|
                                0 <= k < cur.len() ==> #[trigger] self.reader().read_result(
                                    fan_entries(files@.take(j as int))[k],
                                    cur[k],
                                ),
                            rpms@ == base + readings(cur),
                        decreases files.len() - j,
                    {
                        proof {
                            lemma_fan_entries_step(files@, j as int);
                        }
                        let is_fan = match file_name_of(files[j].as_str()) {
                            Some(n) => is_fan_input_name(
                                crate::text::string_of(n.as_slice()).as_str(),
                            ),
                            None => false,
                        };
                        assert(is_fan == is_fan_entry(files@[j as int]@));
                        if is_fan {
                            let read = self.sysfs.read_to_string(files[j].as_str());
                            let ghost seen = read;
                            proof {
                                lemma_readings_push(cur, seen);
                            }
                            match rpm_from_read(read) {
                                Some(rpm) => rpms.push(rpm),
                                None => {},
                            }
                            proof {
                                let old_cur = cur;
                                cur = cur.push(seen);
                                assert forall|k: int| 0 <= k < cur.len() implies #[trigger] self.reader().read_result(
                                    fan_entries(files@.take(j + 1))[k],
                                    cur[k],
                                ) by {
                                    if k < old_cur.len() {
                                        assert(cur[k] == old_cur[k]);
                                    }
                                }
                            }
                            assert(rpms@ =~= base + readings(cur));
                        }
                        j = j + 1;
                    }
                    assert(files@.take(files.len() as int) =~= files@);
                },
                Err(_) => {},
            }
            assert(dir_scan(self.reader(), hwmon_dirs@[i as int]@, seen_listing, cur));
            proof {
                lemma_all_readings_push(reads, cur);
                let old_listings = listings;
                let old_reads = reads;
                listings = listings.push(seen_listing);
                reads = reads.push(cur);
                assert forall|k: int| 0 <= k < i + 1 implies #[trigger] dir_scan(
                    self.reader(),
                    hwmon_dirs@[k]@,
                    listings[k],
                    reads[k],
                ) by {
                    if k < i {
                        assert(listings[k] == old_listings[k]);
                        assert(reads[k] == old_reads[k]);
                    }
                }
            }
            i = i + 1;
        }
        assert(self.reader().listing_result("/sys/class/hwmon"@, seen_top));
        if rpms.len() == 0 {
            CapabilityState::Unsupported
        } else {
            CapabilityState::Supported(rpms)
        }
    }
}

// ---------------------------------------------------------------------
// Evidence for `diagnose`
// ---------------------------------------------------------------------

/// Evidence of a read of the file at `path`.
pub open spec fn file_evidence<R: SysfsReader>(reader: R, path: Seq<char>, r: Option<Evidence>) -> bool {
    exists|read: Result<String, IoError>|
        #[trigger] reader.read_result(path, read) && match r {
            Some(e) => read_evidence(path, read, e),
            None => false,
        }
}

/// The `nvidia-smi` command line of a query.
pub open spec fn nvidia_smi_line(query: Seq<char>) -> Seq<char> {
    "nvidia-smi "@ + query + " --format=csv,noheader,nounits"@
}

/// The arguments `nvidia-smi` is run with for a query.
pub open spec fn nvidia_smi_args(query: Seq<char>) -> Seq<Seq<char>> {
    seq![query, "--format=csv,noheader,nounits"@]
}

/// Evidence of a run of `nvidia-smi <query> --format=csv,noheader,nounits`.
pub open spec fn command_evidence<C: CommandRunner>(runner: C, query: Seq<char>, r: Option<Evidence>) -> bool {
    exists|out: Result<String, IoError>|
        #[trigger] runner.run_result("nvidia-smi"@, nvidia_smi_args(query), out)
            && match r {
            Some(e) => read_evidence(nvidia_smi_line(query), out, e),
            None => false,
        }
}

/// Evidence of a hwmon temperature: the `temp1_input` of the first hwmon
/// device named one of `chips`, none without one.
pub open spec fn hwmon_evidence<R: SysfsReader>(reader: R, chips: Seq<&str>, r: Option<Evidence>) -> bool {
    exists|dir: Option<String>|
        #[trigger] hwmon_result(reader, chips, dir) && match dir {
            None => r is None,
            Some(d) => file_evidence(reader, path_join(d@, "temp1_input"@), r),
        }
}

/// Evidence of the CPU frequency: the `cpufreq/scaling_cur_freq` of the first
/// CPU listed under `/sys/devices/system/cpu`, none without one.
pub open spec fn cpu_frequency_evidence_of<R: SysfsReader>(reader: R, r: Option<Evidence>) -> bool {
    exists|top: Result<Vec<String>, IoError>|
        #[trigger] reader.listing_result("/sys/devices/system/cpu"@, top) && match top {
            Err(_) => r is None,
            Ok(es) => if cpu_entries(path_views(es@)).len() == 0 {
                r is None
            } else {
                file_evidence(
                    reader,
                    path_join(path_join(cpu_entries(path_views(es@))[0], "cpufreq"@), "scaling_cur_freq"@),
                    r,
                )
            },
        }
}

/// Evidence of the battery: the first battery's `uevent`, none without one.
pub open spec fn battery_evidence_of<R: SysfsReader>(reader: R, r: Option<Evidence>) -> bool {
    exists|top: Result<Vec<String>, IoError>|
        #[trigger] reader.listing_result("/sys/class/power_supply"@, top) && match top {
            Err(_) => r is None,
            Ok(es) => match first_battery(path_views(es@)) {
                None => r is None,
                Some(d) => file_evidence(reader, path_join(d, "uevent"@), r),
            },
        }
}

/// The first fan tachometer among `entries`.
pub open spec fn first_fan(entries: Seq<Seq<char>>) -> Option<Seq<char>>
    decreases entries.len(),
{
    if entries.len() == 0 {
        None
    } else if is_fan_entry(entries[0]) {
        Some(entries[0])
    } else {
        first_fan(entries.drop_first())
    }
}

/// The first fan tachometer of a hwmon directory listing.
pub open spec fn dir_fan(listing: Result<Vec<String>, IoError>) -> Option<Seq<char>> {
    match listing {
        Ok(files) => first_fan(path_views(files@)),
        Err(_) => None,
    }
}

/// The scan for the first fan tachometer: `listings` are those of the first
/// hwmon directories in order, every one but the last without a
/// tachometer; the evidence is a read of the last one's first tachometer,
/// or none when every directory was listed without finding one.
pub open spec fn fan_evidence_scan<R: SysfsReader>(
    reader: R,
    dirs: Seq<Seq<char>>,
    listings: Seq<Result<Vec<String>, IoError>>,
    r: Option<Evidence>,
) -> bool {
    &&& listings.len() <= dirs.len()
    &&& forall|k: int| 0 <= k < listings.len() ==> #[trigger] reader.listing_result(dirs[k], listings[k])
    &&& forall|k: int| 0 <= k < listings.len() - 1 ==> #[trigger] dir_fan(listings[k]) is None
    &&& if listings.len() > 0 && dir_fan(listings.last()) is Some {
        file_evidence(reader, dir_fan(listings.last())->Some_0, r)
    } else {
        listings.len() == dirs.len() && r is None
    }
}

pub open spec fn fan_scan_found<R: SysfsReader>(reader: R, dirs: Seq<Seq<char>>, r: Option<Evidence>) -> bool {
    exists|listings: Seq<Result<Vec<String>, IoError>>| #[trigger] fan_evidence_scan(reader, dirs, listings, r)
}

/// Evidence of the fan speeds: the first tachometer under
/// `/sys/class/hwmon`, in listing order, none without one.
pub open spec fn fan_evidence_of<R: SysfsReader>(reader: R, r: Option<Evidence>) -> bool {
    exists|top: Result<Vec<String>, IoError>|
        #[trigger] reader.listing_result("/sys/class/hwmon"@, top) && match top {
            Err(_) => r is None,
            Ok(dirs) => fan_scan_found(reader, path_views(dirs@), r),
        }
}

fn is_fan_path(path: &str) -> (r: bool)
    ensures
        r == is_fan_entry(path@),
{
    match file_name_of(path) {
        Some(n) => is_fan_input_name(crate::text::string_of(n.as_slice()).as_str()),
        None => false,
    }
}

/// The first fan tachometer among `files` (see `first_fan`).
fn first_fan_entry(files: &Vec<String>) -> (r: Option<String>)
    ensures
        match r {
            Some(p) => first_fan(path_views(files@)) == Some(p@),
            None => first_fan(path_views(files@)) is None,
        },
{
    let ghost all = path_views(files@);
    let mut i: usize = 0;
    assert(all.subrange(0, all.len() as int) =~= all);
    while i < files.len()
        invariant
            i <= files.len(),
            all == path_views(files@),
            first_fan(all) == first_fan(all.subrange(i as int, all.len() as int)),
        decreases files.len() - i,
    {
        let ghost t = all.subrange(i as int, all.len() as int);
        assert(t[0] == files@[i as int]@);
        assert(t.drop_first() =~= all.subrange(i + 1, all.len() as int));
        if is_fan_path(files[i].as_str()) {
            return Some(crate::text::owned(files[i].as_str()));
        }
        i = i + 1;
    }
    None
}

impl<R: SysfsReader, C: CommandRunner> GenericLinux<R, C> {
    fn file_evidence_at(&self, path: &str) -> (r: Option<Evidence>)
        ensures
            file_evidence(self.reader(), path@, r),
    {
        let read = self.sysfs.read_to_string(path);
        let ghost seen = read;
        let e = evidence_from_read(path, read);
        assert(self.reader().read_result(path@, seen) && read_evidence(path@, seen, e));
        Some(e)
    }

    fn hwmon_temperature_evidence(&self, chips: &[&str]) -> (r: Option<Evidence>)
        ensures
            hwmon_evidence(self.reader(), chips@, r),
    {
        let dir = self.find_hwmon_by_name(chips);
        let ghost seen = dir;
        let r = match &dir {
            None => None,
            Some(d) => {
                let path = join_path(d.as_str(), "temp1_input");
                self.file_evidence_at(path.as_str())
            },
        };
        assert(hwmon_result(self.reader(), chips@, seen));
        r
    }

    fn nvidia_smi_evidence(&self, query: &str) -> (r: Option<Evidence>)
        ensures
            command_evidence(self.runner(), query@, r),
    {
        let args: [&str; 2] = [query, "--format=csv,noheader,nounits"];
        let out = self.commands.run("nvidia-smi", &args);
        let ghost seen = out;
        let mut line = chars_of("nvidia-smi ");
        crate::text::append_str(&mut line, query);
        crate::text::append_str(&mut line, " --format=csv,noheader,nounits");
        let source = crate::text::string_of(line.as_slice());
        let e = evidence_from_read(source.as_str(), out);
        assert(arg_texts(args@) =~= nvidia_smi_args(query@));
        assert(source@ =~= nvidia_smi_line(query@));
        assert(self.runner().run_result("nvidia-smi"@, nvidia_smi_args(query@), seen));
        Some(e)
    }
}

impl<R: SysfsReader, C: CommandRunner> EvidenceProvider for GenericLinux<R, C> {
    /// The `temp1_input` of the `k10temp` or `coretemp` hwmon device.
    fn cpu_temperature_evidence(&self) -> (r: Option<Evidence>)
        ensures
            hwmon_evidence(self.reader(), seq!["k10temp", "coretemp"], r),
    {
        let chips: [&str; 2] = ["k10temp", "coretemp"];
        let r = self.hwmon_temperature_evidence(&chips);
        assert(chips@ =~= seq!["k10temp", "coretemp"]);
        r
    }

    /// The iGPU's `amdgpu` hwmon `temp1_input`; the dGPU's `nvidia-smi` query.
    fn gpu_temperature_evidence(&self, gpu: GpuKind) -> (r: Option<Evidence>)
        ensures
            gpu is Integrated ==> hwmon_evidence(self.reader(), seq!["amdgpu"], r),
            gpu is Discrete ==> command_evidence(self.runner(), "--query-gpu=temperature.gpu"@, r),
    {
        match gpu {
            GpuKind::Integrated => {
                let chips: [&str; 1] = ["amdgpu"];
                let r = self.hwmon_temperature_evidence(&chips);
                assert(chips@ =~= seq!["amdgpu"]);
                r
            },
            GpuKind::Discrete => self.nvidia_smi_evidence("--query-gpu=temperature.gpu"),
        }
    }

    /// `/proc/stat`.
    fn cpu_utilization_evidence(&self) -> (r: Option<Evidence>)
        ensures
            file_evidence(self.reader(), "/proc/stat"@, r),
    {
        self.file_evidence_at("/proc/stat")
    }

    /// None for the iGPU, which has no utilization source; the dGPU's
    /// `nvidia-smi` query.
    fn gpu_utilization_evidence(&self, gpu: GpuKind) -> (r: Option<Evidence>)
        ensures
            gpu is Integrated ==> r is None,
            gpu is Discrete ==> command_evidence(self.runner(), "--query-gpu=utilization.gpu"@, r),
    {
        match gpu {
            GpuKind::Integrated => None,
            GpuKind::Discrete => self.nvidia_smi_evidence("--query-gpu=utilization.gpu"),
        }
    }

    /// The first CPU's `cpufreq/scaling_cur_freq`.
    fn cpu_frequency_evidence(&self) -> (r: Option<Evidence>)
        ensures
            cpu_frequency_evidence_of(self.reader(), r),
    {
        let listing = self.sysfs.read_dir("/sys/devices/system/cpu");
        let ghost top = listing;
        let entries = match listing {
            Ok(e) => e,
            Err(_) => {
                assert(self.reader().listing_result("/sys/devices/system/cpu"@, top));
                return None;
            },
        };
        assert(top == Ok::<Vec<String>, IoError>(entries));
        let dirs = cpu_dirs(&entries);
        if dirs.len() == 0 {
            assert(self.reader().listing_result("/sys/devices/system/cpu"@, top));
            return None;
        }
        assert(path_views(dirs@)[0] == dirs@[0]@);
        let freq_dir = join_path(dirs[0].as_str(), "cpufreq");
        let path = join_path(freq_dir.as_str(), "scaling_cur_freq");
        let r = self.file_evidence_at(path.as_str());
        assert(self.reader().listing_result("/sys/devices/system/cpu"@, top));
        r
    }

    /// `/proc/meminfo`.
    fn ram_usage_evidence(&self) -> (r: Option<Evidence>)
        ensures
            file_evidence(self.reader(), "/proc/meminfo"@, r),
    {
        self.file_evidence_at("/proc/meminfo")
    }

    /// The first battery's `uevent`, redacted.
    fn battery_evidence(&self) -> (r: Option<Evidence>)
        ensures
            battery_evidence_of(self.reader(), r),
    {
        let listing = self.sysfs.read_dir("/sys/class/power_supply");
        let ghost top = listing;
        let entries = match listing {
            Ok(e) => e,
            Err(_) => {
                assert(self.reader().listing_result("/sys/class/power_supply"@, top));
                return None;
            },
        };
        assert(top == Ok::<Vec<String>, IoError>(entries));
        let dir = match battery_dir(&entries) {
            Some(d) => d,
            None => {
                assert(self.reader().listing_result("/sys/class/power_supply"@, top));
                return None;
            },
        };
        let path = join_path(dir.as_str(), "uevent");
        let r = self.file_evidence_at(path.as_str());
        assert(self.reader().listing_result("/sys/class/power_supply"@, top));
        r
    }

    /// The first fan tachometer under `/sys/class/hwmon`.
    fn fan_rpm_evidence(&self) -> (r: Option<Evidence>)
        ensures
            fan_evidence_of(self.reader(), r),
    {
        let top = self.sysfs.read_dir("/sys/class/hwmon");
        let ghost seen_top = top;
        let hwmon_dirs = match top {
            Ok(d) => d,
            Err(_) => {
                assert(self.reader().listing_result("/sys/class/hwmon"@, seen_top));
                return None;
            },
        };
        assert(seen_top == Ok::<Vec<String>, IoError>(hwmon_dirs));
        let ghost dirs = path_views(hwmon_dirs@);
        let ghost mut listings: Seq<Result<Vec<String>, IoError>> = Seq::empty();
        let mut i: usize = 0;
        while i < hwmon_dirs.len()
            invariant
                i <= hwmon_dirs.len(),
                dirs == path_views(hwmon_dirs@),
                self.reader().listing_result("/sys/class/hwmon"@, seen_top),
                seen_top == Ok::<Vec<String>, IoError>(hwmon_dirs),
                listings.len() == i,
                forall|k: int|
                    0 <= k < i ==> #[trigger] self.reader().listing_result(dirs[k], listings[k]),
                forall|k: int| 0 <= k < i ==> #[trigger] dir_fan(listings[k]) is None,
            decreases hwmon_dirs.len() - i,
        {
            let listing = self.sysfs.read_dir(hwmon_dirs[i].as_str());
            let ghost seen = listing;
            let ghost old_listings = listings;
            proof {
                listings = listings.push(seen);
                assert forall|k: int| 0 <= k < i + 1 implies #[trigger] self.reader().listing_result(
                    dirs[k],
                    listings[k],
                ) by {
                    if k < i {
                        assert(listings[k] == old_listings[k]);
                    }
                }
            }
            let found = match &listing {
                Ok(files) => first_fan_entry(files),
                Err(_) => None,
            };
            match found {
                Some(path) => {
                    assert(dir_fan(seen) == Some(path@));
                    let r = self.file_evidence_at(path.as_str());
                    assert forall|k: int| 0 <= k < listings.len() - 1 implies #[trigger] dir_fan(
                        listings[k],
                    ) is None by {
                        assert(listings[k] == old_listings[k]);
                    }
                    assert(listings.last() == seen);
                    assert(fan_evidence_scan(self.reader(), dirs, listings, r));
                    assert(self.reader().listing_result("/sys/class/hwmon"@, seen_top));
                    return r;
                },
                None => {
                    assert(dir_fan(seen) is None);
                    proof {
                        assert forall|k: int| 0 <= k < i + 1 implies #[trigger] dir_fan(listings[k])
                            is None by {
                            if k < i {
                                assert(listings[k] == old_listings[k]);
                            }
                        }
                    }
                },
            }
            i = i + 1;
        }
        assert(fan_evidence_scan(self.reader(), dirs, listings, None));
        assert(self.reader().listing_result("/sys/class/hwmon"@, seen_top));
        None
    }
}

} // verus!
