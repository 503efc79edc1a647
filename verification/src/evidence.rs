//! Raw evidence (paths and values) backing a sensor reading, which
//! `nitroctl diagnose` prints for bug reports, and the redaction of
//! identifying fields from it.

use vstd::prelude::*;
use crate::capability::CapabilityState;
use crate::sensor::GpuKind;
use crate::sysfs::IoError;
use crate::text::{
    append_str, chars_of, copy_range, ends_with, has_suffix, join, join_chars, lines, split_lines,
    split_once, split_once_char, string_of, views,
};

verus! {

/// One metric's raw evidence: where the value came from, and what was read
/// there. `raw_value` is present whenever the file or subprocess was read,
/// even when what came back was malformed; `None` only when there was no
/// path or command to point at.
#[derive(Debug, Clone, PartialEq, Eq)]
pub struct Evidence {
    /// A sysfs path or a subprocess description.
    pub source: String,
    pub raw_value: Option<String>,
}

/// Whether a `KEY` names an identifying field: it ends in `SERIAL_NUMBER`,
/// `_SERIAL`, `_UUID` or `_ASSET_TAG`.
pub open spec fn sensitive_key(key: Seq<char>) -> bool {
    ||| has_suffix(key, "SERIAL_NUMBER"@)
    ||| has_suffix(key, "_SERIAL"@)
    ||| has_suffix(key, "_UUID"@)
    ||| has_suffix(key, "_ASSET_TAG"@)
}

/// One line after redaction: a `KEY=value` line (split at its first `=`)
/// whose key is sensitive becomes `KEY=[REDACTED]`; any other line is kept.
pub open spec fn redact_line(line: Seq<char>) -> Seq<char> {
    match split_once(line, '=') {
        Some((key, _)) => if sensitive_key(key) {
            key + "=[REDACTED]"@
        } else {
            line
        },
        None => line,
    }
}

/// The redacted text: every line redacted, joined with `\n`.
pub open spec fn redacted(raw: Seq<char>) -> Seq<char> {
    join(lines(raw).map_values(|l: Seq<char>| redact_line(l)), "\n"@)
}

fn is_sensitive_key(key: &[char]) -> (r: bool)
    ensures
        r == sensitive_key(key@),
{
    let a = chars_of("SERIAL_NUMBER");
    let b = chars_of("_SERIAL");
    let c = chars_of("_UUID");
    let d = chars_of("_ASSET_TAG");
    ends_with(key, a.as_slice()) || ends_with(key, b.as_slice()) || ends_with(key, c.as_slice())
        || ends_with(key, d.as_slice())
}

fn redact_one(line: &[char]) -> (r: Vec<char>)
    ensures
        r@ == redact_line(line@),
{
    match split_once_char(line, '=') {
        Some((key, _value)) => {
            if is_sensitive_key(key.as_slice()) {
                let mut out = key;
                append_str(&mut out, "=[REDACTED]");
                out
            } else {
                copy_range(line, 0, line.len())
            }
        },
        None => copy_range(line, 0, line.len()),
    }
}

/// Redacts battery serial numbers and identifying DMI-style fields from raw
/// evidence text: each `KEY=value` line whose key ends in `SERIAL_NUMBER`,
/// `_SERIAL`, `_UUID` or `_ASSET_TAG` has its value replaced by
/// `[REDACTED]`; every other line is kept as it was.
pub fn redact_evidence(raw: &str) -> (r: String)
    ensures
        r@ == redacted(raw@),
{
    let chars = chars_of(raw);
    let ls = split_lines(chars.as_slice());
    let ghost src = views(ls@);
    let mut out: Vec<Vec<char>> = Vec::new();
    let mut i: usize = 0;
    while i < ls.len()
        invariant
            i <= ls.len(),
            src == views(ls@),
            src == lines(raw@),
            out@.len() == i,
            views(out@) == src.take(i as int).map_values(|l: Seq<char>| redact_line(l)),
        decreases ls.len() - i,
    {
        let line = redact_one(ls[i].as_slice());
        let ghost before = out@;
        out.push(line);
        assert(views(out@) =~= src.take(i + 1).map_values(|l: Seq<char>| redact_line(l))) by {
            assert(out@ == before.push(line));
            assert(views(out@)[i as int] == line@);
            assert forall|j: int| 0 <= j < i implies views(out@)[j] == views(before)[j] by {
                assert(out@[j] == before[j]);
            }
            assert(src.take(i + 1)[i as int] == ls@[i as int]@);
            let f = |l: Seq<char>| redact_line(l);
            assert forall|j: int| 0 <= j <= i implies views(out@)[j] == src.take(i + 1).map_values(
                f,
            )[j] by {
                if j < i {
                    assert(views(before)[j] == src.take(i as int).map_values(f)[j]);
                }
            }
        }
        i = i + 1;
    }
    assert(src.take(ls.len() as int) =~= src);
    let nl = chars_of("\n");
    let joined = join_chars(out.as_slice(), nl.as_slice());
    string_of(joined.as_slice())
}

/// The text an optional string holds.
pub open spec fn opt_text(o: Option<String>) -> Option<Seq<char>> {
    match o {
        Some(s) => Some(s@),
        None => None,
    }
}

/// Evidence of one read of `source` (a file or a command line): the source,
/// and the text the read gave, redacted; no value when the read failed.
pub open spec fn read_evidence(source: Seq<char>, read: Result<String, IoError>, e: Evidence) -> bool {
    &&& e.source@ == source
    &&& opt_text(e.raw_value) == match read {
        Ok(raw) => Some(redacted(raw@)),
        Err(_) => None::<Seq<char>>,
    }
}

/// The evidence of one read of `source` (see `read_evidence`).
pub fn evidence_from_read(source: &str, read: Result<String, IoError>) -> (e: Evidence)
    ensures
        read_evidence(source@, read, e),
{
    let raw_value = match read {
        Ok(raw) => Some(redact_evidence(raw.as_str())),
        Err(_) => None,
    };
    Evidence { source: crate::text::owned(source), raw_value }
}

/// The line `diagnose` prints under a metric: `  evidence: <source> = <raw
/// value>`, or `  evidence: <source> (no value read)` when the read failed;
/// none for an `Unsupported` metric or without evidence.
pub open spec fn evidence_line_of<T>(state: CapabilityState<T>, evidence: Option<Evidence>) -> Option<
    Seq<char>,
> {
    match evidence {
        Some(e) => if state is Unsupported {
            None
        } else {
            Some(
                "  evidence: "@ + e.source@ + match e.raw_value {
                    Some(v) => " = "@ + v@,
                    None => " (no value read)"@,
                },
            )
        },
        None => None,
    }
}

/// The evidence line of a metric (see `evidence_line_of`).
pub fn evidence_line<T>(state: &CapabilityState<T>, evidence: &Option<Evidence>) -> (r: Option<String>)
    ensures
        opt_text(r) == evidence_line_of(*state, *evidence),
        (r is None) <==> (evidence is None || state is Unsupported),
        evidence is Some && !(state is Unsupported) ==> opt_text(r) == Some(
            "  evidence: "@ + evidence->Some_0.source@ + match evidence->Some_0.raw_value {
                Some(v) => " = "@ + v@,
                None => " (no value read)"@,
            },
        ),
{
    match evidence {
        None => None,
        Some(e) => match state {
            CapabilityState::Unsupported => None,
            _ => {
                let mut v = chars_of("  evidence: ");
                append_str(&mut v, e.source.as_str());
                match &e.raw_value {
                    Some(raw) => {
                        append_str(&mut v, " = ");
                        append_str(&mut v, raw.as_str());
                    },
                    None => append_str(&mut v, " (no value read)"),
                }
                Some(string_of(v.as_slice()))
            },
        },
    }
}

/// Raw evidence for each metric a sensor provider reports, implemented by
/// the providers that can point at where each reading came from.
pub trait EvidenceProvider {
    fn cpu_temperature_evidence(&self) -> Option<Evidence>;

    fn gpu_temperature_evidence(&self, gpu: GpuKind) -> Option<Evidence>;

    fn cpu_utilization_evidence(&self) -> Option<Evidence>;

    fn gpu_utilization_evidence(&self, gpu: GpuKind) -> Option<Evidence>;

    fn cpu_frequency_evidence(&self) -> Option<Evidence>;

    fn ram_usage_evidence(&self) -> Option<Evidence>;

    fn battery_evidence(&self) -> Option<Evidence>;

    fn fan_rpm_evidence(&self) -> Option<Evidence>;
}

} // verus!
