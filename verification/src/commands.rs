//! Command implementations for `nitroctl`: each command is a function of a
//! provider's answer, returning the text to print and the exit code — no
//! I/O here.
//!
//! Exit codes: `0` success; `1` the one requested capability is not
//! `Supported`; `2` an invalid argument; `3` the underlying interface call
//! failed.

use vstd::prelude::*;
use crate::capability::CapabilityState;
use crate::power_profile::{PowerProfileProvider, ProfileError, ProfileStatus};
use crate::rows::{fan_rpms, fan_rpms_text, ram_text, ram_usage, state_text};
use crate::sensor::{MemoryUsage, Rpm};
use crate::text::{append_chars, append_str, chars_of, join, join_chars, owned, string_of};

verus! {

pub struct CommandOutput {
    pub text: String,
    pub exit_code: i32,
}

/// The exit code of a single-capability command: `0` only for `Supported`.
pub open spec fn state_exit_code<T>(state: CapabilityState<T>) -> i32 {
    if state is Supported {
        0
    } else {
        1
    }
}

/// The word `diagnose` prints for a state.
pub open spec fn state_word<T>(state: CapabilityState<T>) -> Seq<char> {
    match state {
        CapabilityState::Supported(_) => "SUPPORTED"@,
        CapabilityState::Unsupported => "UNSUPPORTED"@,
        CapabilityState::Unknown => "UNKNOWN"@,
        CapabilityState::RequiresPrivilege => "REQUIRES_PRIVILEGE"@,
        CapabilityState::HardwareDependent(_) => "HARDWARE_DEPENDENT"@,
    }
}

/// How `{:?}` prints a string: quoted, with special characters escaped.
pub uninterp spec fn debug_text(s: Seq<char>) -> Seq<char>;

/// Printable ASCII other than `"` and `\`, which `{:?}` leaves as it is.
pub open spec fn plain_ascii(s: Seq<char>) -> bool {
    forall|i: int| 0 <= i < s.len() ==> ' ' <= #[trigger] s[i] <= '~' && s[i] != '"' && s[i] != '\\'
}

/// `format!("{:?}", s)`: the string's `Debug` form — in double quotes, with
/// special characters escaped; a string of plain printable ASCII comes back
/// just quoted.
#[verifier::external_body]
pub(crate) fn debug_quoted(s: &str) -> (r: String)
    ensures
        r@ == debug_text(s@),
        plain_ascii(s@) ==> r@ == "\""@ + s@ + "\""@,
{
    format!("{s:?}")
}

pub open spec fn names_text(names: Seq<String>) -> Seq<char> {
    join(names.map_values(|s: String| s@), ", "@)
}

/// `profile list`'s line.
pub open spec fn profile_list_text(state: CapabilityState<Vec<String>>) -> Seq<char> {
    "Profiles: "@ + state_text(state, |ns: Vec<String>| names_text(ns@))
}

/// `profile get`'s line.
pub open spec fn profile_get_text(state: CapabilityState<ProfileStatus>) -> Seq<char> {
    "Power profile: "@ + state_text(state, |s: ProfileStatus| s.name@)
}

/// `fans`' line.
pub open spec fn fans_text(state: CapabilityState<Vec<Rpm>>) -> Seq<char> {
    "Fan RPM: "@ + state_text(state, |v: Vec<Rpm>| fan_rpms_text(v@))
}

/// The refusal of a name not in the listing, given the name's quoted form.
pub open spec fn invalid_profile_text(quoted: Seq<char>, valid: Seq<String>) -> Seq<char> {
    "Invalid profile "@ + quoted + "; valid choices: "@ + names_text(valid)
}

/// The command line's refusal of a known-unsupported profile, given the
/// name's quoted form.
pub open spec fn known_unsupported_text(quoted: Seq<char>) -> Seq<char> {
    "Profile "@ + quoted
        + " is a known, permanent firmware limitation on this hardware; it was not written"@
}

pub fn invalid_profile_message(quoted: &str, valid: &Vec<String>) -> (r: String)
    ensures
        r@ == invalid_profile_text(quoted@, valid@),
{
    let mut v = chars_of("Invalid profile ");
    append_str(&mut v, quoted);
    append_str(&mut v, "; valid choices: ");
    let names = join_names(valid);
    append_chars(&mut v, chars_of(names.as_str()).as_slice());
    string_of(v.as_slice())
}

pub fn known_unsupported_message(quoted: &str) -> (r: String)
    ensures
        r@ == known_unsupported_text(quoted@),
{
    let mut v = chars_of("Profile ");
    append_str(&mut v, quoted);
    append_str(&mut v, " is a known, permanent firmware limitation on this hardware; it was not written");
    string_of(v.as_slice())
}

/// `profile set`'s message and exit code for the provider's answer.
pub open spec fn profile_set_output_of(name: Seq<char>, outcome: Result<(), ProfileError>) -> (
    Seq<char>,
    i32,
) {
    match outcome {
        Ok(()) => ("Power profile set to "@ + name, 0),
        Err(ProfileError::InvalidProfile { requested, valid }) => (
            invalid_profile_text(debug_text(requested@), valid@),
            2,
        ),
        Err(ProfileError::KnownUnsupportedProfile { requested }) => (
            known_unsupported_text(debug_text(requested@)),
            2,
        ),
        Err(ProfileError::BackendUnavailable) => ("power-profiles-daemon is not available"@, 3),
        Err(ProfileError::BackendDenied) => ("power-profiles-daemon denied the request"@, 3),
        Err(ProfileError::BackendFailed(message)) => (
            "power-profiles-daemon call failed: "@ + message@,
            3,
        ),
    }
}

/// Renders one `CapabilityState` as CLI text: `Supported` renders
/// `fmt(value)`; every other state its own explicit word, never a fabricated
/// value. The exit code is `0` for `Supported`, `1` otherwise.
pub fn describe<T>(state: &CapabilityState<T>, fmt: impl FnOnce(&T) -> String) -> (r: (String, i32))
    requires
        match *state {
            CapabilityState::Supported(v) => call_requires(fmt, (&v,)),
            CapabilityState::HardwareDependent(v) => call_requires(fmt, (&v,)),
            _ => true,
        },
    ensures
        r.1 == state_exit_code(*state),
        match *state {
            CapabilityState::Supported(v) => call_ensures(fmt, (&v,), r.0),
            CapabilityState::HardwareDependent(v) => exists|s: String|
                call_ensures(fmt, (&v,), s) && r.0@ == s@ + " (hardware-dependent)"@,
            CapabilityState::Unsupported => r.0@ == "unavailable"@,
            CapabilityState::Unknown => r.0@ == "unknown"@,
            CapabilityState::RequiresPrivilege => r.0@ == "requires elevated privilege"@,
        },
{
    match state {
        CapabilityState::Supported(v) => (fmt(v), 0),
        CapabilityState::Unsupported => (owned("unavailable"), 1),
        CapabilityState::Unknown => (owned("unknown"), 1),
        CapabilityState::RequiresPrivilege => (owned("requires elevated privilege"), 1),
        CapabilityState::HardwareDependent(v) => {
            let s = fmt(v);
            let mut text = chars_of(s.as_str());
            append_str(&mut text, " (hardware-dependent)");
            (string_of(text.as_slice()), 1)
        },
    }
}

/// The state word `diagnose` prints for a capability.
pub fn state_label<T>(state: &CapabilityState<T>) -> (r: &'static str)
    ensures
        r@ == state_word(*state),
{
    match state {
        CapabilityState::Supported(_) => "SUPPORTED",
        CapabilityState::Unsupported => "UNSUPPORTED",
        CapabilityState::Unknown => "UNKNOWN",
        CapabilityState::RequiresPrivilege => "REQUIRES_PRIVILEGE",
        CapabilityState::HardwareDependent(_) => "HARDWARE_DEPENDENT",
    }
}

pub fn format_ram(usage: &MemoryUsage) -> (r: String)
    ensures
        r@ == ram_text(*usage),
{
    ram_usage(usage)
}

pub fn format_fan_rpms(rpms: &[Rpm]) -> (r: String)
    ensures
        r@ == fan_rpms_text(rpms@),
{
    fan_rpms(rpms)
}

pub fn format_profile_status(status: &ProfileStatus) -> (r: String)
    ensures
        r@ == status.name@,
{
    status.name.clone()
}

/// `names` separated by `", "`.
pub fn join_names(names: &Vec<String>) -> (r: String)
    ensures
        r@ == names_text(names@),
{
    let mut parts: Vec<Vec<char>> = Vec::new();
    let mut i: usize = 0;
    while i < names.len()
        invariant
            i <= names.len(),
            parts@.len() == i,
            forall|k: int| 0 <= k < i ==> #[trigger] parts@[k]@ == names@[k]@,
        decreases names.len() - i,
    {
        parts.push(chars_of(names[i].as_str()));
        i = i + 1;
    }
    let sep = chars_of(", ");
    let joined = join_chars(parts.as_slice(), sep.as_slice());
    assert(crate::text::views(parts@) =~= names@.map_values(|s: String| s@));
    string_of(joined.as_slice())
}

/// `prefix` followed by the text of `described`.
fn prefixed(prefix: &str, described: String) -> (r: String)
    ensures
        r@ == prefix@ + described@,
{
    let mut v = chars_of(prefix);
    let d = chars_of(described.as_str());
    append_chars(&mut v, d.as_slice());
    string_of(v.as_slice())
}

/// Appends one `label: value` line for a multi-metric report — always
/// printed, whatever the capability state.
pub fn push_metric_line<T>(
    lines: &mut Vec<String>,
    label: &str,
    state: &CapabilityState<T>,
    fmt: impl FnOnce(&T) -> String,
)
    requires
        match *state {
            CapabilityState::Supported(v) => call_requires(fmt, (&v,)),
            CapabilityState::HardwareDependent(v) => call_requires(fmt, (&v,)),
            _ => true,
        },
    ensures
        final(lines)@.len() == old(lines)@.len() + 1,
        final(lines)@.take(old(lines)@.len() as int) == old(lines)@,
        exists|value: String|
            {
                &&& match *state {
                    CapabilityState::Supported(v) => call_ensures(fmt, (&v,), value),
                    CapabilityState::HardwareDependent(v) => exists|s: String|
                        call_ensures(fmt, (&v,), s) && value@ == s@ + " (hardware-dependent)"@,
                    _ => value@ == state_text(*state, |x: T| Seq::<char>::empty()),
                }
                &&& final(lines)@.last()@ == label@ + ": "@ + value@
            },
{
    let (value, _exit_code) = describe(state, fmt);
    let ghost v = value;
    let mut line = chars_of(label);
    append_str(&mut line, ": ");
    let vc = chars_of(value.as_str());
    append_chars(&mut line, vc.as_slice());
    let ghost before = lines@;
    lines.push(string_of(line.as_slice()));
    assert(lines@.take(before.len() as int) =~= before);
    assert(lines@.last()@ == label@ + ": "@ + v@);
}

/// `profile list`'s output for the provider's answer.
pub fn profile_list_output(state: &CapabilityState<Vec<String>>) -> (r: CommandOutput)
    ensures
        r.text@ == profile_list_text(*state),
        r.exit_code == state_exit_code(*state),
{
    let (value, exit_code) = describe(state, |names: &Vec<String>| -> (s: String)
        ensures
            s@ == names_text(names@),
        { join_names(names) });
    CommandOutput { text: prefixed("Profiles: ", value), exit_code }
}

/// `profile get`'s output for the provider's answer.
pub fn profile_get_output(state: &CapabilityState<ProfileStatus>) -> (r: CommandOutput)
    ensures
        r.text@ == profile_get_text(*state),
        r.exit_code == state_exit_code(*state),
{
    let (value, exit_code) = describe(state, |s: &ProfileStatus| -> (t: String)
        ensures
            t@ == s.name@,
        { format_profile_status(s) });
    CommandOutput { text: prefixed("Power profile: ", value), exit_code }
}

/// `fans`' output for the provider's answer.
pub fn fans_output(state: &CapabilityState<Vec<Rpm>>) -> (r: CommandOutput)
    ensures
        r.text@ == fans_text(*state),
        r.exit_code == state_exit_code(*state),
{
    let (value, exit_code) = describe(state, |rpms: &Vec<Rpm>| -> (s: String)
        ensures
            s@ == fan_rpms_text(rpms@),
        { format_fan_rpms(rpms.as_slice()) });
    CommandOutput { text: prefixed("Fan RPM: ", value), exit_code }
}

/// `profile set`'s output for the provider's answer to setting `name`.
pub fn profile_set_output(name: &str, outcome: Result<(), ProfileError>) -> (r: CommandOutput)
    ensures
        (r.text@, r.exit_code) == profile_set_output_of(name@, outcome),
{
    match outcome {
        Ok(()) => CommandOutput { text: prefixed("Power profile set to ", owned(name)), exit_code: 0 },
        Err(ProfileError::InvalidProfile { requested, valid }) => {
            let q = debug_quoted(requested.as_str());
            CommandOutput { text: invalid_profile_message(q.as_str(), &valid), exit_code: 2 }
        },
        Err(ProfileError::KnownUnsupportedProfile { requested }) => {
            let q = debug_quoted(requested.as_str());
            CommandOutput { text: known_unsupported_message(q.as_str()), exit_code: 2 }
        },
        Err(ProfileError::BackendUnavailable) => CommandOutput {
            text: owned("power-profiles-daemon is not available"),
            exit_code: 3,
        },
        Err(ProfileError::BackendDenied) => CommandOutput {
            text: owned("power-profiles-daemon denied the request"),
            exit_code: 3,
        },
        Err(ProfileError::BackendFailed(message)) => CommandOutput {
            text: prefixed("power-profiles-daemon call failed: ", message),
            exit_code: 3,
        },
    }
}

/// `profile list`: the provider's profile names, comma-separated.
pub fn run_profile_list(provider: &dyn PowerProfileProvider) -> (r: CommandOutput)
    ensures
        exists|state: CapabilityState<Vec<String>>|
            #[trigger] provider.names_result(state) && r.text@ == profile_list_text(state)
                && r.exit_code == state_exit_code(state),
{
    let state = provider.list_profiles();
    let ghost s = state;
    let r = profile_list_output(&state);
    assert(provider.names_result(s) && r.text@ == profile_list_text(s));
    r
}

/// `profile get`: the active profile's name.
pub fn run_profile_get(provider: &dyn PowerProfileProvider) -> (r: CommandOutput)
    ensures
        exists|state: CapabilityState<ProfileStatus>|
            #[trigger] provider.current_result(state) && r.text@ == profile_get_text(state)
                && r.exit_code == state_exit_code(state),
{
    let state = provider.current_profile();
    let ghost s = state;
    let r = profile_get_output(&state);
    assert(provider.current_result(s) && r.text@ == profile_get_text(s));
    r
}

/// `profile set <name>`: the provider validates `name` and writes it; the
/// output reports the provider's answer for `name`.
pub fn run_profile_set(provider: &dyn PowerProfileProvider, name: &str) -> (r: CommandOutput)
    ensures
        exists|outcome: Result<(), ProfileError>|
            #[trigger] provider.profile_set_result(name@, outcome) && (r.text@, r.exit_code)
                == profile_set_output_of(name@, outcome),
{
    let outcome = provider.set_profile(name);
    let ghost o = outcome;
    let r = profile_set_output(name, outcome);
    assert(provider.profile_set_result(name@, o) && (r.text@, r.exit_code) == profile_set_output_of(
        name@,
        o,
    ));
    r
}

/// One `diagnose` line: the label, the state word, and — for the two states
/// that carry a value — the described value in parentheses.
pub open spec fn diagnose_text<T>(label: Seq<char>, value: Seq<char>, state: CapabilityState<T>) -> Seq<
    char,
> {
    let head = label + ": "@ + state_word(state);
    if state is Supported || state is HardwareDependent {
        head + " ("@ + value + ")"@
    } else {
        head
    }
}

pub fn diagnose_line<T>(label: &str, value: &str, state: &CapabilityState<T>) -> (r: String)
    ensures
        r@ == diagnose_text(label@, value@, *state),
{
    let mut v = chars_of(label);
    append_str(&mut v, ": ");
    append_str(&mut v, state_label(state));
    match state {
        CapabilityState::Supported(_) | CapabilityState::HardwareDependent(_) => {
            append_str(&mut v, " (");
            append_str(&mut v, value);
            append_str(&mut v, ")");
        },
        _ => {},
    }
    string_of(v.as_slice())
}

/// The lines of a multi-line report, joined with `\n`.
pub fn join_lines(lines: &Vec<String>) -> (r: String)
    ensures
        r@ == join(lines@.map_values(|s: String| s@), "\n"@),
{
    let mut parts: Vec<Vec<char>> = Vec::new();
    let mut i: usize = 0;
    while i < lines.len()
        invariant
            i <= lines.len(),
            parts@.len() == i,
            forall|k: int| 0 <= k < i ==> #[trigger] parts@[k]@ == lines@[k]@,
        decreases lines.len() - i,
    {
        parts.push(chars_of(lines[i].as_str()));
        i = i + 1;
    }
    let sep = chars_of("\n");
    let joined = join_chars(parts.as_slice(), sep.as_slice());
    assert(crate::text::views(parts@) =~= lines@.map_values(|s: String| s@));
    string_of(joined.as_slice())
}

/// The title line of the `diagnose` report.
pub open spec fn diagnose_title() -> Seq<char> {
    "NitroControl diagnostic report"@
}

/// The `diagnose` report: its title line, then the metric lines (each with
/// its evidence line, where it has one).
pub fn diagnose_report(metric_lines: &Vec<String>) -> (r: String)
    ensures
        r@ == join(seq![diagnose_title()] + metric_lines@.map_values(|s: String| s@), "\n"@),
{
    let mut all: Vec<String> = Vec::new();
    all.push(owned("NitroControl diagnostic report"));
    let mut i: usize = 0;
    while i < metric_lines.len()
        invariant
            i <= metric_lines.len(),
            all@.map_values(|s: String| s@) == seq![diagnose_title()] + metric_lines@.take(
                i as int,
            ).map_values(|s: String| s@),
        decreases metric_lines.len() - i,
    {
        let ghost before = all@;
        all.push(owned(metric_lines[i].as_str()));
        assert(metric_lines@.take(i + 1).map_values(|s: String| s@) =~= metric_lines@.take(
            i as int,
        ).map_values(|s: String| s@).push(metric_lines@[i as int]@));
        assert(all@.map_values(|s: String| s@) =~= before.map_values(|s: String| s@).push(
            metric_lines@[i as int]@,
        ));
        i = i + 1;
    }
    assert(metric_lines@.take(metric_lines.len() as int) =~= metric_lines@);
    join_lines(&all)
}

/// Whether a rate read once must be read again after a short pause: a
/// rate needs two samples, so a first reading that is not `Supported` is
/// taken again, once; a `Supported` one is final.
pub fn needs_second_sample<T>(first: &CapabilityState<T>) -> (r: bool)
    ensures
        r == !(*first is Supported),
{
    match first {
        CapabilityState::Supported(_) => false,
        _ => true,
    }
}

} // verus!
