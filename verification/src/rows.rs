//! Formatting for dashboard rows: every `CapabilityState` becomes explicit
//! text plus a flag saying whether it is a real reading, never a fabricated
//! number.

use vstd::prelude::*;
use crate::capability::CapabilityState;
use crate::power_profile::ProfileStatus;
use crate::sensor::{MemoryUsage, Rpm};
use crate::text::{
    append_chars, append_str, decimal, decimal_chars, digit_char, digit_to_char, join,
    join_chars, owned, string_of,
};

verus! {

/// What one dashboard row shows: the subtitle text, and whether it's a real
/// value (`true`) or an explicit "unavailable"/"unknown"/etc. state.
#[derive(Debug, Clone, PartialEq)]
pub struct RowContent {
    pub subtitle: String,
    pub available: bool,
}

/// The text shown for `state`, given how a carried value is formatted.
pub open spec fn state_text<T>(state: CapabilityState<T>, fmt: spec_fn(T) -> Seq<char>) -> Seq<
    char,
> {
    match state {
        CapabilityState::Supported(v) => fmt(v),
        CapabilityState::Unsupported => "unavailable"@,
        CapabilityState::Unknown => "unknown"@,
        CapabilityState::RequiresPrivilege => "requires elevated privilege"@,
        CapabilityState::HardwareDependent(v) => fmt(v) + " (hardware-dependent)"@,
    }
}

/// `n / d` rounded to the nearest integer, ties to the even neighbour — how
/// a float is rounded when printed with a fixed number of decimals.
pub open spec fn round_half_even(n: nat, d: nat) -> nat
    recommends
        d > 0,
{
    let q = n / d;
    let rem = n % d;
    if 2 * rem > d {
        q + 1
    } else if 2 * rem < d {
        q
    } else if q % 2 == 0 {
        q
    } else {
        q + 1
    }
}

pub open spec fn gib() -> nat {
    1073741824
}

/// A byte count in GiB with one decimal, e.g. `8.0`.
pub open spec fn gib_text(bytes: nat) -> Seq<char> {
    let tenths = round_half_even(bytes * 10, gib());
    decimal(tenths / 10).push('.').push(digit_char(tenths % 10))
}

/// `"<used> GiB / <total> GiB"`.
pub open spec fn ram_text(usage: MemoryUsage) -> Seq<char> {
    gib_text(usage.used_bytes as nat) + " GiB / "@ + gib_text(usage.total_bytes as nat) + " GiB"@
}

pub open spec fn rpm_text(r: Rpm) -> Seq<char> {
    decimal(r.0 as nat) + " RPM"@
}

/// Every fan reading as `"<n> RPM"`, separated by `", "`.
pub open spec fn fan_rpms_text(rpms: Seq<Rpm>) -> Seq<char> {
    join(rpms.map_values(|r: Rpm| rpm_text(r)), ", "@)
}

pub open spec fn on_off_text(enabled: bool) -> Seq<char> {
    if enabled {
        "on"@
    } else {
        "off"@
    }
}

/// `row` shows `state`: formatted text, and `available` only for `Supported`.
pub open spec fn row_of<T>(state: CapabilityState<T>, fmt: spec_fn(T) -> Seq<char>, row: RowContent) -> bool {
    &&& row.subtitle@ == state_text(state, fmt)
    &&& row.available == (state is Supported)
}

/// Renders one `CapabilityState` as a row: `Supported` shows `fmt(value)`
/// and is available; `HardwareDependent` shows the value with a caveat but is
/// not; the other states show their own word.
pub fn describe<T>(state: &CapabilityState<T>, fmt: impl FnOnce(&T) -> String) -> (r: RowContent)
    requires
        match *state {
            CapabilityState::Supported(v) => call_requires(fmt, (&v,)),
            CapabilityState::HardwareDependent(v) => call_requires(fmt, (&v,)),
            _ => true,
        },
    ensures
        r.available == (*state is Supported),
        match *state {
            CapabilityState::Supported(v) => call_ensures(fmt, (&v,), r.subtitle),
            CapabilityState::HardwareDependent(v) => exists|s: String|
                call_ensures(fmt, (&v,), s) && r.subtitle@ == s@ + " (hardware-dependent)"@,
            CapabilityState::Unsupported => r.subtitle@ == "unavailable"@,
            CapabilityState::Unknown => r.subtitle@ == "unknown"@,
            CapabilityState::RequiresPrivilege => r.subtitle@ == "requires elevated privilege"@,
        },
{
    match state {
        CapabilityState::Supported(v) => RowContent { subtitle: fmt(v), available: true },
        CapabilityState::Unsupported => RowContent {
            subtitle: owned("unavailable"),
            available: false,
        },
        CapabilityState::Unknown => RowContent { subtitle: owned("unknown"), available: false },
        CapabilityState::RequiresPrivilege => RowContent {
            subtitle: owned("requires elevated privilege"),
            available: false,
        },
        CapabilityState::HardwareDependent(v) => {
            let s = fmt(v);
            let mut text = crate::text::chars_of(s.as_str());
            append_str(&mut text, " (hardware-dependent)");
            RowContent { subtitle: string_of(text.as_slice()), available: false }
        },
    }
}

/// `bytes` in GiB with one decimal.
pub fn gib_chars(bytes: u64) -> (r: Vec<char>)
    ensures
        r@ == gib_text(bytes as nat),
{
    let n: u128 = bytes as u128 * 10;
    let d: u128 = 1073741824;
    let q = n / d;
    let rem = n % d;
    let tenths: u128 = if 2 * rem > d {
        q + 1
    } else if 2 * rem < d {
        q
    } else if q % 2 == 0 {
        q
    } else {
        q + 1
    };
    assert(tenths == round_half_even(bytes as nat * 10, gib()));
    assert(tenths <= u64::MAX) by (nonlinear_arith)
        requires
            tenths <= q + 1,
            q == n / d,
            n == bytes * 10,
            d == 1073741824,
    ;
    let mut v = decimal_chars((tenths / 10) as u64);
    v.push('.');
    v.push(digit_to_char((tenths % 10) as u8));
    v
}

/// Memory usage as `"<used> GiB / <total> GiB"`, one decimal each.
pub fn ram_usage(usage: &MemoryUsage) -> (r: String)
    ensures
        r@ == ram_text(*usage),
{
    let mut v = gib_chars(usage.used_bytes);
    append_str(&mut v, " GiB / ");
    let t = gib_chars(usage.total_bytes);
    append_chars(&mut v, t.as_slice());
    append_str(&mut v, " GiB");
    string_of(v.as_slice())
}

/// Fan readings as `"<n> RPM, <m> RPM"`.
pub fn fan_rpms(rpms: &[Rpm]) -> (r: String)
    ensures
        r@ == fan_rpms_text(rpms@),
{
    let mut parts: Vec<Vec<char>> = Vec::new();
    let mut i: usize = 0;
    while i < rpms.len()
        invariant
            i <= rpms.len(),
            parts@.len() == i,
            forall|k: int| 0 <= k < i ==> #[trigger] parts@[k]@ == rpm_text(rpms@[k]),
        decreases rpms.len() - i,
    {
        let mut p = decimal_chars(rpms[i].0 as u64);
        append_str(&mut p, " RPM");
        parts.push(p);
        i = i + 1;
    }
    let sep = crate::text::chars_of(", ");
    let joined = join_chars(parts.as_slice(), sep.as_slice());
    assert(crate::text::views(parts@) =~= rpms@.map_values(|r: Rpm| rpm_text(r)));
    string_of(joined.as_slice())
}

/// The active profile's name.
pub fn profile_status(status: &ProfileStatus) -> (r: String)
    ensures
        r@ == status.name@,
{
    status.name.clone()
}

pub fn battery_limit(enabled: &bool) -> (r: String)
    ensures
        r@ == on_off_text(*enabled),
{
    if *enabled {
        owned("on")
    } else {
        owned("off")
    }
}

pub fn ram_usage_row(state: &CapabilityState<MemoryUsage>) -> (r: RowContent)
    ensures
        row_of(*state, |u: MemoryUsage| ram_text(u), r),
{
    describe(state, |u: &MemoryUsage| -> (s: String)
        ensures
            s@ == ram_text(*u),
        { ram_usage(u) })
}

pub fn fan_rpm_row(state: &CapabilityState<Vec<Rpm>>) -> (r: RowContent)
    ensures
        row_of(*state, |v: Vec<Rpm>| fan_rpms_text(v@), r),
{
    describe(state, |rpms: &Vec<Rpm>| -> (s: String)
        ensures
            s@ == fan_rpms_text(rpms@),
        { fan_rpms(rpms.as_slice()) })
}

pub fn profile_status_row(state: &CapabilityState<ProfileStatus>) -> (r: RowContent)
    ensures
        row_of(*state, |s: ProfileStatus| s.name@, r),
{
    describe(state, |s: &ProfileStatus| -> (t: String)
        ensures
            t@ == s.name@,
        { profile_status(s) })
}

pub fn battery_limit_row(state: &CapabilityState<bool>) -> (r: RowContent)
    ensures
        row_of(*state, |b: bool| on_off_text(b), r),
{
    describe(state, |b: &bool| -> (t: String)
        ensures
            t@ == on_off_text(*b),
        { battery_limit(b) })
}

} // verus!
