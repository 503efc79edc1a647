//! What the dashboard shows besides the sensor rows: the profile pickers'
//! options, the battery-limit switch, fan cards, profile card titles and
//! the messages of a failed write.

use vstd::prelude::*;
use crate::battery_limit::BatteryLimitError;
use crate::capability::CapabilityState;
use crate::commands::{debug_quoted, debug_text, invalid_profile_message, invalid_profile_text};
use crate::power_profile::{str_eq, PowerProfileProvider, ProfileError, ProfileInfo, ProfileStatus};
use crate::sensor::Rpm;
use crate::text::{append_str, chars_of, owned, string_of};

verus! {

/// Whether a state is worth showing a control for: anything but
/// `Unsupported` or `Unknown`.
pub open spec fn shown<T>(state: CapabilityState<T>) -> bool {
    !(state is Unsupported || state is Unknown)
}

pub fn is_available<T>(state: &CapabilityState<T>) -> (r: bool)
    ensures
        r == shown(*state),
{
    match state {
        CapabilityState::Unsupported => false,
        CapabilityState::Unknown => false,
        _ => true,
    }
}

/// The switch position for a battery flag: the value of a `Supported` or
/// `HardwareDependent` state, none otherwise.
pub fn battery_limit_value(state: &CapabilityState<bool>) -> (r: Option<bool>)
    ensures
        r == state.carried(),
{
    match state {
        CapabilityState::Supported(v) => Some(*v),
        CapabilityState::HardwareDependent(v) => Some(*v),
        _ => None,
    }
}

/// The raw fan speeds, in the order reported, for a state that carries
/// them; none otherwise.
pub fn fan_rpm_values(state: &CapabilityState<Vec<Rpm>>) -> (r: Option<Vec<u32>>)
    ensures
        match state.carried() {
            Some(rpms) => r matches Some(v) && v@ == rpms@.map_values(|x: Rpm| x.0),
            None => r is None,
        },
{
    let rpms = match state {
        CapabilityState::Supported(rpms) => rpms,
        CapabilityState::HardwareDependent(rpms) => rpms,
        _ => return None,
    };
    let mut out: Vec<u32> = Vec::new();
    let mut i: usize = 0;
    while i < rpms.len()
        invariant
            i <= rpms.len(),
            out@ == rpms@.take(i as int).map_values(|x: Rpm| x.0),
        decreases rpms.len() - i,
    {
        out.push(rpms[i].0);
        assert(rpms@.take(i + 1).map_values(|x: Rpm| x.0) =~= rpms@.take(i as int).map_values(
            |x: Rpm| x.0,
        ).push(rpms@[i as int].0));
        i = i + 1;
    }
    assert(rpms@.take(rpms.len() as int) =~= rpms@);
    Some(out)
}

/// A picker's content from a provider's answers: the listed entries and the
/// current profile's name, when the list is `Supported` and the current
/// profile is `Supported` or `HardwareDependent`.
pub open spec fn options_of<L>(
    listing: CapabilityState<L>,
    current: CapabilityState<ProfileStatus>,
) -> Option<(L, String)> {
    match (listing, current.carried()) {
        (CapabilityState::Supported(l), Some(status)) => Some((l, status.name)),
        _ => None,
    }
}

/// A picker's content from the provider's two answers (see `options_of`).
pub fn options_from<L>(listing: CapabilityState<L>, current: CapabilityState<ProfileStatus>) -> (r:
    Option<(L, String)>)
    ensures
        r == options_of(listing, current),
{
    match listing {
        CapabilityState::Supported(l) => match current {
            CapabilityState::Supported(status) => Some((l, status.name)),
            CapabilityState::HardwareDependent(status) => Some((l, status.name)),
            _ => None,
        },
        _ => None,
    }
}

/// The secondary picker's options: profile names and the current one. The
/// current profile is asked for only when the names are `Supported`.
pub fn profile_options(provider: &dyn PowerProfileProvider) -> (r: Option<(Vec<String>, String)>)
    ensures
        exists|listing: CapabilityState<Vec<String>>, current: CapabilityState<ProfileStatus>|
            #[trigger] options_of(listing, current) == r && provider.names_result(listing) && (
            listing is Supported ==> provider.current_result(current)),
{
    let listing = provider.list_profiles();
    let ghost seen = listing;
    let names = match listing {
        CapabilityState::Supported(names) => names,
        _ => {
            assert(options_of(seen, CapabilityState::<ProfileStatus>::Unknown) is None);
            return None;
        },
    };
    let current = provider.current_profile();
    let ghost seen_current = current;
    let r = options_from(CapabilityState::Supported(names), current);
    assert(options_of(seen, seen_current) == r);
    r
}

/// The main picker's options: every profile with its detail, and the
/// current one's name. The current profile is asked for only when the
/// details are `Supported`.
pub fn profile_options_detailed(provider: &dyn PowerProfileProvider) -> (r: Option<
    (Vec<ProfileInfo>, String),
>)
    ensures
        exists|listing: CapabilityState<Vec<ProfileInfo>>, current: CapabilityState<ProfileStatus>|
            #[trigger] options_of(listing, current) == r && provider.details_result(listing) && (
            listing is Supported ==> provider.current_result(current)),
{
    let listing = provider.list_profile_details();
    let ghost seen = listing;
    let details = match listing {
        CapabilityState::Supported(details) => details,
        _ => {
            assert(options_of(seen, CapabilityState::<ProfileStatus>::Unknown) is None);
            return None;
        },
    };
    let current = provider.current_profile();
    let ghost seen_current = current;
    let r = options_from(CapabilityState::Supported(details), current);
    assert(options_of(seen, seen_current) == r);
    r
}

/// A profile card's title: hyphens become spaces and a lower-case ASCII
/// first letter is capitalized (`power-saver` is `Power saver`).
pub open spec fn display_name(name: Seq<char>) -> Seq<char> {
    let spaced = name.map_values(|c: char| if c == '-' { ' ' } else { c });
    if spaced.len() > 0 && 'a' <= spaced[0] <= 'z' {
        spaced.update(0, ((spaced[0] as u32 - 32) as u8) as char)
    } else {
        spaced
    }
}

pub fn profile_display_name(name: &str) -> (r: String)
    ensures
        r@ == display_name(name@),
{
    let chars = chars_of(name);
    let mut out: Vec<char> = Vec::new();
    let mut i: usize = 0;
    while i < chars.len()
        invariant
            i <= chars.len(),
            out@ == chars@.take(i as int).map_values(|c: char| if c == '-' { ' ' } else { c }),
        decreases chars.len() - i,
    {
        let c = chars[i];
        out.push(if c == '-' { ' ' } else { c });
        assert(chars@.take(i + 1).map_values(|c: char| if c == '-' { ' ' } else { c })
            =~= chars@.take(i as int).map_values(|c: char| if c == '-' { ' ' } else { c }).push(
            if c == '-' { ' ' } else { c },
        ));
        i = i + 1;
    }
    assert(chars@.take(chars.len() as int) =~= chars@);
    if out.len() > 0 && 'a' <= out[0] && out[0] <= 'z' {
        let code: u32 = out[0] as u32;
        let upper: u8 = (code - 32) as u8;
        out.set(0, upper as char);
    }
    string_of(out.as_slice())
}

/// The one-line description under a profile card, for the three profile
/// names this hardware reports; no guess for any other name.
pub open spec fn subtitle(name: Seq<char>) -> Seq<char> {
    if name == "power-saver"@ {
        "Quiet, longest runtime"@
    } else if name == "balanced"@ {
        "Default for daily use"@
    } else if name == "performance"@ {
        "Full clocks, loud fans"@
    } else {
        ""@
    }
}

pub fn profile_subtitle(name: &str) -> (r: &'static str)
    ensures
        r@ == subtitle(name@),
{
    let chars = chars_of(name);
    if crate::text::chars_eq_str(chars.as_slice(), "power-saver") {
        "Quiet, longest runtime"
    } else if crate::text::chars_eq_str(chars.as_slice(), "balanced") {
        "Default for daily use"
    } else if crate::text::chars_eq_str(chars.as_slice(), "performance") {
        "Full clocks, loud fans"
    } else {
        ""
    }
}

/// The text under a profile card: its description, and for a profile known
/// to be unsupported by the firmware, a note saying so (after ` -- ` when
/// there is a description).
pub open spec fn card_subtitle(name: Seq<char>, known_unsupported: bool) -> Seq<char> {
    let base = subtitle(name);
    if !known_unsupported {
        base
    } else if base.len() == 0 {
        "Not supported by this hardware's firmware"@
    } else {
        base + " -- "@ + "Not supported by this hardware's firmware"@
    }
}

pub fn profile_card_subtitle(name: &str, known_unsupported: bool) -> (r: String)
    ensures
        r@ == card_subtitle(name@, known_unsupported),
{
    let mut v = chars_of(profile_subtitle(name));
    if known_unsupported {
        if v.len() > 0 {
            append_str(&mut v, " -- ");
        }
        append_str(&mut v, "Not supported by this hardware's firmware");
    }
    string_of(v.as_slice())
}

/// The dashboard's note on a known-unsupported profile, given the name's
/// quoted form.
pub open spec fn firmware_limit_text(quoted: Seq<char>) -> Seq<char> {
    quoted
        + " is a known, permanent firmware/EC limitation on this hardware -- not a NitroControl bug. See docs/hardware.md's predator_v4 experiment for details."@
}

pub fn firmware_limit_message(quoted: &str) -> (r: String)
    ensures
        r@ == firmware_limit_text(quoted@),
{
    let mut v = chars_of(quoted);
    append_str(
        &mut v,
        " is a known, permanent firmware/EC limitation on this hardware -- not a NitroControl bug. See docs/hardware.md's predator_v4 experiment for details.",
    );
    string_of(v.as_slice())
}

/// The message shown for a refused or failed profile write.
pub open spec fn profile_error_text(e: ProfileError) -> Seq<char> {
    match e {
        ProfileError::InvalidProfile { requested, valid } => invalid_profile_text(
            debug_text(requested@),
            valid@,
        ),
        ProfileError::KnownUnsupportedProfile { requested } => firmware_limit_text(
            debug_text(requested@),
        ),
        ProfileError::BackendUnavailable => "power-profiles-daemon is not available"@,
        ProfileError::BackendDenied => "Denied -- see docs/optional-setup.md for the udev-rule relax"@,
        ProfileError::BackendFailed(msg) => msg@,
    }
}

pub fn profile_error_message(e: &ProfileError) -> (r: String)
    ensures
        r@ == profile_error_text(*e),
{
    match e {
        ProfileError::InvalidProfile { requested, valid } => {
            let q = debug_quoted(requested.as_str());
            invalid_profile_message(q.as_str(), valid)
        },
        ProfileError::KnownUnsupportedProfile { requested } => {
            let q = debug_quoted(requested.as_str());
            firmware_limit_message(q.as_str())
        },
        ProfileError::BackendUnavailable => owned("power-profiles-daemon is not available"),
        ProfileError::BackendDenied => owned(
            "Denied -- see docs/optional-setup.md for the udev-rule relax",
        ),
        ProfileError::BackendFailed(msg) => owned(msg.as_str()),
    }
}

/// The message shown for a failed battery-limit write.
pub open spec fn battery_limit_error_text(e: BatteryLimitError) -> Seq<char> {
    match e {
        BatteryLimitError::Unavailable => "Driver not loaded -- see docs/optional-setup.md"@,
        BatteryLimitError::Denied => "Denied -- needs root or a udev rule, see docs/optional-setup.md"@,
        BatteryLimitError::Failed(msg) => msg@,
    }
}

pub fn battery_limit_error_message(e: &BatteryLimitError) -> (r: String)
    ensures
        r@ == battery_limit_error_text(*e),
{
    match e {
        BatteryLimitError::Unavailable => owned("Driver not loaded -- see docs/optional-setup.md"),
        BatteryLimitError::Denied => owned(
            "Denied -- needs root or a udev rule, see docs/optional-setup.md",
        ),
        BatteryLimitError::Failed(msg) => owned(msg.as_str()),
    }
}

/// How many fan cards a snapshot's fan speeds fill: the first when there is
/// at least one speed, the second when there are two or more.
pub fn fan_cards_shown(values: &Option<Vec<u32>>) -> (r: (bool, bool))
    ensures
        r == match values {
            Some(v) => (v.len() > 0, v.len() > 1),
            None => (false, false),
        },
{
    match values {
        Some(v) => (v.len() > 0, v.len() > 1),
        None => (false, false),
    }
}

/// The shape of a row of profile pills: each pill's name and whether it is
/// grayed out as known to be unsupported.
pub open spec fn pill_shape(pills: Seq<(String, bool)>) -> Seq<(Seq<char>, bool)> {
    pills.map_values(|p: (String, bool)| (p.0@, p.1))
}

/// The shape a listing asks for (see `pill_shape`).
pub open spec fn wanted_pill_shape(infos: Seq<ProfileInfo>) -> Seq<(Seq<char>, bool)> {
    infos.map_values(|i: ProfileInfo| (i.name@, i.known_unsupported))
}

/// Whether the pills must be rebuilt for a listing: their shape differs
/// from the one it asks for.
pub fn pills_need_rebuild(pills: &Vec<(String, bool)>, infos: &Vec<ProfileInfo>) -> (r: bool)
    ensures
        r == (pill_shape(pills@) != wanted_pill_shape(infos@)),
{
    if pills.len() != infos.len() {
        assert(pill_shape(pills@).len() != wanted_pill_shape(infos@).len());
        return true;
    }
    let mut i: usize = 0;
    while i < pills.len()
        invariant
            i <= pills.len(),
            pills.len() == infos.len(),
            forall|k: int| 0 <= k < i ==> #[trigger] pill_shape(pills@)[k] == wanted_pill_shape(infos@)[k],
        decreases pills.len() - i,
    {
        if !str_eq(pills[i].0.as_str(), infos[i].name.as_str()) || pills[i].1 != infos[i].known_unsupported {
            assert(pill_shape(pills@)[i as int] != wanted_pill_shape(infos@)[i as int]);
            return true;
        }
        i = i + 1;
    }
    assert(pill_shape(pills@) =~= wanted_pill_shape(infos@));
    false
}

/// Which pills are pressed for the current profile: each one named `current`.
pub fn pills_pressed(pills: &Vec<(String, bool)>, current: &str) -> (r: Vec<bool>)
    ensures
        r@ == pills@.map_values(|p: (String, bool)| p.0@ == current@),
{
    let mut out: Vec<bool> = Vec::new();
    let mut i: usize = 0;
    while i < pills.len()
        invariant
            i <= pills.len(),
            out@ == pills@.take(i as int).map_values(|p: (String, bool)| p.0@ == current@),
        decreases pills.len() - i,
    {
        out.push(str_eq(pills[i].0.as_str(), current));
        assert(pills@.take(i + 1).map_values(|p: (String, bool)| p.0@ == current@) =~= pills@.take(
            i as int,
        ).map_values(|p: (String, bool)| p.0@ == current@).push(pills@[i as int].0@ == current@));
        i = i + 1;
    }
    assert(pills@.take(pills.len() as int) =~= pills@);
    out
}

/// The first position of `name` in `names`.
pub open spec fn first_position(names: Seq<Seq<char>>, name: Seq<char>) -> Option<int>
    decreases names.len(),
{
    if names.len() == 0 {
        None
    } else if names.last() == name && first_position(names.drop_last(), name) is None {
        Some(names.len() - 1)
    } else {
        first_position(names.drop_last(), name)
    }
}

/// The entry a profile drop-down selects: the first one named `current`,
/// none when no entry is.
pub fn selected_entry(names: &Vec<String>, current: &str) -> (r: Option<usize>)
    ensures
        match first_position(names@.map_values(|s: String| s@), current@) {
            Some(k) => r == Some(k as usize),
            None => r is None,
        },
{
    let ghost all = names@.map_values(|s: String| s@);
    let mut i: usize = 0;
    while i < names.len()
        invariant
            i <= names.len(),
            all == names@.map_values(|s: String| s@),
            first_position(all.take(i as int), current@) is None,
        decreases names.len() - i,
    {
        assert(all.take(i + 1).drop_last() =~= all.take(i as int));
        if str_eq(names[i].as_str(), current) {
            proof {
                lemma_first_position_prefix(all, current@, i + 1);
            }
            return Some(i);
        }
        i = i + 1;
    }
    assert(all.take(names.len() as int) =~= all);
    None
}

/// Where `name` first occurs in a prefix that contains it, it first occurs
/// in the whole.
proof fn lemma_first_position_prefix(all: Seq<Seq<char>>, name: Seq<char>, n: int)
    requires
        0 <= n <= all.len(),
        first_position(all.take(n), name) is Some,
    ensures
        first_position(all, name) == first_position(all.take(n), name),
    decreases all.len() - n,
{
    if n < all.len() {
        assert(all.take(n + 1).drop_last() =~= all.take(n));
        assert(first_position(all.take(n + 1), name) == first_position(all.take(n), name));
        lemma_first_position_prefix(all, name, n + 1);
    } else {
        assert(all.take(n) =~= all);
    }
}

/// Whether a profile drop-down's entries must be replaced: the names differ
/// from the ones it shows.
pub fn entries_changed(shown: &Vec<String>, names: &Vec<String>) -> (r: bool)
    ensures
        r == (shown@.map_values(|s: String| s@) != names@.map_values(|s: String| s@)),
{
    if shown.len() != names.len() {
        assert(shown@.map_values(|s: String| s@).len() != names@.map_values(|s: String| s@).len());
        return true;
    }
    let mut i: usize = 0;
    while i < shown.len()
        invariant
            i <= shown.len(),
            shown.len() == names.len(),
            forall|k: int| 0 <= k < i ==> #[trigger] shown@[k]@ == names@[k]@,
        decreases shown.len() - i,
    {
        if !str_eq(shown[i].as_str(), names[i].as_str()) {
            assert(shown@.map_values(|s: String| s@)[i as int] != names@.map_values(|s: String| s@)[i as int]);
            return true;
        }
        i = i + 1;
    }
    assert(shown@.map_values(|s: String| s@) =~= names@.map_values(|s: String| s@));
    false
}

} // verus!
