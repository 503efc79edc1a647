//! The decisions of the `power-profiles-daemon` D-Bus client: which bus
//! name to use, how a D-Bus error is classified, and how one entry of the
//! daemon's `Profiles` property becomes a `ProfileInfo`. The connection and
//! the calls themselves belong to the application.

use vstd::prelude::*;
use crate::evidence::opt_text;
use crate::power_profile::{BackendError, ProfileInfo, KNOWN_UNSUPPORTED_PROFILE};
use crate::text::{chars_of, contains_seq, contains_str, owned};

verus! {

/// The bus name current `power-profiles-daemon` versions register.
pub const PRIMARY_BUS_NAME: &'static str = "org.freedesktop.UPower.PowerProfiles";

/// The bus name older versions register.
pub const LEGACY_BUS_NAME: &'static str = "net.hadess.PowerProfiles";

pub const OBJECT_PATH: &'static str = "/org/freedesktop/UPower/PowerProfiles";

pub const INTERFACE: &'static str = "org.freedesktop.UPower.PowerProfiles";

/// The text of a D-Bus error that reports an authorization failure.
pub open spec fn denial_text(message: Seq<char>) -> bool {
    ||| contains_seq(message, "AccessDenied"@)
    ||| contains_seq(message, "AuthFailed"@)
    ||| contains_seq(message, "NotAuthorized"@)
    ||| contains_seq(message, "InteractiveAuthorizationRequired"@)
}

/// The text of a D-Bus error that reports a bus name with no owner.
pub open spec fn absence_text(message: Seq<char>) -> bool {
    contains_seq(message, "ServiceUnknown"@) || contains_seq(message, "NameHasNoOwner"@)
}

/// Classifies a D-Bus error by the text it prints: an authorization failure
/// is `Denied`, a name with no owner is `Unavailable`, anything else is
/// `Other` carrying the text.
pub fn classify_bus_error(message: &str) -> (r: BackendError)
    ensures
        denial_text(message@) ==> r == BackendError::Denied,
        !denial_text(message@) && absence_text(message@) ==> r == BackendError::Unavailable,
        !denial_text(message@) && !absence_text(message@) ==> (r matches BackendError::Other(m)
            && m@ == message@),
        (r is Denied) <==> (contains_seq(message@, "AccessDenied"@) || contains_seq(
            message@,
            "AuthFailed"@,
        ) || contains_seq(message@, "NotAuthorized"@) || contains_seq(
            message@,
            "InteractiveAuthorizationRequired"@,
        )),
        (r is Unavailable) <==> (!(r is Denied) && (contains_seq(message@, "ServiceUnknown"@)
            || contains_seq(message@, "NameHasNoOwner"@))),
        r matches BackendError::Other(m) ==> m@ == message@,
{
    let m = chars_of(message);
    if contains_str(m.as_slice(), "AccessDenied") || contains_str(m.as_slice(), "AuthFailed")
        || contains_str(m.as_slice(), "NotAuthorized") || contains_str(
        m.as_slice(),
        "InteractiveAuthorizationRequired",
    ) {
        BackendError::Denied
    } else if contains_str(m.as_slice(), "ServiceUnknown") || contains_str(
        m.as_slice(),
        "NameHasNoOwner",
    ) {
        BackendError::Unavailable
    } else {
        BackendError::Other(owned(message))
    }
}

/// One entry of the `Profiles` property, from its `Profile` and
/// `PlatformDriver` string values (each absent when missing or not a
/// string). A placeholder-backed entry names the `placeholder` driver; the
/// one known-unsupported entry is `performance` backed by the real ACPI
/// `platform_profile` driver.
pub open spec fn profile_entry_of(profile: Option<Seq<char>>, platform_driver: Option<Seq<char>>) -> Option<
    (Seq<char>, bool, bool),
> {
    match profile {
        None => None,
        Some(name) => Some(
            (
                name,
                platform_driver == Some("placeholder"@),
                name == KNOWN_UNSUPPORTED_PROFILE@ && platform_driver == Some("platform_profile"@),
            ),
        ),
    }
}

fn is_some_eq(value: &Option<String>, lit: &str) -> (r: bool)
    ensures
        r == (value matches Some(v) && v@ == lit@),
{
    match value {
        Some(v) => crate::power_profile::str_eq(v.as_str(), lit),
        None => false,
    }
}

/// Builds the `ProfileInfo` of one `Profiles` entry; an entry without a
/// `Profile` name is an error.
pub fn profile_info_from_fields(profile: Option<String>, platform_driver: Option<String>) -> (r:
    Result<ProfileInfo, BackendError>)
    ensures
        match profile_entry_of(
            match profile {
                Some(p) => Some(p@),
                None => None,
            },
            match platform_driver {
                Some(d) => Some(d@),
                None => None,
            },
        ) {
            Some((name, placeholder, known_unsupported)) => r matches Ok(info) && info.name@ == name
                && info.is_placeholder == placeholder && info.known_unsupported == known_unsupported,
            None => r matches Err(BackendError::Other(m)) && m@
                == "Profiles entry missing 'Profile' name"@,
        },
        r is Ok <==> profile is Some,
        r matches Ok(info) ==> (profile matches Some(p) && info.name@ == p@),
        r matches Ok(info) ==> (info.is_placeholder <==> opt_text(platform_driver) == Some(
            "placeholder"@,
        )),
        r matches Ok(info) ==> (info.known_unsupported <==> (info.name@ == "performance"@
            && opt_text(platform_driver) == Some("platform_profile"@))),
{
    let name = match profile {
        Some(n) => n,
        None => return Err(BackendError::Other(owned("Profiles entry missing 'Profile' name"))),
    };
    let is_placeholder = is_some_eq(&platform_driver, "placeholder");
    let known_unsupported = crate::power_profile::str_eq(name.as_str(), KNOWN_UNSUPPORTED_PROFILE)
        && is_some_eq(&platform_driver, "platform_profile");
    Ok(ProfileInfo { name, is_placeholder, known_unsupported })
}

/// What to do after probing one candidate bus name.
#[derive(Debug, Clone, PartialEq)]
pub enum ProbeDecision {
    /// The daemon answered on this name: use it.
    Connect,
    /// Try the next candidate, remembering this error (the first error that
    /// was something other than "no such name").
    Next(Option<BackendError>),
}

/// A probe that answered connects; a name with no owner moves on with what
/// was remembered; any other failure moves on remembering the first such.
pub open spec fn probe_decision_of(
    remembered: Option<BackendError>,
    probe: Result<(), BackendError>,
) -> ProbeDecision {
    match probe {
        Ok(()) => ProbeDecision::Connect,
        Err(BackendError::Unavailable) => ProbeDecision::Next(remembered),
        Err(e) => ProbeDecision::Next(
            if remembered is Some {
                remembered
            } else {
                Some(e)
            },
        ),
    }
}

pub fn after_probe(remembered: Option<BackendError>, probe: Result<(), BackendError>) -> (r:
    ProbeDecision)
    ensures
        r == probe_decision_of(remembered, probe),
{
    match probe {
        Ok(()) => ProbeDecision::Connect,
        Err(BackendError::Unavailable) => ProbeDecision::Next(remembered),
        Err(e) => ProbeDecision::Next(
            match remembered {
                Some(x) => Some(x),
                None => Some(e),
            },
        ),
    }
}

/// When no candidate answered: the remembered error, so a real denial or
/// protocol failure is not reported as a missing service; `Unavailable`
/// when every candidate simply had no owner.
pub fn connect_failure(remembered: Option<BackendError>) -> (r: BackendError)
    ensures
        r == match remembered {
            Some(e) => e,
            None => BackendError::Unavailable,
        },
{
    match remembered {
        Some(e) => e,
        None => BackendError::Unavailable,
    }
}

} // verus!
