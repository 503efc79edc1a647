//! Power-profile control. `PowerProfilesBackend` is the IO seam (D-Bus to
//! `power-profiles-daemon`, or the ACPI `platform_profile` sysfs node);
//! `PowerProfilesDaemon` holds the validation and state-mapping logic on top
//! of any backend.

use vstd::prelude::*;
use std::sync::Arc;
use crate::capability::CapabilityState;
use crate::sysfs::{IoError, SysfsReader};
use crate::text::{
    chars_eq, chars_eq_str, chars_of, string_of, split_words, trim, trim_chars, views, words,
};

verus! {

/// One entry of a backend's profile list: a name and, for a profile backed
/// by `power-profiles-daemon`'s placeholder driver, `is_placeholder`.
#[derive(Debug, Clone, PartialEq)]
pub struct ProfileInfo {
    pub name: String,
    pub is_placeholder: bool,
    /// `true` when this exact name is known in advance to fail if written on
    /// hardware backed by a real ACPI `platform_profile` driver — a documented
    /// permanent firmware limitation, not a transient error. A placeholder
    /// profile *succeeds* as a no-op; this one *fails* outright.
    pub known_unsupported: bool,
}

/// The one ACPI `platform_profile` value the embedded controller firmware of
/// this hardware family rejects with an I/O error.
pub const KNOWN_UNSUPPORTED_PROFILE: &'static str = "performance";

#[derive(Debug, Clone, PartialEq)]
pub enum BackendError {
    /// The service isn't running, or the interface doesn't exist.
    Unavailable,
    /// The call was rejected for lack of authorization.
    Denied,
    /// Any other failure; the message names the underlying error.
    Other(String),
}

/// The IO seam: lists profiles, reads the active one, writes a new one.
///
/// Each call is accounted for by a relation on the backend:
/// `profiles_result(r)` holds of a listing that answered `r`,
/// `active_result(r)` of a read of the active profile, and
/// `set_result(name, r)` of a write of `name`. An implementation may define
/// them to describe itself; by default they hold of any answer. Code written
/// for every backend can establish them only by making the call.
pub trait PowerProfilesBackend: Send + Sync {
    open spec fn profiles_result(&self, r: Result<Vec<ProfileInfo>, BackendError>) -> bool {
        true
    }

    open spec fn active_result(&self, r: Result<String, BackendError>) -> bool {
        true
    }

    open spec fn set_result(&self, name: Seq<char>, r: Result<(), BackendError>) -> bool {
        true
    }

    fn profiles(&self) -> (r: Result<Vec<ProfileInfo>, BackendError>)
        ensures
            self.profiles_result(r),
    ;

    fn active_profile_name(&self) -> (r: Result<String, BackendError>)
        ensures
            self.active_result(r),
    ;

    /// Writes `name` as it is; validating it against the listing is the
    /// caller's part (see `PowerProfilesDaemon::set_profile`).
    fn set_active_profile(&self, name: &str) -> (r: Result<(), BackendError>)
        ensures
            self.set_result(name@, r),
    ;
}

/// A shared backend answers as the backend it shares.
impl<T: PowerProfilesBackend> PowerProfilesBackend for Arc<T> {
    open spec fn profiles_result(&self, r: Result<Vec<ProfileInfo>, BackendError>) -> bool {
        (**self).profiles_result(r)
    }

    open spec fn active_result(&self, r: Result<String, BackendError>) -> bool {
        (**self).active_result(r)
    }

    open spec fn set_result(&self, name: Seq<char>, r: Result<(), BackendError>) -> bool {
        (**self).set_result(name, r)
    }

    fn profiles(&self) -> (r: Result<Vec<ProfileInfo>, BackendError>) {
        (**self).profiles()
    }

    fn active_profile_name(&self) -> (r: Result<String, BackendError>) {
        (**self).active_profile_name()
    }

    fn set_active_profile(&self, name: &str) -> (r: Result<(), BackendError>) {
        (**self).set_active_profile(name)
    }
}

/// A profile name plus whether it's known to actually affect hardware.
#[derive(Debug, Clone, PartialEq)]
pub struct ProfileStatus {
    pub name: String,
    /// `false` when this profile is backed by a placeholder driver — real,
    /// switchable, but a no-op on this hardware.
    pub hardware_backed: bool,
}

/// Invalid input is rejected before any write, and a failed write is
/// reported rather than assumed to have succeeded.
#[derive(Debug, Clone, PartialEq)]
pub enum ProfileError {
    InvalidProfile { requested: String, valid: Vec<String> },
    /// The name is a listed choice, but writing it is known in advance to
    /// fail; rejected before any write is attempted.
    KnownUnsupportedProfile { requested: String },
    BackendUnavailable,
    BackendDenied,
    BackendFailed(String),
}

/// `Send + Sync` so a long-lived instance can be shared with a background
/// polling thread.
///
/// As with the backends, each call is accounted for by a relation:
/// `names_result`, `details_result`, `current_result` and
/// `profile_set_result(profile, r)`. By default they hold of any answer;
/// `PowerProfilesDaemon` defines them from its backend's.
pub trait PowerProfileProvider: Send + Sync {
    open spec fn names_result(&self, r: CapabilityState<Vec<String>>) -> bool {
        true
    }

    open spec fn details_result(&self, r: CapabilityState<Vec<ProfileInfo>>) -> bool {
        true
    }

    open spec fn current_result(&self, r: CapabilityState<ProfileStatus>) -> bool {
        true
    }

    open spec fn profile_set_result(&self, profile: Seq<char>, r: Result<(), ProfileError>) -> bool {
        true
    }

    fn list_profiles(&self) -> (r: CapabilityState<Vec<String>>)
        ensures
            self.names_result(r),
    ;

    /// Same as `list_profiles()`, with each entry's full detail.
    fn list_profile_details(&self) -> (r: CapabilityState<Vec<ProfileInfo>>)
        ensures
            self.details_result(r),
    ;

    fn current_profile(&self) -> (r: CapabilityState<ProfileStatus>)
        ensures
            self.current_result(r),
    ;

    fn set_profile(&self, profile: &str) -> (r: Result<(), ProfileError>)
        ensures
            self.profile_set_result(profile@, r),
    ;
}

// ---------------------------------------------------------------------
// The meaning of each operation
// ---------------------------------------------------------------------

pub open spec fn backend_error_state<T>(err: BackendError) -> CapabilityState<T> {
    match err {
        BackendError::Unavailable => CapabilityState::Unsupported,
        BackendError::Denied => CapabilityState::RequiresPrivilege,
        BackendError::Other(_) => CapabilityState::Unknown,
    }
}

pub open spec fn profile_error_of(err: BackendError) -> ProfileError {
    match err {
        BackendError::Unavailable => ProfileError::BackendUnavailable,
        BackendError::Denied => ProfileError::BackendDenied,
        BackendError::Other(msg) => ProfileError::BackendFailed(msg),
    }
}

pub open spec fn profile_names(ps: Seq<ProfileInfo>) -> Seq<Seq<char>> {
    ps.map_values(|p: ProfileInfo| p.name@)
}

pub open spec fn string_views(v: Seq<String>) -> Seq<Seq<char>> {
    v.map_values(|s: String| s@)
}

/// The first listed profile called `name`.
pub open spec fn find_named(ps: Seq<ProfileInfo>, name: Seq<char>) -> Option<ProfileInfo>
    decreases ps.len(),
{
    if ps.len() == 0 {
        None
    } else if ps[0].name@ == name {
        Some(ps[0])
    } else {
        find_named(ps.drop_first(), name)
    }
}

/// What listing profile details reports for a backend listing.
pub open spec fn details_of(listing: Result<Vec<ProfileInfo>, BackendError>) -> CapabilityState<
    Vec<ProfileInfo>,
> {
    match listing {
        Ok(ps) => CapabilityState::Supported(ps),
        Err(e) => backend_error_state(e),
    }
}

/// `names` is `details` with every entry reduced to its name, in the same
/// state.
pub open spec fn names_state_of(
    details: CapabilityState<Vec<ProfileInfo>>,
    names: CapabilityState<Vec<String>>,
) -> bool {
    match (details, names) {
        (CapabilityState::Supported(ps), CapabilityState::Supported(ns)) => string_views(ns@)
            == profile_names(ps@),
        (CapabilityState::HardwareDependent(ps), CapabilityState::HardwareDependent(ns)) => string_views(
            ns@,
        ) == profile_names(ps@),
        (CapabilityState::Unsupported, CapabilityState::Unsupported) => true,
        (CapabilityState::Unknown, CapabilityState::Unknown) => true,
        (CapabilityState::RequiresPrivilege, CapabilityState::RequiresPrivilege) => true,
        _ => false,
    }
}

/// What `current_profile` reports for a listing and an active-name read: the
/// active profile, `HardwareDependent` when the listing marks it as a
/// placeholder (an unlisted name counts as hardware-backed).
pub open spec fn current_profile_of(
    listing: Result<Vec<ProfileInfo>, BackendError>,
    active: Result<String, BackendError>,
) -> CapabilityState<ProfileStatus> {
    match listing {
        Err(e) => backend_error_state(e),
        Ok(ps) => match active {
            Err(e) => backend_error_state(e),
            Ok(name) => {
                let placeholder = match find_named(ps@, name@) {
                    Some(p) => p.is_placeholder,
                    None => false,
                };
                let status = ProfileStatus { name, hardware_backed: !placeholder };
                if placeholder {
                    CapabilityState::HardwareDependent(status)
                } else {
                    CapabilityState::Supported(status)
                }
            },
        },
    }
}

/// The validation `set_profile` performs before any write: `Ok` exactly when
/// `requested` names a listed profile that is not known to be unsupported.
pub open spec fn set_check_of(
    listing: Result<Vec<ProfileInfo>, BackendError>,
    requested: Seq<char>,
    r: Result<(), ProfileError>,
) -> bool {
    match listing {
        Err(e) => r == Err::<(), ProfileError>(profile_error_of(e)),
        Ok(ps) => match find_named(ps@, requested) {
            None => r matches Err(ProfileError::InvalidProfile { requested: q, valid }) && q@
                == requested && string_views(valid@) == profile_names(ps@),
            Some(p) => if p.known_unsupported {
                r matches Err(ProfileError::KnownUnsupportedProfile { requested: q }) && q@
                    == requested
            } else {
                r is Ok
            },
        },
    }
}

pub open spec fn write_outcome(written: Result<(), BackendError>) -> Result<(), ProfileError> {
    match written {
        Ok(()) => Ok(()),
        Err(e) => Err(profile_error_of(e)),
    }
}

/// The whole of `set_profile`: the validation's rejection, or else the
/// outcome of the one write.
pub open spec fn set_profile_of(
    listing: Result<Vec<ProfileInfo>, BackendError>,
    requested: Seq<char>,
    written: Result<(), BackendError>,
    r: Result<(), ProfileError>,
) -> bool {
    match listing {
        Err(e) => r == Err::<(), ProfileError>(profile_error_of(e)),
        Ok(ps) => match find_named(ps@, requested) {
            Some(p) => if p.known_unsupported {
                set_check_of(listing, requested, r)
            } else {
                r == write_outcome(written)
            },
            None => set_check_of(listing, requested, r),
        },
    }
}

// ---------------------------------------------------------------------
// Executable pieces
// ---------------------------------------------------------------------

pub fn map_backend_error<T>(err: BackendError) -> (r: CapabilityState<T>)
    ensures
        r == backend_error_state::<T>(err),
{
    match err {
        BackendError::Unavailable => CapabilityState::Unsupported,
        BackendError::Denied => CapabilityState::RequiresPrivilege,
        BackendError::Other(_) => CapabilityState::Unknown,
    }
}

pub fn backend_failure(err: BackendError) -> (r: ProfileError)
    ensures
        r == profile_error_of(err),
{
    match err {
        BackendError::Unavailable => ProfileError::BackendUnavailable,
        BackendError::Denied => ProfileError::BackendDenied,
        BackendError::Other(msg) => ProfileError::BackendFailed(msg),
    }
}

pub fn copy_backend_error(err: &BackendError) -> (r: BackendError)
    ensures
        r == *err,
{
    match err {
        BackendError::Unavailable => BackendError::Unavailable,
        BackendError::Denied => BackendError::Denied,
        BackendError::Other(msg) => BackendError::Other(msg.clone()),
    }
}

pub fn str_eq(a: &str, b: &str) -> (r: bool)
    ensures
        r == (a@ == b@),
{
    let x = chars_of(a);
    let y = chars_of(b);
    chars_eq(x.as_slice(), y.as_slice())
}

proof fn lemma_find_named_skip(ps: Seq<ProfileInfo>, name: Seq<char>, i: int)
    requires
        0 <= i < ps.len(),
        ps[i].name@ != name,
    ensures
        find_named(ps.subrange(i, ps.len() as int), name) == find_named(
            ps.subrange(i + 1, ps.len() as int),
            name,
        ),
{
    let t = ps.subrange(i, ps.len() as int);
    assert(t[0] == ps[i]);
    assert(t.drop_first() =~= ps.subrange(i + 1, ps.len() as int));
}

/// The position of the first profile called `name`.
pub fn find_profile(ps: &Vec<ProfileInfo>, name: &str) -> (r: Option<usize>)
    ensures
        match r {
            Some(i) => i < ps.len() && find_named(ps@, name@) == Some(ps@[i as int]),
            None => find_named(ps@, name@) is None,
        },
{
    let mut i: usize = 0;
    assert(ps@.subrange(0, ps@.len() as int) =~= ps@);
    while i < ps.len()
        invariant
            i <= ps.len(),
            find_named(ps@, name@) == find_named(ps@.subrange(i as int, ps@.len() as int), name@),
        decreases ps.len() - i,
    {
        if str_eq(ps[i].name.as_str(), name) {
            assert(ps@.subrange(i as int, ps@.len() as int)[0] == ps@[i as int]);
            return Some(i);
        }
        proof {
            lemma_find_named_skip(ps@, name@, i as int);
        }
        i = i + 1;
    }
    None
}

/// The names of `ps`, in order.
pub fn names_of(ps: &Vec<ProfileInfo>) -> (r: Vec<String>)
    ensures
        string_views(r@) == profile_names(ps@),
{
    let mut out: Vec<String> = Vec::new();
    let mut i: usize = 0;
    while i < ps.len()
        invariant
            i <= ps.len(),
            out@.len() == i,
            string_views(out@) == profile_names(ps@.take(i as int)),
        decreases ps.len() - i,
    {
        let ghost before = out@;
        out.push(ps[i].name.clone());
        assert(out@ =~= before.push(ps@[i as int].name));
        assert(string_views(out@) =~= profile_names(ps@.take(i + 1))) by {
            assert forall|k: int| 0 <= k < out@.len() implies string_views(out@)[k]
                == profile_names(ps@.take(i + 1))[k] by {
                assert(ps@.take(i + 1)[k] == ps@[k]);
                assert(profile_names(ps@.take(i + 1))[k] == ps@[k].name@);
                assert(string_views(out@)[k] == out@[k]@);
                if k < i {
                    assert(ps@.take(i as int)[k] == ps@[k]);
                    assert(string_views(before)[k] == profile_names(ps@.take(i as int))[k]);
                    assert(string_views(before)[k] == before[k]@);
                    assert(profile_names(ps@.take(i as int))[k] == ps@[k].name@);
                }
            }
        }
        i = i + 1;
    }
    assert(ps@.take(ps.len() as int) =~= ps@);
    out
}

/// `list_profiles` from the details listing: names only, same state.
pub fn names_state_from(details: CapabilityState<Vec<ProfileInfo>>) -> (r: CapabilityState<
    Vec<String>,
>)
    ensures
        names_state_of(details, r),
{
    match details {
        CapabilityState::Supported(v) => CapabilityState::Supported(names_of(&v)),
        CapabilityState::HardwareDependent(v) => CapabilityState::HardwareDependent(names_of(&v)),
        CapabilityState::Unsupported => CapabilityState::Unsupported,
        CapabilityState::Unknown => CapabilityState::Unknown,
        CapabilityState::RequiresPrivilege => CapabilityState::RequiresPrivilege,
    }
}

pub fn details_from(listing: Result<Vec<ProfileInfo>, BackendError>) -> (r: CapabilityState<
    Vec<ProfileInfo>,
>)
    ensures
        r == details_of(listing),
{
    match listing {
        Ok(profiles) => CapabilityState::Supported(profiles),
        Err(e) => map_backend_error(e),
    }
}

/// `current_profile` from a listing and an active-name read.
pub fn current_profile_from(
    listing: Result<Vec<ProfileInfo>, BackendError>,
    active: Result<String, BackendError>,
) -> (r: CapabilityState<ProfileStatus>)
    ensures
        r == current_profile_of(listing, active),
{
    let profiles = match listing {
        Ok(p) => p,
        Err(e) => return map_backend_error(e),
    };
    let name = match active {
        Ok(n) => n,
        Err(e) => return map_backend_error(e),
    };
    let is_placeholder = match find_profile(&profiles, name.as_str()) {
        Some(i) => profiles[i].is_placeholder,
        None => false,
    };
    let status = ProfileStatus { name, hardware_backed: !is_placeholder };
    if is_placeholder {
        CapabilityState::HardwareDependent(status)
    } else {
        CapabilityState::Supported(status)
    }
}

/// The validation `set_profile` performs before writing: `Ok(())` means the
/// write may go ahead.
pub fn set_profile_check(listing: Result<Vec<ProfileInfo>, BackendError>, profile: &str) -> (r:
    Result<(), ProfileError>)
    ensures
        set_check_of(listing, profile@, r),
{
    let profiles = match listing {
        Ok(p) => p,
        Err(e) => return Err(backend_failure(e)),
    };
    match find_profile(&profiles, profile) {
        None => {
            let valid = names_of(&profiles);
            let requested = string_of(chars_of(profile).as_slice());
            Err(ProfileError::InvalidProfile { requested, valid })
        },
        Some(i) => {
            if profiles[i].known_unsupported {
                let requested = string_of(chars_of(profile).as_slice());
                Err(ProfileError::KnownUnsupportedProfile { requested })
            } else {
                Ok(())
            }
        },
    }
}

pub struct PowerProfilesDaemon<B: PowerProfilesBackend> {
    backend: B,
}

impl<B: PowerProfilesBackend> PowerProfilesDaemon<B> {
    pub fn new(backend: B) -> (r: Self)
        ensures
            r.backend() == backend,
    {
        Self { backend }
    }

    pub closed spec fn backend(&self) -> B {
        self.backend
    }
}

/// Whether `set_profile` goes on to write `requested`: the listing is
/// available and names it, and it is not known to be unsupported.
pub open spec fn writes_profile(
    listing: Result<Vec<ProfileInfo>, BackendError>,
    requested: Seq<char>,
) -> bool {
    listing matches Ok(ps) && find_named(ps@, requested) matches Some(p) && !p.known_unsupported
}

impl<B: PowerProfilesBackend> PowerProfileProvider for PowerProfilesDaemon<B> {
    /// The names of the backend's listing, in the same state.
    open spec fn names_result(&self, r: CapabilityState<Vec<String>>) -> bool {
        exists|listing: Result<Vec<ProfileInfo>, BackendError>|
            #[trigger] self.backend().profiles_result(listing) && names_state_of(
                details_of(listing),
                r,
            )
    }

    /// The backend's listing.
    open spec fn details_result(&self, r: CapabilityState<Vec<ProfileInfo>>) -> bool {
        exists|listing: Result<Vec<ProfileInfo>, BackendError>|
            #[trigger] self.backend().profiles_result(listing) && details_of(listing) == r
    }

    /// The backend's listing and, when it is available, its active name.
    open spec fn current_result(&self, r: CapabilityState<ProfileStatus>) -> bool {
        exists|listing: Result<Vec<ProfileInfo>, BackendError>, active: Result<String, BackendError>|
            self.backend().profiles_result(listing) && (listing is Ok
                ==> self.backend().active_result(active)) && #[trigger] current_profile_of(
                listing,
                active,
            ) == r
    }

    /// The backend's listing decides: a rejection is answered without a
    /// write (see `set_check_of`); otherwise `profile` is written and the
    /// write's outcome is the answer.
    open spec fn profile_set_result(&self, profile: Seq<char>, r: Result<(), ProfileError>) -> bool {
        exists|listing: Result<Vec<ProfileInfo>, BackendError>|
            #[trigger] self.backend().profiles_result(listing) && if writes_profile(
                listing,
                profile,
            ) {
                exists|written: Result<(), BackendError>|
                    #[trigger] self.backend().set_result(profile, written) && r == write_outcome(
                        written,
                    )
            } else {
                set_check_of(listing, profile, r)
            }
    }

    /// The profile names, in the backend's order.
    fn list_profiles(&self) -> (r: CapabilityState<Vec<String>>) {
        let listing = self.backend.profiles();
        let ghost seen = listing;
        let details = details_from(listing);
        let r = names_state_from(details);
        assert(self.backend().profiles_result(seen) && names_state_of(details_of(seen), r));
        r
    }

    fn list_profile_details(&self) -> (r: CapabilityState<Vec<ProfileInfo>>) {
        let listing = self.backend.profiles();
        let ghost seen = listing;
        let r = details_from(listing);
        assert(self.backend().profiles_result(seen) && details_of(seen) == r);
        r
    }

    fn current_profile(&self) -> (r: CapabilityState<ProfileStatus>) {
        let listing = self.backend.profiles();
        let ghost seen = listing;
        match listing {
            Err(e) => {
                let r = map_backend_error(e);
                assert(self.backend().profiles_result(seen) && current_profile_of(
                    seen,
                    Err(BackendError::Unavailable),
                ) == r);
                r
            },
            Ok(profiles) => {
                let active = self.backend.active_profile_name();
                let ghost seen_active = active;
                let r = current_profile_from(Ok(profiles), active);
                assert(self.backend().profiles_result(seen) && self.backend().active_result(
                    seen_active,
                ) && current_profile_of(seen, seen_active) == r);
                r
            },
        }
    }

    /// Validates `profile` against the backend's own listing, and writes it
    /// only when it names a listed profile not known to be unsupported.
    fn set_profile(&self, profile: &str) -> (r: Result<(), ProfileError>) {
        let listing = self.backend.profiles();
        let ghost seen = listing;
        let check = set_profile_check(listing, profile);
        match check {
            Err(e) => {
                assert(!writes_profile(seen, profile@));
                assert(self.backend().profiles_result(seen) && set_check_of(seen, profile@, Err(e)));
                Err(e)
            },
            Ok(()) => {
                assert(writes_profile(seen, profile@));
                let written = self.backend.set_active_profile(profile);
                let ghost w = written;
                let r = match written {
                    Ok(()) => Ok(()),
                    Err(e) => Err(backend_failure(e)),
                };
                assert(self.backend().set_result(profile@, w) && r == write_outcome(w));
                assert(self.backend().profiles_result(seen));
                r
            },
        }
    }
}

/// Fallback backend for when connecting to `power-profiles-daemon` failed:
/// every call reports the same error the connection attempt returned.
pub struct FailedBackend(pub BackendError);

impl PowerProfilesBackend for FailedBackend {
    open spec fn profiles_result(&self, r: Result<Vec<ProfileInfo>, BackendError>) -> bool {
        r == Err::<Vec<ProfileInfo>, BackendError>(self.0)
    }

    open spec fn active_result(&self, r: Result<String, BackendError>) -> bool {
        r == Err::<String, BackendError>(self.0)
    }

    open spec fn set_result(&self, name: Seq<char>, r: Result<(), BackendError>) -> bool {
        r == Err::<(), BackendError>(self.0)
    }

    fn profiles(&self) -> (r: Result<Vec<ProfileInfo>, BackendError>)
        ensures
            r == Err::<Vec<ProfileInfo>, BackendError>(self.0),
    {
        Err(copy_backend_error(&self.0))
    }

    fn active_profile_name(&self) -> (r: Result<String, BackendError>)
        ensures
            r == Err::<String, BackendError>(self.0),
    {
        Err(copy_backend_error(&self.0))
    }

    fn set_active_profile(&self, _name: &str) -> (r: Result<(), BackendError>)
        ensures
            r == Err::<(), BackendError>(self.0),
    {
        Err(copy_backend_error(&self.0))
    }
}

// ---------------------------------------------------------------------
// ACPI platform_profile backend
// ---------------------------------------------------------------------

pub const PLATFORM_PROFILE_PATH: &'static str = "/sys/firmware/acpi/platform_profile";

pub const PLATFORM_PROFILE_CHOICES_PATH: &'static str = "/sys/firmware/acpi/platform_profile_choices";

/// Acer-firmware power-profile backend: reads/writes
/// `/sys/firmware/acpi/platform_profile` directly. Both files exist only when
/// `acer_wmi` is loaded with `predator_v4=1`; absent, they read as
/// `Unavailable`.
pub struct AcerPlatformProfileBackend<R: SysfsReader> {
    sysfs: R,
}

impl<R: SysfsReader> AcerPlatformProfileBackend<R> {
    pub fn new(sysfs: R) -> (r: Self)
        ensures
            r.reader() == sysfs,
    {
        Self { sysfs }
    }

    pub closed spec fn reader(&self) -> R {
        self.sysfs
    }
}

pub open spec fn sysfs_error_of(err: IoError) -> BackendError {
    match err {
        IoError::NotFound => BackendError::Unavailable,
        IoError::PermissionDenied => BackendError::Denied,
        IoError::Other(msg) => BackendError::Other(msg),
    }
}

/// `ps` is one entry per whitespace-separated choice, in order; none is a
/// placeholder, and exactly `performance` is known to be unsupported.
pub open spec fn choices_match(choices: Seq<Seq<char>>, ps: Seq<ProfileInfo>) -> bool {
    &&& ps.len() == choices.len()
    &&& forall|i: int|
        0 <= i < ps.len() ==> {
            &&& #[trigger] ps[i].name@ == choices[i]
            &&& !ps[i].is_placeholder
            &&& ps[i].known_unsupported == (choices[i] == "performance"@)
        }
}

/// What the ACPI backend lists for a read of `platform_profile_choices`.
pub open spec fn choices_listing_of(
    read: Result<String, IoError>,
    r: Result<Vec<ProfileInfo>, BackendError>,
) -> bool {
    match read {
        Err(e) => r == Err::<Vec<ProfileInfo>, BackendError>(sysfs_error_of(e)),
        Ok(raw) => r matches Ok(ps) && choices_match(words(raw@), ps@),
    }
}

/// What the ACPI backend reports as active for a read of `platform_profile`.
pub open spec fn active_name_of(read: Result<String, IoError>, r: Result<String, BackendError>) -> bool {
    match read {
        Err(e) => r == Err::<String, BackendError>(sysfs_error_of(e)),
        Ok(raw) => r matches Ok(name) && name@ == trim(raw@),
    }
}

/// Classifies a sysfs IO error the same way for reads and writes.
pub fn map_sysfs_error(err: IoError) -> (r: BackendError)
    ensures
        r == sysfs_error_of(err),
{
    match err {
        IoError::NotFound => BackendError::Unavailable,
        IoError::PermissionDenied => BackendError::Denied,
        IoError::Other(msg) => BackendError::Other(msg),
    }
}

/// The profile listing a read of `platform_profile_choices` gives.
pub fn profiles_from_choices(read: Result<String, IoError>) -> (r: Result<
    Vec<ProfileInfo>,
    BackendError,
>)
    ensures
        choices_listing_of(read, r),
{
    let raw = match read {
        Ok(s) => s,
        Err(e) => return Err(map_sysfs_error(e)),
    };
    let chars = chars_of(raw.as_str());
    let ws = split_words(chars.as_slice());
    let mut out: Vec<ProfileInfo> = Vec::new();
    let mut i: usize = 0;
    while i < ws.len()
        invariant
            i <= ws.len(),
            views(ws@) == words(raw@),
            chars@ == raw@,
            choices_match(views(ws@).take(i as int), out@),
        decreases ws.len() - i,
    {
        let name = string_of(ws[i].as_slice());
        let known = chars_eq_str(ws[i].as_slice(), KNOWN_UNSUPPORTED_PROFILE);
        let ghost before = out@;
        out.push(ProfileInfo { name, is_placeholder: false, known_unsupported: known });
        assert(choices_match(views(ws@).take(i + 1), out@)) by {
            assert forall|j: int| 0 <= j < out@.len() implies {
                &&& #[trigger] out@[j].name@ == views(ws@).take(i + 1)[j]
                &&& !out@[j].is_placeholder
                &&& out@[j].known_unsupported == (views(ws@).take(i + 1)[j] == "performance"@)
            } by {
                if j < i {
                    assert(out@[j] == before[j]);
                    assert(views(ws@).take(i + 1)[j] == views(ws@).take(i as int)[j]);
                }
            }
        }
        i = i + 1;
    }
    assert(views(ws@).take(ws.len() as int) =~= views(ws@));
    Ok(out)
}

/// The active profile a read of `platform_profile` gives: its trimmed content.
pub fn active_from_read(read: Result<String, IoError>) -> (r: Result<String, BackendError>)
    ensures
        active_name_of(read, r),
{
    match read {
        Ok(raw) => {
            let chars = chars_of(raw.as_str());
            let t = trim_chars(chars.as_slice());
            Ok(string_of(t.as_slice()))
        },
        Err(e) => Err(map_sysfs_error(e)),
    }
}

/// What the ACPI backend answers for a write of `platform_profile`.
pub open spec fn platform_write_outcome(written: Result<(), IoError>) -> Result<(), BackendError> {
    match written {
        Ok(()) => Ok(()),
        Err(e) => Err(sysfs_error_of(e)),
    }
}

impl<R: SysfsReader> PowerProfilesBackend for AcerPlatformProfileBackend<R> {
    /// A read of `platform_profile_choices`, one profile per choice.
    open spec fn profiles_result(&self, r: Result<Vec<ProfileInfo>, BackendError>) -> bool {
        exists|read: Result<String, IoError>|
            #[trigger] self.reader().read_result(PLATFORM_PROFILE_CHOICES_PATH@, read)
                && choices_listing_of(read, r)
    }

    /// A read of `platform_profile`, trimmed.
    open spec fn active_result(&self, r: Result<String, BackendError>) -> bool {
        exists|read: Result<String, IoError>|
            #[trigger] self.reader().read_result(PLATFORM_PROFILE_PATH@, read) && active_name_of(
                read,
                r,
            )
    }

    /// A write of `name` to `platform_profile`, its failure reported.
    open spec fn set_result(&self, name: Seq<char>, r: Result<(), BackendError>) -> bool {
        exists|written: Result<(), IoError>|
            #[trigger] self.reader().write_result(PLATFORM_PROFILE_PATH@, name, written) && r
                == platform_write_outcome(written) && (r is Ok <==> written is Ok) && (written
                == Err::<(), IoError>(IoError::NotFound) ==> r == Err::<(), BackendError>(
                BackendError::Unavailable,
            )) && (written == Err::<(), IoError>(IoError::PermissionDenied) ==> r == Err::<
                (),
                BackendError,
            >(BackendError::Denied))
    }

    /// Every choice `platform_profile_choices` advertises, in order.
    fn profiles(&self) -> (r: Result<Vec<ProfileInfo>, BackendError>) {
        let read = self.sysfs.read_to_string(PLATFORM_PROFILE_CHOICES_PATH);
        let ghost seen = read;
        let r = profiles_from_choices(read);
        assert(self.reader().read_result(PLATFORM_PROFILE_CHOICES_PATH@, seen) && choices_listing_of(
            seen,
            r,
        ));
        r
    }

    fn active_profile_name(&self) -> (r: Result<String, BackendError>) {
        let read = self.sysfs.read_to_string(PLATFORM_PROFILE_PATH);
        let ghost seen = read;
        let r = active_from_read(read);
        assert(self.reader().read_result(PLATFORM_PROFILE_PATH@, seen) && active_name_of(seen, r));
        r
    }

    fn set_active_profile(&self, name: &str) -> (r: Result<(), BackendError>) {
        let written = self.sysfs.write_to_string(PLATFORM_PROFILE_PATH, name);
        let ghost w = written;
        let r = match written {
            Ok(()) => Ok(()),
            Err(err) => Err(map_sysfs_error(err)),
        };
        assert(self.reader().write_result(PLATFORM_PROFILE_PATH@, name@, w) && r
            == platform_write_outcome(w));
        r
    }
}

} // verus!
