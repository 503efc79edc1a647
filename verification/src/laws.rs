//! Properties of the library as a whole: what holds of every input, across
//! operations, stated over the same models the operations' contracts use.

use vstd::prelude::*;
use crate::battery_calibration::{
    calibration_mode_of, calibration_write_outcome, CalibrationError, CALIBRATION_MODE_PATH,
};
use crate::battery_limit::{
    flag_text, health_mode_of, limit_write_outcome, AcerWmiBatteryBackend, BatteryLimitError,
    HEALTH_MODE_PATH,
};
use crate::capability::CapabilityState;
use crate::commands::state_exit_code;
use crate::dbus::{absence_text, denial_text, profile_entry_of};
use crate::evidence::{evidence_line_of, opt_text, redact_line, redacted, Evidence};
use crate::command::CommandRunner;
use crate::power_draw::{
    counter_delta, energy_reading_of, poll_with, power_step, PackagePower, RaplPowerBackend,
};
use crate::power_profile::{
    names_state_of, set_check_of, writes_profile, FailedBackend, PowerProfileProvider, PowerProfilesBackend,
    PowerProfilesDaemon, active_name_of, backend_error_state, current_profile_of, details_of, find_named, profile_error_of,
    set_profile_of, write_outcome, BackendError, ProfileError, ProfileInfo, ProfileStatus,
};
use crate::provider::generic_linux::{cpu_stat_of, cpu_usage_step, CpuStatSample, CpuTimeDelta, GenericLinux};
use crate::rows::row_of;
use crate::sysfs::{IoError, SysfsReader};
use crate::text::{is_sep, join, lines, pieces, strip_cr, trim};

verus! {

/// A refused profile write is refused exactly for a name that is not
/// listed (`InvalidProfile`) or that is listed but known to be unsupported
/// (`KnownUnsupportedProfile`); any other listed name is written, and the
/// answer is the write's own outcome — a failed write is never reported as
/// a success.
pub proof fn set_profile_rejects_exactly_unlisted_or_known_unsupported(
    listing: Vec<ProfileInfo>,
    requested: Seq<char>,
    written: Result<(), BackendError>,
    r: Result<(), ProfileError>,
)
    requires
        set_profile_of(Ok(listing), requested, written, r),
    ensures
        (r matches Err(ProfileError::InvalidProfile { .. })) <==> find_named(listing@, requested)
            is None,
        (r matches Err(ProfileError::KnownUnsupportedProfile { .. })) <==> (find_named(
            listing@,
            requested,
        ) matches Some(p) && p.known_unsupported),
        (find_named(listing@, requested) matches Some(p) && !p.known_unsupported) ==> r
            == write_outcome(written),
        written is Err ==> r is Err,
{
}

/// A backend that failed to connect reports its own error through every
/// operation: `Unavailable` as `Unsupported`/`BackendUnavailable`, `Denied`
/// as `RequiresPrivilege`/`BackendDenied`, any other failure as
/// `Unknown`/`BackendFailed` with its message — never collapsed into one.
pub proof fn failed_backend_error_preserved(
    e: BackendError,
    active: Result<String, BackendError>,
    requested: Seq<char>,
    written: Result<(), BackendError>,
    r: Result<(), ProfileError>,
)
    ensures
        details_of(Err(e)) == backend_error_state::<Vec<ProfileInfo>>(e),
        current_profile_of(Err(e), active) == backend_error_state::<ProfileStatus>(e),
        set_profile_of(Err(e), requested, written, r) <==> r == Err::<(), ProfileError>(
            profile_error_of(e),
        ),
        e is Unavailable ==> backend_error_state::<ProfileStatus>(e) is Unsupported
            && profile_error_of(e) is BackendUnavailable,
        e is Denied ==> backend_error_state::<ProfileStatus>(e) is RequiresPrivilege
            && profile_error_of(e) is BackendDenied,
        e matches BackendError::Other(m) ==> backend_error_state::<ProfileStatus>(e) is Unknown
            && profile_error_of(e) == ProfileError::BackendFailed(m),
{
}

/// Rates need two samples: without a previous sample, neither CPU time nor
/// package power is ever reported `Supported`.
pub proof fn first_sample_never_supported(
    read: Result<String, IoError>,
    elapsed_ns: u128,
    range_uj: Option<u64>,
)
    ensures
        !(cpu_usage_step(None, read).1 is Supported),
        !(power_step(None, read, elapsed_ns, range_uj) is Supported),
{
}

/// A CPU-time reading always has a non-zero total, and its idle part is a
/// count of that same interval, so the busy share `1 - idle / total` is at
/// most one; a successful parse becomes the next baseline, anything else
/// keeps the previous one.
pub proof fn cpu_usage_step_properties(prev: Option<CpuStatSample>, read: Result<String, IoError>)
    ensures
        cpu_usage_step(prev, read).1 matches CapabilityState::Supported(d) ==> d.total > 0,
        match read {
            Ok(raw) => match cpu_stat_of(raw@) {
                Some(s) => cpu_usage_step(prev, read).0 == Some(s),
                None => cpu_usage_step(prev, read).0 == prev,
            },
            Err(_) => cpu_usage_step(prev, read).0 == prev,
        },
{
}

/// A counter that went forwards gives its difference whatever the range;
/// one that wrapped gives the distance up to the range plus the new value.
pub proof fn counter_delta_wraps_at_range(prev_uj: u64, now_uj: u64, range_uj: u64)
    requires
        now_uj < prev_uj <= range_uj,
        range_uj - prev_uj + now_uj <= u64::MAX,
    ensures
        counter_delta(prev_uj, now_uj, Some(range_uj)) == Some((range_uj - prev_uj + now_uj) as u64),
        forall|r: Option<u64>| #[trigger] counter_delta(prev_uj, prev_uj, r) == Some(0u64),
{
}

/// A single-capability command succeeds (exit code 0) exactly when the
/// capability is `Supported`; every other state is reported, never
/// dressed up as a value.
pub proof fn exit_code_zero_iff_supported<T>(state: CapabilityState<T>)
    ensures
        (state_exit_code(state) == 0) <==> state is Supported,
{
}

/// A dashboard row is available exactly when its state is `Supported`.
pub proof fn row_available_iff_supported<T>(
    state: CapabilityState<T>,
    fmt: spec_fn(T) -> Seq<char>,
    row: crate::rows::RowContent,
)
    requires
        row_of(state, fmt, row),
    ensures
        row.available <==> state is Supported,
{
}

/// Trimming leaves a text that neither starts nor ends with whitespace as
/// it is, and removes one trailing newline from it.
proof fn lemma_trim_word(w: Seq<char>)
    requires
        w.len() > 0,
        !crate::text::is_ws(w[0]),
        !crate::text::is_ws(w.last()),
    ensures
        trim(w) == w,
        trim(w.push('\n')) == w,
{
    let n = w.push('\n');
    assert(n[0] == w[0]);
    assert(n.drop_last() =~= w);
    assert(crate::text::is_ws('\n'));
}

/// What `set_health_mode(b)` writes, `health_mode` reads back as `b`
/// (and likewise for the calibration flag), whether or not the attribute
/// adds a trailing newline.
pub proof fn battery_flag_round_trip(enabled: bool, stored: String)
    requires
        stored@ == flag_text(enabled) || stored@ == flag_text(enabled).push('\n'),
    ensures
        health_mode_of(Ok(stored)) == CapabilityState::Supported(enabled),
        calibration_mode_of(Ok(stored)) == CapabilityState::Supported(enabled),
{
    reveal_strlit("1");
    reveal_strlit("0");
    lemma_trim_word(flag_text(enabled));
    if enabled {
        assert(trim(stored@) == "1"@);
    } else {
        assert(trim(stored@) == "0"@);
        assert(trim(stored@) != "1"@);
    }
}

/// The name `set_active_profile` writes to `platform_profile`,
/// `active_profile_name` reads back unchanged (with or without a trailing
/// newline from the attribute), for any name that does not start or end
/// with whitespace.
pub proof fn platform_profile_round_trip(
    name: Seq<char>,
    stored: String,
    r: Result<String, BackendError>,
)
    requires
        name.len() > 0,
        !crate::text::is_ws(name[0]),
        !crate::text::is_ws(name.last()),
        stored@ == name || stored@ == name.push('\n'),
        active_name_of(Ok(stored), r),
    ensures
        r matches Ok(read_back) && read_back@ == name,
{
    lemma_trim_word(name);
}

/// Over a reader whose `health_mode` file holds what `set_health_mode(b)`
/// wrote to it (`flag_text(b)`, perhaps with a newline), `health_mode`
/// answers `b`: a write is read back.
pub proof fn health_mode_reads_back_the_written_flag<R: SysfsReader>(
    reader: R,
    enabled: bool,
    r: CapabilityState<bool>,
)
    requires
        forall|read: Result<String, IoError>|
            #[trigger] reader.read_result(crate::battery_limit::HEALTH_MODE_PATH@, read) ==> (read matches Ok(
                s,
            ) && (s@ == flag_text(enabled) || s@ == flag_text(enabled).push('\n'))),
        exists|read: Result<String, IoError>|
            #[trigger] reader.read_result(crate::battery_limit::HEALTH_MODE_PATH@, read)
                && health_mode_of(read) == r,
    ensures
        r == CapabilityState::Supported(enabled),
{
    let read = choose|read: Result<String, IoError>|
        #[trigger] reader.read_result(crate::battery_limit::HEALTH_MODE_PATH@, read)
            && health_mode_of(read) == r;
    let s = read->Ok_0;
    battery_flag_round_trip(enabled, s);
}

/// Over a reader whose `platform_profile` file holds the name
/// `set_active_profile` wrote (perhaps with a newline), the ACPI backend's
/// active profile is that name: a write is read back.
pub proof fn platform_profile_reads_back_the_written_name<R: SysfsReader>(
    backend: crate::power_profile::AcerPlatformProfileBackend<R>,
    name: Seq<char>,
    r: Result<String, BackendError>,
)
    requires
        name.len() > 0,
        !crate::text::is_ws(name[0]),
        !crate::text::is_ws(name.last()),
        forall|read: Result<String, IoError>|
            #[trigger] backend.reader().read_result(
                crate::power_profile::PLATFORM_PROFILE_PATH@,
                read,
            ) ==> (read matches Ok(s) && (s@ == name || s@ == name.push('\n'))),
        backend.active_result(r),
    ensures
        r matches Ok(read_back) && read_back@ == name,
{
    let read = choose|read: Result<String, IoError>|
        #[trigger] backend.reader().read_result(crate::power_profile::PLATFORM_PROFILE_PATH@, read)
            && active_name_of(read, r);
    platform_profile_round_trip(name, read->Ok_0, r);
}

proof fn lemma_join_pieces(s: Seq<char>)
    ensures
        join(pieces(s, false), "\n"@) == s,
    decreases s.len(),
{
    reveal_strlit("\n");
    crate::text::lemma_pieces_nonempty(s, false);
    if s.len() == 0 {
        assert(pieces(s, false) =~= seq![Seq::<char>::empty()]);
    } else {
        let t = s.drop_last();
        let p = pieces(t, false);
        lemma_join_pieces(t);
        crate::text::lemma_pieces_nonempty(t, false);
        let q = pieces(s, false);
        if s.last() == '\n' {
            assert(q == p.push(Seq::<char>::empty()));
            assert(q.drop_last() =~= p);
            assert(join(q, "\n"@) =~= s);
        } else {
            assert(q == p.update(p.len() - 1, p.last().push(s.last())));
            if p.len() == 1 {
                assert(join(q, "\n"@) =~= s);
            } else {
                assert(q.drop_last() =~= p.drop_last());
                assert(join(p, "\n"@) == join(p.drop_last(), "\n"@) + "\n"@ + p.last());
                assert(join(q, "\n"@) == join(p.drop_last(), "\n"@) + "\n"@ + p.last().push(
                    s.last(),
                ));
                assert(s =~= t.push(s.last()));
                assert(join(q, "\n"@) =~= s);
            }
        }
    }
}

proof fn lemma_pieces_last_nonempty(s: Seq<char>)
    requires
        s.len() > 0,
        s.last() != '\n',
    ensures
        pieces(s, false).last().len() > 0,
{
    crate::text::lemma_pieces_nonempty(s.drop_last(), false);
}

proof fn lemma_pieces_no_cr(s: Seq<char>)
    requires
        forall|i: int| 0 <= i < s.len() ==> s[i] != '\r',
    ensures
        forall|k: int| 0 <= k < pieces(s, false).len() ==> forall|i: int|
            0 <= i < #[trigger] pieces(s, false)[k].len() ==> pieces(s, false)[k][i] != '\r',
    decreases s.len(),
{
    if s.len() > 0 {
        lemma_pieces_no_cr(s.drop_last());
        crate::text::lemma_pieces_nonempty(s.drop_last(), false);
    }
}

proof fn lemma_pieces_single(x: Seq<char>)
    requires
        forall|i: int| 0 <= i < x.len() ==> x[i] != '\n',
    ensures
        pieces(x, false) == seq![x],
    decreases x.len(),
{
    if x.len() == 0 {
        assert(x =~= Seq::<char>::empty());
    } else {
        let y = x.drop_last();
        lemma_pieces_single(y);
        let p = pieces(y, false);
        assert(x.last() == x[x.len() - 1]);
        assert(!is_sep(x.last(), false));
        assert(pieces(x, false) == p.update(p.len() - 1, p.last().push(x.last())));
        assert(p.last() == y);
        assert(y.push(x.last()) =~= x);
        assert(p.update(0, x) =~= seq![x]);
    }
}

proof fn lemma_pieces_after_newline(a: Seq<char>, x: Seq<char>)
    requires
        forall|i: int| 0 <= i < x.len() ==> x[i] != '\n',
    ensures
        pieces(a + seq!['\n'] + x, false) == pieces(a, false).push(x),
    decreases x.len(),
{
    let s = a + seq!['\n'] + x;
    if x.len() == 0 {
        assert(s.drop_last() =~= a);
        assert(s.last() == '\n');
        assert(x =~= Seq::<char>::empty());
        assert(pieces(s, false) == pieces(a, false).push(Seq::<char>::empty()));
    } else {
        let y = x.drop_last();
        lemma_pieces_after_newline(a, y);
        assert(s.drop_last() =~= a + seq!['\n'] + y);
        assert(s.last() == x.last());
        let p = pieces(a + seq!['\n'] + y, false);
        assert(p == pieces(a, false).push(y));
        assert(x.last() == x[x.len() - 1]);
        assert(!is_sep(s.last(), false));
        assert(pieces(s, false) == p.update(p.len() - 1, p.last().push(s.last())));
        assert(p.last() == y);
        assert(y.push(x.last()) =~= x);
        assert(p.update(p.len() - 1, x) =~= pieces(a, false).push(x));
    }
}

proof fn lemma_pieces_of_join(m: Seq<Seq<char>>)
    requires
        m.len() > 0,
        forall|k: int, i: int| 0 <= k < m.len() && 0 <= i < m[k].len() ==> m[k][i] != '\n',
    ensures
        pieces(join(m, "\n"@), false) == m,
    decreases m.len(),
{
    reveal_strlit("\n");
    if m.len() == 1 {
        lemma_pieces_single(m[0]);
        assert(seq![m[0]] =~= m);
    } else {
        lemma_pieces_of_join(m.drop_last());
        assert(forall|i: int| 0 <= i < m.last().len() ==> m.last()[i] != '\n');
        lemma_pieces_after_newline(join(m.drop_last(), "\n"@), m.last());
        assert("\n"@ =~= seq!['\n']);
        assert(m.drop_last().push(m.last()) =~= m);
    }
}

proof fn lemma_pieces_no_newline(s: Seq<char>)
    ensures
        forall|k: int, i: int|
            0 <= k < pieces(s, false).len() && 0 <= i < pieces(s, false)[k].len() ==> pieces(
                s,
                false,
            )[k][i] != '\n',
    decreases s.len(),
{
    if s.len() > 0 {
        lemma_pieces_no_newline(s.drop_last());
        crate::text::lemma_pieces_nonempty(s.drop_last(), false);
    }
}

/// Redacting a redacted line changes nothing; a redacted line keeps the
/// line's freedom from newlines and `\r`, and is empty only if the line was.
proof fn lemma_redact_line(l: Seq<char>)
    ensures
        redact_line(redact_line(l)) == redact_line(l),
        (forall|i: int| 0 <= i < l.len() ==> l[i] != '\n' && l[i] != '\r') ==> forall|i: int|
            0 <= i < redact_line(l).len() ==> redact_line(l)[i] != '\n' && redact_line(l)[i] != '\r',
        l.len() > 0 ==> redact_line(l).len() > 0,
{
    reveal_strlit("=[REDACTED]");
    crate::text::lemma_first_index_of(l, '=');
    match crate::text::first_index_of(l, '=') {
        Some(i) => {
            let key = l.subrange(0, i);
            if crate::evidence::sensitive_key(key) {
                let out = key + "=[REDACTED]"@;
                assert(out[i] == '=');
                assert forall|j: int| 0 <= j < i implies out[j] != '=' by {
                    assert(out[j] == l[j]);
                }
                crate::text::lemma_first_index_of_unique(out, '=', i);
                assert(out.subrange(0, i) =~= key);
            }
        },
        None => {},
    }
}

/// Redaction is idempotent: redacting redacted text gives it back, for
/// text without `\r` that is not several lines ending in an empty one (on
/// such text `lines` drops the trailing empty line, or a `\r`, on the second
/// pass: `"x\n\n"` redacts to `"x\n"`, which redacts to `"x"`).
pub proof fn redaction_is_idempotent(raw: Seq<char>)
    requires
        forall|i: int| 0 <= i < raw.len() ==> raw[i] != '\r',
        lines(raw).len() < 2 || lines(raw).last().len() > 0,
    ensures
        redacted(redacted(raw)) == redacted(raw),
{
    let ls = lines(raw);
    let m = ls.map_values(|l: Seq<char>| redact_line(l));
    let p = pieces(raw, false);
    crate::text::lemma_pieces_nonempty(raw, false);
    lemma_pieces_no_cr(raw);
    lemma_pieces_no_newline(raw);
    assert forall|k: int| 0 <= k < p.len() implies strip_cr(#[trigger] p[k]) == p[k] by {
        if p[k].len() > 0 {
            assert(p[k][p[k].len() - 1] != '\r');
        }
    }
    // every line of `raw` is a piece of it
    assert(forall|k: int| 0 <= k < ls.len() ==> #[trigger] ls[k] == p[k]);
    assert forall|k: int| 0 <= k < m.len() implies redact_line(#[trigger] m[k]) == m[k] by {
        lemma_redact_line(ls[k]);
    }
    if m.len() == 0 || (m.len() == 1 && ls[0].len() == 0) {
        if m.len() == 1 {
            lemma_redact_line(ls[0]);
            assert(redact_line(ls[0]) =~= Seq::<char>::empty());
        }
        assert(redacted(raw) =~= Seq::<char>::empty());
        assert(pieces(Seq::<char>::empty(), false) =~= seq![Seq::<char>::empty()]);
        assert(lines(Seq::<char>::empty()) =~= Seq::<Seq<char>>::empty());
    } else {
        assert forall|k: int, i: int| 0 <= k < m.len() && 0 <= i < m[k].len() implies m[k][i]
            != '\n' && m[k][i] != '\r' by {
            lemma_redact_line(ls[k]);
        }
        lemma_redact_line(ls.last());
        assert(m.last().len() > 0);
        let t = join(m, "\n"@);
        assert(redacted(raw) == t);
        lemma_pieces_of_join(m);
        let q = pieces(t, false);
        assert forall|k: int| 0 <= k < q.len() implies strip_cr(#[trigger] q[k]) == q[k] by {
            if q[k].len() > 0 {
                assert(q[k][q[k].len() - 1] != '\r');
            }
        }
        assert(lines(t) =~= m);
        assert(m.map_values(|l: Seq<char>| redact_line(l)) =~= m);
    }
}

/// Text in which no line is an identifying `KEY=value` comes back from
/// redaction unchanged (for text without `\r` that does not end in a
/// newline, which `lines` would not give back).
pub proof fn redaction_keeps_text_without_identifying_fields(raw: Seq<char>)
    requires
        forall|i: int| 0 <= i < raw.len() ==> raw[i] != '\r',
        raw.len() == 0 || raw.last() != '\n',
        forall|i: int| 0 <= i < lines(raw).len() ==> redact_line(#[trigger] lines(raw)[i])
            == lines(raw)[i],
    ensures
        redacted(raw) == raw,
{
    let p = pieces(raw, false);
    crate::text::lemma_pieces_nonempty(raw, false);
    lemma_pieces_no_cr(raw);
    lemma_join_pieces(raw);
    assert forall|k: int| 0 <= k < p.len() implies strip_cr(#[trigger] p[k]) == p[k] by {
        if p[k].len() > 0 {
            assert(p[k][p[k].len() - 1] != '\r');
        }
    }
    if raw.len() == 0 {
        assert(p =~= seq![Seq::<char>::empty()]);
        assert(lines(raw) =~= Seq::<Seq<char>>::empty());
        assert(redacted(raw) =~= raw);
    } else {
        lemma_pieces_last_nonempty(raw);
        assert(lines(raw) =~= p);
        assert(lines(raw).map_values(|l: Seq<char>| redact_line(l)) =~= p);
    }
}

/// `set_profile` succeeds only on a validated name: it answers `Ok` only when the backend's own listing names the profile, it is not
/// known to be unsupported, and the backend's write of exactly that name
/// succeeded; an invalid or known-unsupported name is refused on the
/// listing the backend gave.
pub proof fn daemon_sets_only_validated_names<B: PowerProfilesBackend>(
    d: PowerProfilesDaemon<B>,
    profile: Seq<char>,
    r: Result<(), ProfileError>,
)
    requires
        d.profile_set_result(profile, r),
    ensures
        exists|listing: Result<Vec<ProfileInfo>, BackendError>|
            #[trigger] d.backend().profiles_result(listing) && (r is Ok ==> writes_profile(
                listing,
                profile,
            ) && exists|written: Result<(), BackendError>|
                #[trigger] d.backend().set_result(profile, written) && written is Ok) && ((r matches Err(
                ProfileError::InvalidProfile { .. },
            )) ==> (listing matches Ok(ps) && find_named(ps@, profile) is None)) && ((r matches Err(
                ProfileError::KnownUnsupportedProfile { .. },
            )) ==> (listing matches Ok(ps) && find_named(ps@, profile) matches Some(p)
                && p.known_unsupported)),
{
    let listing = choose|listing: Result<Vec<ProfileInfo>, BackendError>|
        #[trigger] d.backend().profiles_result(listing) && if writes_profile(listing, profile) {
            exists|written: Result<(), BackendError>|
                #[trigger] d.backend().set_result(profile, written) && r == write_outcome(written)
        } else {
            set_check_of(listing, profile, r)
        };
    if writes_profile(listing, profile) {
        let written = choose|written: Result<(), BackendError>|
            #[trigger] d.backend().set_result(profile, written) && r == write_outcome(written);
        assert(d.backend().set_result(profile, written) && r == write_outcome(written));
        assert(r is Ok ==> written is Ok);
    } else {
        assert(set_check_of(listing, profile, r));
        assert(!(r is Ok));
    }
    assert(d.backend().profiles_result(listing));
}

/// Through a daemon over a backend that failed to connect, every operation
/// reports the connection's own error.
pub proof fn failed_backend_through_daemon(
    d: PowerProfilesDaemon<FailedBackend>,
    names: CapabilityState<Vec<String>>,
    current: CapabilityState<ProfileStatus>,
    profile: Seq<char>,
    set: Result<(), ProfileError>,
)
    requires
        d.names_result(names),
        d.current_result(current),
        d.profile_set_result(profile, set),
    ensures
        names == backend_error_state::<Vec<String>>(d.backend().0),
        current == backend_error_state::<ProfileStatus>(d.backend().0),
        set == Err::<(), ProfileError>(profile_error_of(d.backend().0)),
{
}

/// The first CPU-time reading of a provider with no baseline — as
/// `GenericLinux::new` makes it — is never `Supported`.
pub proof fn fresh_provider_first_cpu_sample_unknown<R: SysfsReader, C: CommandRunner>(
    p: GenericLinux<R, C>,
    kept: Option<CpuStatSample>,
    r: CapabilityState<CpuTimeDelta>,
)
    requires
        p.cpu_history() is None,
        exists|read: Result<String, IoError>| cpu_usage_step(p.cpu_history(), read) == (kept, r),
    ensures
        !(r is Supported),
{
}

/// The first poll of a RAPL backend with no baseline — as
/// `RaplPowerBackend::new` makes it — is never `Supported`.
pub proof fn fresh_rapl_first_poll_unknown<R: SysfsReader>(
    b: RaplPowerBackend<R>,
    now_ns: u128,
    kept: Option<(u64, u128)>,
    r: CapabilityState<PackagePower>,
)
    requires
        b.last_sample() is None,
        crate::power_draw::poll_result(b.reader(), b.last_sample(), now_ns, kept, r),
    ensures
        !(r is Supported),
{
    let (read, range_read) = choose|read: Result<String, IoError>, range_read: Result<String, IoError>|
        #[trigger] poll_with(b.reader(), b.last_sample(), now_ns, kept, r, read, range_read);
    assert(poll_with(b.reader(), b.last_sample(), now_ns, kept, r, read, range_read));
}

/// A poll measures from the previous sample over the time since it: when
/// the counter read gives a value no lower than the previous one and the
/// clock has moved on, the answer is the energy difference over exactly
/// `now_ns` minus the previous sample's time, and this read becomes the
/// next baseline.
pub proof fn poll_measures_since_the_previous_sample<R: SysfsReader>(
    b: RaplPowerBackend<R>,
    prev_uj: u64,
    at_ns: u128,
    now_ns: u128,
    now_uj: u64,
    kept: Option<(u64, u128)>,
    r: CapabilityState<PackagePower>,
    read: Result<String, IoError>,
    range_read: Result<String, IoError>,
)
    requires
        b.last_sample() == Some((prev_uj, at_ns)),
        poll_with(b.reader(), b.last_sample(), now_ns, kept, r, read, range_read),
        energy_reading_of(read) == Ok::<u64, CapabilityState<PackagePower>>(now_uj),
        now_ns > at_ns,
        now_uj >= prev_uj,
    ensures
        r == CapabilityState::Supported(
            PackagePower { energy_uj: (now_uj - prev_uj) as u64, elapsed_ns: (now_ns - at_ns) as u128 },
        ),
        kept == Some((now_uj, now_ns)),
{
}

/// Over a backend that gives one listing, the names `list_profiles`
/// answers are the names of the entries `list_profile_details` answers, in
/// the same order and the same state.
pub proof fn listed_names_are_the_detailed_names<B: PowerProfilesBackend>(
    d: PowerProfilesDaemon<B>,
    listing: Result<Vec<ProfileInfo>, BackendError>,
    names: CapabilityState<Vec<String>>,
    details: CapabilityState<Vec<ProfileInfo>>,
)
    requires
        forall|l: Result<Vec<ProfileInfo>, BackendError>|
            #[trigger] d.backend().profiles_result(l) ==> l == listing,
        d.names_result(names),
        d.details_result(details),
    ensures
        names_state_of(details, names),
{
}

/// Setting the charge limit reports the one write of `health_mode` as it
/// went: `Ok` exactly when that write succeeded, so a missing driver
/// (`NotFound`) is `Unavailable`, a refused write `Denied`, and any other
/// failure `Failed` with its message — never a success.
pub proof fn charge_limit_set_reports_its_write<R: SysfsReader>(
    b: AcerWmiBatteryBackend<R>,
    enabled: bool,
    r: Result<(), BatteryLimitError>,
)
    requires
        exists|written: Result<(), IoError>|
            #[trigger] b.reader().write_result(HEALTH_MODE_PATH@, flag_text(enabled), written) && r
                == limit_write_outcome(written),
    ensures
        exists|written: Result<(), IoError>|
            #[trigger] b.reader().write_result(HEALTH_MODE_PATH@, flag_text(enabled), written) && (r is Ok
                <==> written is Ok) && (written == Err::<(), IoError>(IoError::NotFound) ==> r == Err::<
                (),
                BatteryLimitError,
            >(BatteryLimitError::Unavailable)) && (written == Err::<(), IoError>(
                IoError::PermissionDenied,
            ) ==> r == Err::<(), BatteryLimitError>(BatteryLimitError::Denied)) && (forall|m: String|
                written == Err::<(), IoError>(IoError::Other(m)) ==> r == Err::<(), BatteryLimitError>(
                    BatteryLimitError::Failed(m),
                )),
{
    let written = choose|written: Result<(), IoError>|
        #[trigger] b.reader().write_result(HEALTH_MODE_PATH@, flag_text(enabled), written) && r
            == limit_write_outcome(written);
    assert(b.reader().write_result(HEALTH_MODE_PATH@, flag_text(enabled), written));
}

/// Starting or stopping calibration reports the one write of
/// `calibration_mode` as it went: `Ok` exactly when that write succeeded, so
/// a missing driver (`NotFound`) is `Unavailable`, a refused write `Denied`,
/// and any other failure `Failed` with its message — never a success.
pub proof fn calibration_set_reports_its_write<R: SysfsReader>(
    b: AcerWmiBatteryBackend<R>,
    enabled: bool,
    r: Result<(), CalibrationError>,
)
    requires
        exists|written: Result<(), IoError>|
            #[trigger] b.reader().write_result(CALIBRATION_MODE_PATH@, flag_text(enabled), written) && r
                == calibration_write_outcome(written),
    ensures
        exists|written: Result<(), IoError>|
            #[trigger] b.reader().write_result(CALIBRATION_MODE_PATH@, flag_text(enabled), written) && (r
                is Ok <==> written is Ok) && (written == Err::<(), IoError>(IoError::NotFound) ==> r
                == Err::<(), CalibrationError>(CalibrationError::Unavailable)) && (written == Err::<
                (),
                IoError,
            >(IoError::PermissionDenied) ==> r == Err::<(), CalibrationError>(CalibrationError::Denied))
                && (forall|m: String|
                written == Err::<(), IoError>(IoError::Other(m)) ==> r == Err::<(), CalibrationError>(
                    CalibrationError::Failed(m),
                )),
{
    let written = choose|written: Result<(), IoError>|
        #[trigger] b.reader().write_result(CALIBRATION_MODE_PATH@, flag_text(enabled), written) && r
            == calibration_write_outcome(written);
    assert(b.reader().write_result(CALIBRATION_MODE_PATH@, flag_text(enabled), written));
}

/// A D-Bus error is an authorization failure exactly when its text names
/// one of `AccessDenied`, `AuthFailed`, `NotAuthorized` or
/// `InteractiveAuthorizationRequired`; otherwise a name with no owner
/// (`ServiceUnknown`, `NameHasNoOwner`) is `Unavailable`, and anything else
/// is `Other` with the text unchanged.
pub proof fn bus_errors_classify_by_their_markers(message: Seq<char>, r: BackendError)
    requires
        denial_text(message) ==> r == BackendError::Denied,
        !denial_text(message) && absence_text(message) ==> r == BackendError::Unavailable,
        !denial_text(message) && !absence_text(message) ==> (r matches BackendError::Other(m) && m@
            == message),
    ensures
        (r is Denied) <==> (crate::text::contains_seq(message, "AccessDenied"@)
            || crate::text::contains_seq(message, "AuthFailed"@) || crate::text::contains_seq(
            message,
            "NotAuthorized"@,
        ) || crate::text::contains_seq(message, "InteractiveAuthorizationRequired"@)),
        (r is Unavailable) <==> (!(r is Denied) && (crate::text::contains_seq(message, "ServiceUnknown"@)
            || crate::text::contains_seq(message, "NameHasNoOwner"@))),
        r is Other ==> r->Other_0@ == message,
{
}

/// A `Profiles` entry is a placeholder exactly when its `PlatformDriver`
/// is `placeholder`, and known to be unsupported exactly when it is
/// `performance` backed by the real ACPI `platform_profile` driver; an
/// entry without a `Profile` name is refused.
pub proof fn profile_entries_mark_placeholders_by_their_driver(
    profile: Option<String>,
    platform_driver: Option<String>,
    r: Result<ProfileInfo, BackendError>,
)
    requires
        match profile_entry_of(opt_text(profile), opt_text(platform_driver)) {
            Some((name, placeholder, known_unsupported)) => r matches Ok(info) && info.name@ == name
                && info.is_placeholder == placeholder && info.known_unsupported == known_unsupported,
            None => r is Err,
        },
    ensures
        r is Ok <==> profile is Some,
        r is Ok ==> (r->Ok_0.is_placeholder <==> opt_text(platform_driver) == Some("placeholder"@)),
        r is Ok ==> (r->Ok_0.known_unsupported <==> (r->Ok_0.name@ == "performance"@ && opt_text(
            platform_driver,
        ) == Some("platform_profile"@))),
        r is Ok ==> opt_text(profile) == Some(r->Ok_0.name@),
{
}

/// `diagnose` prints an evidence line under every metric that has
/// evidence, whatever its state, except an `Unsupported` one: the line names
/// the source and the value read there (or that none was read).
pub proof fn evidence_lines_are_omitted_only_for_unsupported<T>(
    state: CapabilityState<T>,
    evidence: Option<Evidence>,
    r: Option<String>,
)
    requires
        opt_text(r) == evidence_line_of(state, evidence),
    ensures
        (r is None) <==> (evidence is None || state is Unsupported),
        evidence is Some && !(state is Unsupported) ==> opt_text(r) == Some(
            "  evidence: "@ + evidence->Some_0.source@ + match evidence->Some_0.raw_value {
                Some(v) => " = "@ + v@,
                None => " (no value read)"@,
            },
        ),
{
}

/// Writing the ACPI platform profile reports the one write of
/// `platform_profile` as it went: `Ok` exactly when that write succeeded, a
/// missing node `Unavailable`, a refused write `Denied`, any other failure
/// `Other` with its message verbatim (the EIO `performance` meets).
pub proof fn platform_profile_write_reports_its_write(
    written: Result<(), IoError>,
    r: Result<(), BackendError>,
)
    requires
        r == crate::power_profile::platform_write_outcome(written),
    ensures
        r is Ok <==> written is Ok,
        written == Err::<(), IoError>(IoError::NotFound) ==> r == Err::<(), BackendError>(
            BackendError::Unavailable,
        ),
        written == Err::<(), IoError>(IoError::PermissionDenied) ==> r == Err::<(), BackendError>(
            BackendError::Denied,
        ),
        forall|m: String|
            written == Err::<(), IoError>(IoError::Other(m)) ==> r == Err::<(), BackendError>(
                BackendError::Other(m),
            ),
{
}

/// Through the daemon, the answer to a write is the backend's answer: `Ok`
/// exactly when the backend's write succeeded, and each failure kept as
/// what it was (`Unavailable`, `Denied`, or a message verbatim).
pub proof fn daemon_reports_the_backends_write(written: Result<(), BackendError>, r: Result<(), ProfileError>)
    requires
        r == write_outcome(written),
    ensures
        r is Ok <==> written is Ok,
        written == Err::<(), BackendError>(BackendError::Unavailable) ==> r == Err::<(), ProfileError>(
            ProfileError::BackendUnavailable,
        ),
        written == Err::<(), BackendError>(BackendError::Denied) ==> r == Err::<(), ProfileError>(
            ProfileError::BackendDenied,
        ),
        forall|m: String|
            written == Err::<(), BackendError>(BackendError::Other(m)) ==> r == Err::<(), ProfileError>(
                ProfileError::BackendFailed(m),
            ),
{
}

/// Reading the charge limit: a trimmed `1` is on, a trimmed `0` is off,
/// any other text (the driver's `-1` sentinel among it) is `Unknown`; a
/// missing node is `Unsupported`, a refused read `RequiresPrivilege`, any
/// other failure `Unknown`.
pub proof fn charge_limit_read_meanings(read: Result<String, IoError>, r: CapabilityState<bool>)
    requires
        r == health_mode_of(read),
    ensures
        read == Err::<String, IoError>(IoError::NotFound) ==> r is Unsupported,
        read == Err::<String, IoError>(IoError::PermissionDenied) ==> r is RequiresPrivilege,
        read matches Err(IoError::Other(_)) ==> r is Unknown,
        read is Ok ==> (r == CapabilityState::Supported(true) <==> trim(read->Ok_0@) == "1"@),
        read is Ok ==> (r == CapabilityState::Supported(false) <==> trim(read->Ok_0@) == "0"@),
        read is Ok ==> (r is Supported || r is Unknown),
{
    reveal_strlit("0");
    reveal_strlit("1");
    assert("0"@[0] != "1"@[0]);
    assert("0"@ != "1"@);
}

/// Reading calibration mode: a trimmed `1` is on, a trimmed `0` is off,
/// any other text is `Unknown`; a missing node is `Unsupported`, a refused
/// read `RequiresPrivilege`, any other failure `Unknown`.
pub proof fn calibration_read_meanings(read: Result<String, IoError>, r: CapabilityState<bool>)
    requires
        r == calibration_mode_of(read),
    ensures
        read == Err::<String, IoError>(IoError::NotFound) ==> r is Unsupported,
        read == Err::<String, IoError>(IoError::PermissionDenied) ==> r is RequiresPrivilege,
        read matches Err(IoError::Other(_)) ==> r is Unknown,
        read is Ok ==> (r == CapabilityState::Supported(true) <==> trim(read->Ok_0@) == "1"@),
        read is Ok ==> (r == CapabilityState::Supported(false) <==> trim(read->Ok_0@) == "0"@),
        read is Ok ==> (r is Supported || r is Unknown),
{
    reveal_strlit("0");
    reveal_strlit("1");
    assert("0"@[0] != "1"@[0]);
    assert("0"@ != "1"@);
}

/// The current profile: a refused listing or read is `RequiresPrivilege`,
/// a missing backend `Unsupported`, any other failure `Unknown`; otherwise
/// the active name, hardware-dependent exactly when the listing's entry of
/// that name is a placeholder.
pub proof fn current_profile_meanings(
    listing: Result<Vec<ProfileInfo>, BackendError>,
    active: Result<String, BackendError>,
    r: CapabilityState<ProfileStatus>,
)
    requires
        r == current_profile_of(listing, active),
    ensures
        listing == Err::<Vec<ProfileInfo>, BackendError>(BackendError::Denied) ==> r is RequiresPrivilege,
        listing == Err::<Vec<ProfileInfo>, BackendError>(BackendError::Unavailable) ==> r is Unsupported,
        listing matches Err(BackendError::Other(_)) ==> r is Unknown,
        listing is Ok && active == Err::<String, BackendError>(BackendError::Denied) ==> r is RequiresPrivilege,
        listing is Ok && active == Err::<String, BackendError>(BackendError::Unavailable) ==> r is Unsupported,
        (listing is Ok && (active matches Err(BackendError::Other(_)))) ==> r is Unknown,
        listing is Ok && active is Ok ==> (r is Supported || r is HardwareDependent),
        listing is Ok && active is Ok ==> (r is HardwareDependent <==> (find_named(
            listing->Ok_0@,
            active->Ok_0@,
        ) is Some && find_named(listing->Ok_0@, active->Ok_0@)->Some_0.is_placeholder)),
        listing is Ok && active is Ok && r is Supported ==> r->Supported_0.name == active->Ok_0
            && r->Supported_0.hardware_backed,
        listing is Ok && active is Ok && r is HardwareDependent ==> r->HardwareDependent_0.name
            == active->Ok_0 && !r->HardwareDependent_0.hardware_backed,
{
}

} // verus!
