//! CPU package power draw from the RAPL-compatible `powercap` interface
//! (`/sys/class/powercap/intel-rapl:0/energy_uj`).
//!
//! `energy_uj` is a monotonically increasing microjoule counter, so power is
//! the energy consumed between two samples over the time between them. The
//! counter wraps at `max_energy_range_uj` (about 65.5 J on the target
//! machine, a couple of seconds of load); when it goes backwards the range
//! is read afresh and added back. The counter is root-only by default, which
//! reports `RequiresPrivilege`.
//!
//! A reading is reported as the exact pair (energy, elapsed time); the
//! application turns it into watts.

use vstd::prelude::*;
use std::time::{Duration, Instant};
use crate::capability::CapabilityState;
use crate::sysfs::{IoError, SysfsReader};
use crate::text::{chars_of, parse_u64, parse_u64_chars, trim, trim_chars};

verus! {

pub const CPU_PACKAGE_ENERGY_PATH: &'static str = "/sys/class/powercap/intel-rapl:0/energy_uj";

pub const CPU_PACKAGE_MAX_ENERGY_RANGE_PATH: &'static str =
    "/sys/class/powercap/intel-rapl:0/max_energy_range_uj";

#[verifier::external_type_specification]
#[verifier::external_body]
pub struct ExInstant(Instant);

/// `Instant::now()`: the current reading of the monotonic clock.
#[verifier::external_body]
fn instant_now() -> Instant {
    Instant::now()
}

/// `Instant::saturating_duration_since`: the time from `earlier` to `now`,
/// zero if `earlier` is later. Durations are opaque here, so nothing is
/// stated of the result.
#[verifier::external_body]
fn duration_between(now: Instant, earlier: Instant) -> Duration {
    now.saturating_duration_since(earlier)
}

/// `Duration::as_nanos`: the whole number of nanoseconds in `d`. Durations
/// are opaque here, so nothing is stated of the result.
#[verifier::external_body]
fn duration_nanos(d: Duration) -> u128 {
    d.as_nanos()
}

/// Average power over an interval: the energy consumed, in microjoules, and
/// the interval's length in nanoseconds (never zero). In watts this is
/// `energy_uj * 1000 / elapsed_ns`.
#[derive(Debug, Clone, Copy, PartialEq, Eq, Structural)]
pub struct PackagePower {
    pub energy_uj: u64,
    pub elapsed_ns: u128,
}

/// A successful counter read: its value and when it was taken, in
/// nanoseconds on the backend's clock.
#[derive(Clone, Copy)]
struct EnergySample {
    at_ns: u128,
    energy_uj: u64,
}

/// Average CPU package power since the previous call. The first call on a
/// fresh instance is always `Unknown`: there is no sample yet to measure
/// from (see `RaplPowerBackend::new` and `laws::fresh_rapl_first_poll_unknown`).
pub trait PowerDrawProvider: Send + Sync {
    fn cpu_package_power(&mut self) -> CapabilityState<PackagePower>;
}

/// What a read of the energy counter gives: its trimmed content as a `u64`,
/// or the state to report instead (permission denied: `RequiresPrivilege`;
/// no such zone: `Unsupported`; any other failure or malformed text:
/// `Unknown`).
pub open spec fn energy_reading_of(read: Result<String, IoError>) -> Result<
    u64,
    CapabilityState<PackagePower>,
> {
    match read {
        Err(IoError::PermissionDenied) => Err(CapabilityState::RequiresPrivilege),
        Err(IoError::NotFound) => Err(CapabilityState::Unsupported),
        Err(IoError::Other(_)) => Err(CapabilityState::Unknown),
        Ok(raw) => match parse_u64(trim(raw@)) {
            Some(v) => Ok(v),
            None => Err(CapabilityState::Unknown),
        },
    }
}

/// What a read of `max_energy_range_uj` gives: its trimmed content as a
/// `u64`, if it is one.
pub open spec fn range_of(read: Result<String, IoError>) -> Option<u64> {
    match read {
        Ok(raw) => parse_u64(trim(raw@)),
        Err(_) => None,
    }
}

/// Energy consumed between two counter values. Going forwards, the
/// difference; going backwards, the counter wrapped: the distance from the
/// previous value up to the range (none if the range is below it), plus the
/// new value. Without a range, or with a sum beyond `u64`, there is none.
pub open spec fn counter_delta(prev_uj: u64, now_uj: u64, range_uj: Option<u64>) -> Option<u64> {
    if now_uj >= prev_uj {
        Some((now_uj - prev_uj) as u64)
    } else {
        match range_uj {
            None => None,
            Some(range) => {
                let to_range: int = if range >= prev_uj {
                    range - prev_uj
                } else {
                    0
                };
                if to_range + now_uj <= u64::MAX {
                    Some((to_range + now_uj) as u64)
                } else {
                    None
                }
            },
        }
    }
}

/// Power between a previous counter value and a new one `elapsed_ns` later;
/// `range_uj` is what the range file gave, consulted only when the counter
/// went backwards. No elapsed time, or no energy difference, is `Unknown`.
pub open spec fn package_power_of(
    prev_uj: u64,
    now_uj: u64,
    elapsed_ns: u128,
    range_uj: Option<u64>,
) -> CapabilityState<PackagePower> {
    if elapsed_ns == 0 {
        CapabilityState::Unknown
    } else {
        match counter_delta(prev_uj, now_uj, range_uj) {
            Some(d) => CapabilityState::Supported(PackagePower { energy_uj: d, elapsed_ns }),
            None => CapabilityState::Unknown,
        }
    }
}

/// One poll: a counter read against the previous counter value (if any).
/// Without a previous value the result is `Unknown`.
pub open spec fn power_step(
    prev_uj: Option<u64>,
    read: Result<String, IoError>,
    elapsed_ns: u128,
    range_uj: Option<u64>,
) -> CapabilityState<PackagePower> {
    match energy_reading_of(read) {
        Err(state) => state,
        Ok(now_uj) => match prev_uj {
            None => CapabilityState::Unknown,
            Some(p) => package_power_of(p, now_uj, elapsed_ns, range_uj),
        },
    }
}

fn trimmed_u64(raw: &str) -> (r: Option<u64>)
    ensures
        r == parse_u64(trim(raw@)),
{
    let chars = chars_of(raw);
    let t = trim_chars(chars.as_slice());
    parse_u64_chars(t.as_slice())
}

/// Classifies a read of the energy counter (see `energy_reading_of`).
pub fn energy_from_read(read: Result<String, IoError>) -> (r: Result<
    u64,
    CapabilityState<PackagePower>,
>)
    ensures
        r == energy_reading_of(read),
{
    match read {
        Err(IoError::PermissionDenied) => Err(CapabilityState::RequiresPrivilege),
        Err(IoError::NotFound) => Err(CapabilityState::Unsupported),
        Err(IoError::Other(_)) => Err(CapabilityState::Unknown),
        Ok(raw) => match trimmed_u64(raw.as_str()) {
            Some(v) => Ok(v),
            None => Err(CapabilityState::Unknown),
        },
    }
}

/// The range a read of `max_energy_range_uj` gives (see `range_of`).
pub fn range_from_read(read: Result<String, IoError>) -> (r: Option<u64>)
    ensures
        r == range_of(read),
{
    match read {
        Ok(raw) => trimmed_u64(raw.as_str()),
        Err(_) => None,
    }
}

/// Energy consumed between two counter values (see `counter_delta`).
pub fn energy_delta(prev_uj: u64, now_uj: u64, range_uj: Option<u64>) -> (r: Option<u64>)
    ensures
        r == counter_delta(prev_uj, now_uj, range_uj),
{
    if now_uj >= prev_uj {
        Some(now_uj - prev_uj)
    } else {
        match range_uj {
            None => None,
            Some(range) => range.saturating_sub(prev_uj).checked_add(now_uj),
        }
    }
}

/// Power between two counter values (see `package_power_of`).
pub fn package_power(prev_uj: u64, now_uj: u64, elapsed_ns: u128, range_uj: Option<u64>) -> (r:
    CapabilityState<PackagePower>)
    ensures
        r == package_power_of(prev_uj, now_uj, elapsed_ns, range_uj),
{
    if elapsed_ns == 0 {
        return CapabilityState::Unknown;
    }
    match energy_delta(prev_uj, now_uj, range_uj) {
        Some(d) => CapabilityState::Supported(PackagePower { energy_uj: d, elapsed_ns }),
        None => CapabilityState::Unknown,
    }
}

/// The time from `earlier_ns` to `now_ns`, zero if `earlier_ns` is later.
pub open spec fn elapsed_between(now_ns: u128, earlier_ns: u128) -> u128 {
    if now_ns >= earlier_ns {
        (now_ns - earlier_ns) as u128
    } else {
        0
    }
}

/// The counter value of a sample, if there is one.
pub open spec fn sample_energy(sample: Option<(u64, u128)>) -> Option<u64> {
    match sample {
        Some((energy_uj, _)) => Some(energy_uj),
        None => None,
    }
}

/// The time since a sample was taken (zero without one).
pub open spec fn elapsed_since(sample: Option<(u64, u128)>, now_ns: u128) -> u128 {
    match sample {
        Some((_, at_ns)) => elapsed_between(now_ns, at_ns),
        None => 0,
    }
}

/// Whether a poll must read the counter's range: there is a previous value,
/// the new read is a value below it (the counter wrapped), and time passed.
pub open spec fn range_needed(prev_uj: Option<u64>, read: Result<String, IoError>, elapsed_ns: u128) -> bool {
    energy_reading_of(read) matches Ok(now_uj) && prev_uj matches Some(p) && now_uj < p && elapsed_ns
        != 0
}

/// One poll at `now_ns` as it went, against the previous sample `prev`
/// (counter value and time): `read` of `energy_uj`; `range_read` of
/// `max_energy_range_uj`, made exactly when the counter wrapped and time
/// passed; the answer `r`, which is `power_step` over the time since `prev`;
/// and the sample kept as the next baseline (this read at `now_ns` when it
/// gave a value, otherwise `prev`).
pub open spec fn poll_with<R: SysfsReader>(
    reader: R,
    prev: Option<(u64, u128)>,
    now_ns: u128,
    kept: Option<(u64, u128)>,
    r: CapabilityState<PackagePower>,
    read: Result<String, IoError>,
    range_read: Result<String, IoError>,
) -> bool {
    let elapsed_ns = elapsed_since(prev, now_ns);
    let prev_uj = sample_energy(prev);
    &&& reader.read_result(CPU_PACKAGE_ENERGY_PATH@, read)
    &&& range_needed(prev_uj, read, elapsed_ns) ==> reader.read_result(
        CPU_PACKAGE_MAX_ENERGY_RANGE_PATH@,
        range_read,
    )
    &&& r == power_step(
        prev_uj,
        read,
        elapsed_ns,
        if range_needed(prev_uj, read, elapsed_ns) {
            range_of(range_read)
        } else {
            None
        },
    )
    &&& kept == match energy_reading_of(read) {
        Ok(v) => Some((v, now_ns)),
        Err(_) => prev,
    }
}

/// What one poll at `now_ns` answers and keeps (see `poll_with`).
pub open spec fn poll_result<R: SysfsReader>(
    reader: R,
    prev: Option<(u64, u128)>,
    now_ns: u128,
    kept: Option<(u64, u128)>,
    r: CapabilityState<PackagePower>,
) -> bool {
    exists|read: Result<String, IoError>, range_read: Result<String, IoError>|
        #[trigger] poll_with(reader, prev, now_ns, kept, r, read, range_read)
}

/// Reads the CPU package energy through the generic RAPL-compatible
/// `powercap` sysfs interface. Sample times are nanoseconds since `origin`,
/// the moment the backend was made.
pub struct RaplPowerBackend<R: SysfsReader> {
    sysfs: R,
    origin: Instant,
    history: Option<EnergySample>,
}

impl<R: SysfsReader> RaplPowerBackend<R> {
    /// A backend over `sysfs`, with no sample yet.
    pub fn new(sysfs: R) -> (r: Self)
        ensures
            r.reader() == sysfs,
            r.last_sample() is None,
    {
        Self { sysfs, origin: instant_now(), history: None }
    }

    pub closed spec fn reader(&self) -> R {
        self.sysfs
    }

    /// The previous successful poll's counter value and time, if any.
    pub closed spec fn last_sample(&self) -> Option<(u64, u128)> {
        match self.history {
            Some(s) => Some((s.energy_uj, s.at_ns)),
            None => None,
        }
    }

    /// One poll taken at `now_ns` (nanoseconds on the same clock as earlier
    /// polls): reads the counter, measures from the previous successful poll
    /// (if any) over the time since it, and keeps this one as the next
    /// baseline. A failed or malformed read keeps the previous baseline.
    pub fn cpu_package_power_at(&mut self, now_ns: u128) -> (r: CapabilityState<PackagePower>)
        ensures
            final(self).reader() == old(self).reader(),
            poll_result(old(self).reader(), old(self).last_sample(), now_ns, final(self).last_sample(), r),
    {
        let read = self.sysfs.read_to_string(CPU_PACKAGE_ENERGY_PATH);
        let ghost seen = read;
        let ghost prev_sample = self.last_sample();
        let energy_uj = match energy_from_read(read) {
            Ok(v) => v,
            Err(state) => {
                assert(poll_with(
                    self.reader(),
                    prev_sample,
                    now_ns,
                    prev_sample,
                    state,
                    seen,
                    Err(IoError::NotFound),
                ));
                return state;
            },
        };
        let prev = self.history;
        self.history = Some(EnergySample { at_ns: now_ns, energy_uj });
        match prev {
            None => {
                assert(poll_with(
                    self.reader(),
                    prev_sample,
                    now_ns,
                    self.last_sample(),
                    CapabilityState::Unknown,
                    seen,
                    Err(IoError::NotFound),
                ));
                CapabilityState::Unknown
            },
            Some(p) => {
                let elapsed_ns = now_ns.saturating_sub(p.at_ns);
                assert(elapsed_ns == elapsed_since(prev_sample, now_ns));
                if energy_uj >= p.energy_uj || elapsed_ns == 0 {
                    let r = package_power(p.energy_uj, energy_uj, elapsed_ns, None);
                    assert(poll_with(
                        self.reader(),
                        prev_sample,
                        now_ns,
                        self.last_sample(),
                        r,
                        seen,
                        Err(IoError::NotFound),
                    ));
                    r
                } else {
                    let range_read = self.sysfs.read_to_string(CPU_PACKAGE_MAX_ENERGY_RANGE_PATH);
                    let ghost seen_range = range_read;
                    let range_uj = range_from_read(range_read);
                    let r = package_power(p.energy_uj, energy_uj, elapsed_ns, range_uj);
                    assert(range_needed(sample_energy(prev_sample), seen, elapsed_ns));
                    assert(poll_with(
                        self.reader(),
                        prev_sample,
                        now_ns,
                        self.last_sample(),
                        r,
                        seen,
                        seen_range,
                    ));
                    r
                }
            },
        }
    }
}

impl<R: SysfsReader> PowerDrawProvider for RaplPowerBackend<R> {
    /// One poll taken now (see `cpu_package_power_at`).
    /// The clock is read here, so the poll's time is whatever it gave: the
    /// answer is that of `cpu_package_power_at` at some `now_ns`.
    fn cpu_package_power(&mut self) -> (r: CapabilityState<PackagePower>)
        ensures
            final(self).reader() == old(self).reader(),
            exists|now_ns: u128|
                #[trigger] poll_result(
                    old(self).reader(),
                    old(self).last_sample(),
                    now_ns,
                    final(self).last_sample(),
                    r,
                ),
    {
        let now_ns = duration_nanos(duration_between(instant_now(), self.origin));
        self.cpu_package_power_at(now_ns)
    }
}

} // verus!
