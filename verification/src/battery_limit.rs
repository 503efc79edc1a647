//! Battery charge limit control: reads/writes
//! `/sys/bus/wmi/drivers/acer-wmi-battery/health_mode`, exposed only by the
//! out-of-tree `acer-wmi-battery` driver. The driver is never loaded by this
//! library, so absence of the node is the default state.

use vstd::prelude::*;
use crate::capability::CapabilityState;
use crate::sysfs::{IoError, SysfsReader};
use crate::text::{chars_eq_str, chars_of, trim, trim_chars};

verus! {

pub const HEALTH_MODE_PATH: &'static str = "/sys/bus/wmi/drivers/acer-wmi-battery/health_mode";

#[derive(Debug, Clone, PartialEq)]
pub enum BatteryLimitError {
    /// The driver isn't loaded — `health_mode` doesn't exist.
    Unavailable,
    /// The write was rejected for lack of permission.
    Denied,
    /// Any other IO failure; the message is reported verbatim.
    Failed(String),
}

/// `Send + Sync` so a long-lived instance can be shared with a background
/// polling thread.
pub trait BatteryLimitProvider: Send + Sync {
    /// `true` when health mode (the ~80% charge cap) is enabled.
    fn health_mode(&self) -> CapabilityState<bool>;

    fn set_health_mode(&self, enabled: bool) -> Result<(), BatteryLimitError>;
}

pub open spec fn limit_error_of(err: IoError) -> BatteryLimitError {
    match err {
        IoError::NotFound => BatteryLimitError::Unavailable,
        IoError::PermissionDenied => BatteryLimitError::Denied,
        IoError::Other(msg) => BatteryLimitError::Failed(msg),
    }
}

pub open spec fn limit_error_state<T>(err: BatteryLimitError) -> CapabilityState<T> {
    match err {
        BatteryLimitError::Unavailable => CapabilityState::Unsupported,
        BatteryLimitError::Denied => CapabilityState::RequiresPrivilege,
        BatteryLimitError::Failed(_) => CapabilityState::Unknown,
    }
}

/// A `0`/`1` driver flag: `0` and `1` (after trimming) are the two values,
/// anything else — including the driver's `-1` "not available on this
/// battery" sentinel — is `Unknown`.
pub open spec fn driver_flag_of(raw: Seq<char>) -> CapabilityState<bool> {
    if trim(raw) == "0"@ {
        CapabilityState::Supported(false)
    } else if trim(raw) == "1"@ {
        CapabilityState::Supported(true)
    } else {
        CapabilityState::Unknown
    }
}

/// What a read of `health_mode` reports.
pub open spec fn health_mode_of(read: Result<String, IoError>) -> CapabilityState<bool> {
    match read {
        Ok(raw) => driver_flag_of(raw@),
        Err(e) => limit_error_state(limit_error_of(e)),
    }
}

/// The text written to a `0`/`1` driver flag.
pub open spec fn flag_text(enabled: bool) -> Seq<char> {
    if enabled {
        "1"@
    } else {
        "0"@
    }
}

pub fn classify_io_error(err: IoError) -> (r: BatteryLimitError)
    ensures
        r == limit_error_of(err),
{
    match err {
        IoError::NotFound => BatteryLimitError::Unavailable,
        IoError::PermissionDenied => BatteryLimitError::Denied,
        IoError::Other(msg) => BatteryLimitError::Failed(msg),
    }
}

pub fn error_as_capability_state<T>(err: BatteryLimitError) -> (r: CapabilityState<T>)
    ensures
        r == limit_error_state::<T>(err),
{
    match err {
        BatteryLimitError::Unavailable => CapabilityState::Unsupported,
        BatteryLimitError::Denied => CapabilityState::RequiresPrivilege,
        BatteryLimitError::Failed(_) => CapabilityState::Unknown,
    }
}

/// Parses the raw content of a `0`/`1` driver flag such as `health_mode`.
pub fn parse_health_mode(raw: &str) -> (r: CapabilityState<bool>)
    ensures
        r == driver_flag_of(raw@),
{
    let chars = chars_of(raw);
    let t = trim_chars(chars.as_slice());
    if chars_eq_str(t.as_slice(), "0") {
        CapabilityState::Supported(false)
    } else if chars_eq_str(t.as_slice(), "1") {
        CapabilityState::Supported(true)
    } else {
        CapabilityState::Unknown
    }
}

/// The health-mode state a read of `health_mode` yields.
pub fn health_mode_from_read(read: Result<String, IoError>) -> (r: CapabilityState<bool>)
    ensures
        r == health_mode_of(read),
{
    match read {
        Ok(raw) => parse_health_mode(raw.as_str()),
        Err(e) => error_as_capability_state(classify_io_error(e)),
    }
}

pub fn flag_content(enabled: bool) -> (r: &'static str)
    ensures
        r@ == flag_text(enabled),
{
    if enabled {
        "1"
    } else {
        "0"
    }
}

/// Real backend: the `acer-wmi-battery` driver's attributes.
pub struct AcerWmiBatteryBackend<R: SysfsReader> {
    sysfs: R,
}

impl<R: SysfsReader> AcerWmiBatteryBackend<R> {
    pub fn new(sysfs: R) -> (r: Self)
        ensures
            r.reader() == sysfs,
    {
        Self { sysfs }
    }

    pub closed spec fn reader(&self) -> R {
        self.sysfs
    }

    /// The reader, shared with the calibration-mode attribute of the same
    /// driver instance.
    pub fn sysfs(&self) -> (r: &R)
        ensures
            *r == self.reader(),
    {
        &self.sysfs
    }
}

/// What `set_health_mode` answers for its write.
pub open spec fn limit_write_outcome(written: Result<(), IoError>) -> Result<(), BatteryLimitError> {
    match written {
        Ok(()) => Ok(()),
        Err(e) => Err(limit_error_of(e)),
    }
}

impl<R: SysfsReader> BatteryLimitProvider for AcerWmiBatteryBackend<R> {
    /// Reads `health_mode`: `0`/`1` give the flag, a missing node is
    /// `Unsupported`, a permission error `RequiresPrivilege`, anything else
    /// `Unknown`.
    fn health_mode(&self) -> (r: CapabilityState<bool>)
        ensures
            exists|read: Result<String, IoError>|
                #[trigger] self.reader().read_result(HEALTH_MODE_PATH@, read) && health_mode_of(read)
                    == r,
    {
        let read = self.sysfs.read_to_string(HEALTH_MODE_PATH);
        let ghost seen = read;
        let r = health_mode_from_read(read);
        assert(self.reader().read_result(HEALTH_MODE_PATH@, seen) && health_mode_of(seen) == r);
        r
    }

    /// Writes `1` (enabled) or `0` (disabled) to `health_mode`; `Ok` exactly
    /// when that write succeeded — a failed write is reported, never assumed
    /// to have succeeded.
    fn set_health_mode(&self, enabled: bool) -> (r: Result<(), BatteryLimitError>)
        ensures
            exists|written: Result<(), IoError>|
                #[trigger] self.reader().write_result(HEALTH_MODE_PATH@, flag_text(enabled), written)
                    && r == limit_write_outcome(written) && (r is Ok <==> written is Ok) && (written
                    == Err::<(), IoError>(IoError::NotFound) ==> r == Err::<(), BatteryLimitError>(
                    BatteryLimitError::Unavailable,
                )) && (written == Err::<(), IoError>(IoError::PermissionDenied) ==> r == Err::<
                    (),
                    BatteryLimitError,
                >(BatteryLimitError::Denied)),
    {
        let written = self.sysfs.write_to_string(HEALTH_MODE_PATH, flag_content(enabled));
        let ghost w = written;
        let r = match written {
            Ok(()) => Ok(()),
            Err(err) => Err(classify_io_error(err)),
        };
        assert(self.reader().write_result(HEALTH_MODE_PATH@, flag_text(enabled), w) && r
            == limit_write_outcome(w));
        r
    }
}

} // verus!
