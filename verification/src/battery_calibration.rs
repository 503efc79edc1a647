//! Battery calibration mode control: reads/writes
//! `/sys/bus/wmi/drivers/acer-wmi-battery/calibration_mode`. Same driver as
//! the charge limit, but a separate trait: enabling calibration is a
//! maintenance operation with a real side effect (a full discharge and
//! recharge cycle), not a persistent setting.

use vstd::prelude::*;
use crate::battery_limit::{driver_flag_of, flag_content, flag_text, parse_health_mode, AcerWmiBatteryBackend};
use crate::capability::CapabilityState;
use crate::sysfs::{IoError, SysfsReader};

verus! {

pub const CALIBRATION_MODE_PATH: &'static str = "/sys/bus/wmi/drivers/acer-wmi-battery/calibration_mode";

#[derive(Debug, Clone, PartialEq)]
pub enum CalibrationError {
    /// The driver isn't loaded — `calibration_mode` doesn't exist.
    Unavailable,
    /// The write was rejected for lack of permission.
    Denied,
    /// Any other IO failure; the message is reported verbatim.
    Failed(String),
}

pub trait BatteryCalibrationProvider: Send + Sync {
    /// `true` when a calibration cycle is currently enabled, as the driver
    /// itself reports it.
    fn calibration_mode(&self) -> CapabilityState<bool>;

    fn set_calibration_mode(&self, enabled: bool) -> Result<(), CalibrationError>;
}

pub open spec fn calibration_error_of(err: IoError) -> CalibrationError {
    match err {
        IoError::NotFound => CalibrationError::Unavailable,
        IoError::PermissionDenied => CalibrationError::Denied,
        IoError::Other(msg) => CalibrationError::Failed(msg),
    }
}

pub open spec fn calibration_error_state<T>(err: CalibrationError) -> CapabilityState<T> {
    match err {
        CalibrationError::Unavailable => CapabilityState::Unsupported,
        CalibrationError::Denied => CapabilityState::RequiresPrivilege,
        CalibrationError::Failed(_) => CapabilityState::Unknown,
    }
}

/// What a read of `calibration_mode` reports.
pub open spec fn calibration_mode_of(read: Result<String, IoError>) -> CapabilityState<bool> {
    match read {
        Ok(raw) => driver_flag_of(raw@),
        Err(e) => calibration_error_state(calibration_error_of(e)),
    }
}

pub fn classify_io_error(err: IoError) -> (r: CalibrationError)
    ensures
        r == calibration_error_of(err),
{
    match err {
        IoError::NotFound => CalibrationError::Unavailable,
        IoError::PermissionDenied => CalibrationError::Denied,
        IoError::Other(msg) => CalibrationError::Failed(msg),
    }
}

pub fn error_as_capability_state<T>(err: CalibrationError) -> (r: CapabilityState<T>)
    ensures
        r == calibration_error_state::<T>(err),
{
    match err {
        CalibrationError::Unavailable => CapabilityState::Unsupported,
        CalibrationError::Denied => CapabilityState::RequiresPrivilege,
        CalibrationError::Failed(_) => CapabilityState::Unknown,
    }
}

/// Parses the raw `calibration_mode` content; same `0`/`1` shape as
/// `health_mode`.
pub fn parse_calibration_mode(raw: &str) -> (r: CapabilityState<bool>)
    ensures
        r == driver_flag_of(raw@),
{
    parse_health_mode(raw)
}

/// The calibration state a read of `calibration_mode` yields.
pub fn calibration_mode_from_read(read: Result<String, IoError>) -> (r: CapabilityState<bool>)
    ensures
        r == calibration_mode_of(read),
{
    match read {
        Ok(raw) => parse_calibration_mode(raw.as_str()),
        Err(e) => error_as_capability_state(classify_io_error(e)),
    }
}

/// What `set_calibration_mode` answers for its write.
pub open spec fn calibration_write_outcome(written: Result<(), IoError>) -> Result<(), CalibrationError> {
    match written {
        Ok(()) => Ok(()),
        Err(e) => Err(calibration_error_of(e)),
    }
}

impl<R: SysfsReader> BatteryCalibrationProvider for AcerWmiBatteryBackend<R> {
    /// Reads `calibration_mode` (see `calibration_mode_of`).
    fn calibration_mode(&self) -> (r: CapabilityState<bool>)
        ensures
            exists|read: Result<String, IoError>|
                #[trigger] self.reader().read_result(CALIBRATION_MODE_PATH@, read)
                    && calibration_mode_of(read) == r,
    {
        let read = self.sysfs().read_to_string(CALIBRATION_MODE_PATH);
        let ghost seen = read;
        let r = calibration_mode_from_read(read);
        assert(self.reader().read_result(CALIBRATION_MODE_PATH@, seen) && calibration_mode_of(seen)
            == r);
        r
    }

    /// Writes `1` (enabled) or `0` (disabled) to `calibration_mode`; `Ok`
    /// exactly when that write succeeded — a missing node is `Unavailable`, a
    /// refused write `Denied`, never reported as success.
    fn set_calibration_mode(&self, enabled: bool) -> (r: Result<(), CalibrationError>)
        ensures
            exists|written: Result<(), IoError>|
                #[trigger] self.reader().write_result(
                    CALIBRATION_MODE_PATH@,
                    flag_text(enabled),
                    written,
                ) && r == calibration_write_outcome(written) && (r is Ok <==> written is Ok) && (
                written == Err::<(), IoError>(IoError::NotFound) ==> r == Err::<(), CalibrationError>(
                    CalibrationError::Unavailable,
                )) && (written == Err::<(), IoError>(IoError::PermissionDenied) ==> r == Err::<
                    (),
                    CalibrationError,
                >(CalibrationError::Denied)),
    {
        let written = self.sysfs().write_to_string(CALIBRATION_MODE_PATH, flag_content(enabled));
        let ghost w = written;
        let r = match written {
            Ok(()) => Ok(()),
            Err(err) => Err(classify_io_error(err)),
        };
        assert(self.reader().write_result(CALIBRATION_MODE_PATH@, flag_text(enabled), w) && r
            == calibration_write_outcome(w));
        r
    }
}

} // verus!
