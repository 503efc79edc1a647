use std::collections::{HashMap, VecDeque};
use std::sync::Mutex;
use std::time::Duration;

use nitroctl::battery_calibration::{BatteryCalibrationProvider, CalibrationError, CALIBRATION_MODE_PATH};
use nitroctl::battery_limit::{AcerWmiBatteryBackend, BatteryLimitError, BatteryLimitProvider, HEALTH_MODE_PATH};
use nitroctl::capability::CapabilityState;
use nitroctl::command::CommandRunner;
use nitroctl::evidence::{Evidence, EvidenceProvider};
use nitroctl::dmi::{detect_provider_kind, ProviderKind, DMI_PRODUCT_NAME_PATH};
use nitroctl::power_draw::{
    PackagePower, PowerDrawProvider, RaplPowerBackend, CPU_PACKAGE_ENERGY_PATH,
    CPU_PACKAGE_MAX_ENERGY_RANGE_PATH,
};
use nitroctl::power_profile::{
    AcerPlatformProfileBackend, BackendError, PowerProfileProvider, PowerProfilesBackend,
    PowerProfilesDaemon, ProfileError, ProfileInfo, ProfileStatus,
};
use nitroctl::provider::acer_nitro_v15::AcerNitroV15;
use nitroctl::provider::generic_linux::{BatteryFields, CpuTimeDelta, GenericLinux};
use nitroctl::sensor::{BatteryStatus, GpuKind, MemoryUsage, Rpm};
use nitroctl::sysfs::{IoError, SysfsReader};

enum Entry {
    Content(VecDeque<String>),
    PermissionDenied,
}

enum WriteFault {
    PermissionDenied,
    Failure(String),
}

/// In-memory sysfs: fixture contents, sequences, permission errors,
/// directory listings, and writes that later reads see.
#[derive(Default)]
struct MockSysfsReader {
    files: Mutex<HashMap<String, Entry>>,
    dirs: Mutex<HashMap<String, Vec<String>>>,
    write_faults: Mutex<HashMap<String, WriteFault>>,
}

impl MockSysfsReader {
    fn new() -> Self {
        Self::default()
    }

    fn set_content(&self, path: &str, content: &str) {
        self.set_sequence(path, vec![content.to_string()]);
    }

    fn set_sequence(&self, path: &str, contents: Vec<String>) {
        self.files.lock().unwrap().insert(path.to_string(), Entry::Content(contents.into()));
    }

    fn set_permission_denied(&self, path: &str) {
        self.files.lock().unwrap().insert(path.to_string(), Entry::PermissionDenied);
    }

    fn set_dir(&self, path: &str, entries: Vec<&str>) {
        self.dirs
            .lock()
            .unwrap()
            .insert(path.to_string(), entries.into_iter().map(|e| e.to_string()).collect());
    }

    fn set_write_permission_denied(&self, path: &str) {
        self.write_faults.lock().unwrap().insert(path.to_string(), WriteFault::PermissionDenied);
    }

    fn set_write_failure(&self, path: &str, message: &str) {
        self.write_faults
            .lock()
            .unwrap()
            .insert(path.to_string(), WriteFault::Failure(message.to_string()));
    }
}

impl SysfsReader for MockSysfsReader {
    fn read_to_string(&self, path: &str) -> Result<String, IoError> {
        let mut files = self.files.lock().unwrap();
        match files.get_mut(path) {
            Some(Entry::Content(queue)) => {
                if queue.len() > 1 {
                    Ok(queue.pop_front().unwrap())
                } else {
                    Ok(queue.front().cloned().unwrap())
                }
            }
            Some(Entry::PermissionDenied) => Err(IoError::PermissionDenied),
            None => Err(IoError::NotFound),
        }
    }

    fn read_dir(&self, path: &str) -> Result<Vec<String>, IoError> {
        self.dirs.lock().unwrap().get(path).cloned().ok_or(IoError::NotFound)
    }

    fn write_to_string(&self, path: &str, content: &str) -> Result<(), IoError> {
        match self.write_faults.lock().unwrap().get(path) {
            Some(WriteFault::PermissionDenied) => return Err(IoError::PermissionDenied),
            Some(WriteFault::Failure(m)) => return Err(IoError::Other(m.clone())),
            None => {}
        }
        self.set_content(path, content);
        Ok(())
    }
}

#[derive(Default)]
struct MockCommandRunner {
    outputs: Mutex<HashMap<(String, Vec<String>), String>>,
}

impl MockCommandRunner {
    fn new() -> Self {
        Self::default()
    }

    fn set_output(&self, program: &str, args: &[&str], output: &str) {
        self.outputs.lock().unwrap().insert(
            (program.to_string(), args.iter().map(|a| a.to_string()).collect()),
            output.to_string(),
        );
    }
}

impl CommandRunner for MockCommandRunner {
    fn run(&self, program: &str, args: &[&str]) -> Result<String, IoError> {
        let key = (program.to_string(), args.iter().map(|a| a.to_string()).collect());
        self.outputs.lock().unwrap().get(&key).cloned().ok_or(IoError::NotFound)
    }
}

fn watts(p: &PackagePower) -> f64 {
    (p.energy_uj as f64 / 1_000_000.0) / (p.elapsed_ns as f64 / 1_000_000_000.0)
}

// ---- battery limit ----

#[test]
fn health_mode_supported_true_when_file_reads_1() {
    let sysfs = MockSysfsReader::new();
    sysfs.set_content(HEALTH_MODE_PATH, "1\n");
    let backend = AcerWmiBatteryBackend::new(sysfs);

    assert_eq!(backend.health_mode(), CapabilityState::Supported(true));
}

#[test]
fn health_mode_supported_false_when_file_reads_0() {
    let sysfs = MockSysfsReader::new();
    sysfs.set_content(HEALTH_MODE_PATH, "0\n");
    let backend = AcerWmiBatteryBackend::new(sysfs);

    assert_eq!(backend.health_mode(), CapabilityState::Supported(false));
}

#[test]
fn health_mode_unsupported_when_driver_not_loaded() {
    let backend = AcerWmiBatteryBackend::new(MockSysfsReader::new());

    assert_eq!(backend.health_mode(), CapabilityState::Unsupported);
}

#[test]
fn health_mode_unknown_for_the_driver_not_available_sentinel() {
    let sysfs = MockSysfsReader::new();
    sysfs.set_content(HEALTH_MODE_PATH, "-1\n");
    let backend = AcerWmiBatteryBackend::new(sysfs);

    assert_eq!(backend.health_mode(), CapabilityState::Unknown);
}

#[test]
fn health_mode_requires_privilege_when_read_denied() {
    let sysfs = MockSysfsReader::new();
    sysfs.set_permission_denied(HEALTH_MODE_PATH);
    let backend = AcerWmiBatteryBackend::new(sysfs);

    assert_eq!(backend.health_mode(), CapabilityState::RequiresPrivilege);
}

#[test]
fn set_health_mode_writes_1_for_enabled() {
    let sysfs = MockSysfsReader::new();
    let backend = AcerWmiBatteryBackend::new(sysfs);

    let result = backend.set_health_mode(true);

    assert_eq!(result, Ok(()));
    assert_eq!(backend.health_mode(), CapabilityState::Supported(true));
}

#[test]
fn set_health_mode_writes_0_for_disabled() {
    let sysfs = MockSysfsReader::new();
    let backend = AcerWmiBatteryBackend::new(sysfs);

    let result = backend.set_health_mode(false);

    assert_eq!(result, Ok(()));
    assert_eq!(backend.health_mode(), CapabilityState::Supported(false));
}

#[test]
fn set_health_mode_denied_when_write_permission_denied() {
    let sysfs = MockSysfsReader::new();
    sysfs.set_write_permission_denied(HEALTH_MODE_PATH);
    let backend = AcerWmiBatteryBackend::new(sysfs);

    assert_eq!(backend.set_health_mode(true), Err(BatteryLimitError::Denied));
}

#[test]
fn set_health_mode_failure_reported_verbatim_not_assumed_success() {
    let sysfs = MockSysfsReader::new();
    sysfs.set_content(HEALTH_MODE_PATH, "0\n");
    sysfs.set_write_failure(HEALTH_MODE_PATH, "Input/output error (os error 5)");
    let backend = AcerWmiBatteryBackend::new(sysfs);

    let result = backend.set_health_mode(true);

    assert_eq!(
        result,
        Err(BatteryLimitError::Failed("Input/output error (os error 5)".to_string()))
    );
    assert_eq!(backend.health_mode(), CapabilityState::Supported(false));
}

// ---- battery calibration ----

#[test]
fn calibration_mode_supported_true_when_file_reads_1() {
    let sysfs = MockSysfsReader::new();
    sysfs.set_content(CALIBRATION_MODE_PATH, "1\n");
    let backend = AcerWmiBatteryBackend::new(sysfs);

    assert_eq!(backend.calibration_mode(), CapabilityState::Supported(true));
}

#[test]
fn calibration_mode_supported_false_when_file_reads_0() {
    let sysfs = MockSysfsReader::new();
    sysfs.set_content(CALIBRATION_MODE_PATH, "0\n");
    let backend = AcerWmiBatteryBackend::new(sysfs);

    assert_eq!(backend.calibration_mode(), CapabilityState::Supported(false));
}

#[test]
fn calibration_mode_unsupported_when_driver_not_loaded() {
    let backend = AcerWmiBatteryBackend::new(MockSysfsReader::new());

    assert_eq!(backend.calibration_mode(), CapabilityState::Unsupported);
}

#[test]
fn calibration_mode_unknown_for_the_driver_not_available_sentinel() {
    let sysfs = MockSysfsReader::new();
    sysfs.set_content(CALIBRATION_MODE_PATH, "-1\n");
    let backend = AcerWmiBatteryBackend::new(sysfs);

    assert_eq!(backend.calibration_mode(), CapabilityState::Unknown);
}

#[test]
fn set_calibration_mode_writes_1_for_enabled() {
    let sysfs = MockSysfsReader::new();
    let backend = AcerWmiBatteryBackend::new(sysfs);

    let result = backend.set_calibration_mode(true);

    assert_eq!(result, Ok(()));
    assert_eq!(backend.calibration_mode(), CapabilityState::Supported(true));
}

#[test]
fn set_calibration_mode_writes_0_for_disabled() {
    let sysfs = MockSysfsReader::new();
    let backend = AcerWmiBatteryBackend::new(sysfs);

    let result = backend.set_calibration_mode(false);

    assert_eq!(result, Ok(()));
    assert_eq!(backend.calibration_mode(), CapabilityState::Supported(false));
}

#[test]
fn set_calibration_mode_denied_when_write_permission_denied() {
    let sysfs = MockSysfsReader::new();
    sysfs.set_write_permission_denied(CALIBRATION_MODE_PATH);
    let backend = AcerWmiBatteryBackend::new(sysfs);

    assert_eq!(backend.set_calibration_mode(true), Err(CalibrationError::Denied));
}

#[test]
fn set_calibration_mode_failure_reported_verbatim_not_assumed_success() {
    let sysfs = MockSysfsReader::new();
    sysfs.set_content(CALIBRATION_MODE_PATH, "0\n");
    sysfs.set_write_failure(CALIBRATION_MODE_PATH, "Input/output error (os error 5)");
    let backend = AcerWmiBatteryBackend::new(sysfs);

    let result = backend.set_calibration_mode(true);

    assert_eq!(
        result,
        Err(CalibrationError::Failed("Input/output error (os error 5)".to_string()))
    );
    assert_eq!(backend.calibration_mode(), CapabilityState::Supported(false));
}

#[test]
fn health_mode_and_calibration_mode_are_independent_on_the_same_backend() {
    let sysfs = MockSysfsReader::new();
    sysfs.set_content("/sys/bus/wmi/drivers/acer-wmi-battery/health_mode", "1\n");
    sysfs.set_content(CALIBRATION_MODE_PATH, "0\n");
    let backend = AcerWmiBatteryBackend::new(sysfs);

    backend.set_calibration_mode(true).unwrap();

    assert_eq!(backend.health_mode(), CapabilityState::Supported(true));
    assert_eq!(backend.calibration_mode(), CapabilityState::Supported(true));
}

// ---- DMI detection ----

#[test]
fn detects_acer_nitro_v15_by_exact_product_name() {
    let sysfs = MockSysfsReader::new();
    sysfs.set_content(DMI_PRODUCT_NAME_PATH, "Nitro ANV15-41\n");

    assert_eq!(detect_provider_kind(&sysfs), ProviderKind::AcerNitroV15);
}

#[test]
fn falls_back_to_generic_linux_for_unrecognized_product_name() {
    let sysfs = MockSysfsReader::new();
    sysfs.set_content(DMI_PRODUCT_NAME_PATH, "Some Other Laptop\n");

    assert_eq!(detect_provider_kind(&sysfs), ProviderKind::GenericLinux);
}

#[test]
fn falls_back_to_generic_linux_when_dmi_file_missing() {
    let sysfs = MockSysfsReader::new();

    assert_eq!(detect_provider_kind(&sysfs), ProviderKind::GenericLinux);
}

#[test]
fn a_longer_product_name_is_not_the_acer_model() {
    let sysfs = MockSysfsReader::new();
    sysfs.set_content(DMI_PRODUCT_NAME_PATH, "Nitro ANV15-41 Pro\n");

    assert_eq!(detect_provider_kind(&sysfs), ProviderKind::GenericLinux);
}

// ---- CPU package power ----

#[test]
fn first_call_is_unknown_no_baseline_yet() {
    let sysfs = MockSysfsReader::new();
    sysfs.set_content(CPU_PACKAGE_ENERGY_PATH, "1000000\n");
    let mut backend = RaplPowerBackend::new(sysfs);

    assert_eq!(backend.cpu_package_power(), CapabilityState::Unknown);
}

#[test]
fn computes_watts_from_energy_delta_over_elapsed_time() {
    let sysfs = MockSysfsReader::new();
    sysfs.set_sequence(
        CPU_PACKAGE_ENERGY_PATH,
        vec!["1000000\n".to_string(), "6000000\n".to_string()],
    );
    let mut backend = RaplPowerBackend::new(sysfs);
    let t0: u128 = Duration::from_secs(30).as_nanos();

    let _ = backend.cpu_package_power_at(t0);
    let result = backend.cpu_package_power_at(t0 + Duration::from_millis(200).as_nanos());

    match result {
        CapabilityState::Supported(p) => {
            assert_eq!(p, PackagePower { energy_uj: 5_000_000, elapsed_ns: 200_000_000 });
            let w = watts(&p);
            assert!((w - 25.0).abs() < 0.001, "got {w}");
        }
        other => panic!("expected Supported, got {other:?}"),
    }
}

#[test]
fn handles_counter_wraparound_using_max_energy_range() {
    let sysfs = MockSysfsReader::new();
    sysfs.set_sequence(
        CPU_PACKAGE_ENERGY_PATH,
        vec!["60000000\n".to_string(), "5000000\n".to_string()],
    );
    sysfs.set_content(CPU_PACKAGE_MAX_ENERGY_RANGE_PATH, "65532610987\n");
    let mut backend = RaplPowerBackend::new(sysfs);
    let t0: u128 = Duration::from_secs(30).as_nanos();

    let _ = backend.cpu_package_power_at(t0);
    let result = backend.cpu_package_power_at(t0 + Duration::from_secs(1).as_nanos());

    match result {
        CapabilityState::Supported(p) => {
            assert_eq!(p.energy_uj, 65_477_610_987);
            let w = watts(&p);
            assert!((w - 65_477.610_987).abs() < 0.001, "got {w}");
        }
        other => panic!("expected Supported, got {other:?}"),
    }
}

#[test]
fn wraparound_unknown_when_range_file_unreadable() {
    let sysfs = MockSysfsReader::new();
    sysfs.set_sequence(
        CPU_PACKAGE_ENERGY_PATH,
        vec!["60000000\n".to_string(), "5000000\n".to_string()],
    );
    let mut backend = RaplPowerBackend::new(sysfs);
    let t0: u128 = Duration::from_secs(30).as_nanos();

    let _ = backend.cpu_package_power_at(t0);
    let result = backend.cpu_package_power_at(t0 + Duration::from_secs(1).as_nanos());

    assert_eq!(result, CapabilityState::Unknown);
}

#[test]
fn requires_privilege_on_permission_denied() {
    let sysfs = MockSysfsReader::new();
    sysfs.set_permission_denied(CPU_PACKAGE_ENERGY_PATH);
    let mut backend = RaplPowerBackend::new(sysfs);

    assert_eq!(backend.cpu_package_power(), CapabilityState::RequiresPrivilege);
}

#[test]
fn unsupported_when_powercap_zone_missing() {
    let mut backend = RaplPowerBackend::new(MockSysfsReader::new());

    assert_eq!(backend.cpu_package_power(), CapabilityState::Unsupported);
}

#[test]
fn unknown_on_malformed_value() {
    let sysfs = MockSysfsReader::new();
    sysfs.set_content(CPU_PACKAGE_ENERGY_PATH, "not-a-number\n");
    let mut backend = RaplPowerBackend::new(sysfs);

    assert_eq!(backend.cpu_package_power(), CapabilityState::Unknown);
}

#[test]
fn unknown_when_elapsed_time_is_zero() {
    let sysfs = MockSysfsReader::new();
    sysfs.set_sequence(
        CPU_PACKAGE_ENERGY_PATH,
        vec!["1000000\n".to_string(), "2000000\n".to_string()],
    );
    let mut backend = RaplPowerBackend::new(sysfs);
    let t0: u128 = Duration::from_secs(30).as_nanos();

    let _ = backend.cpu_package_power_at(t0);
    let result = backend.cpu_package_power_at(t0);

    assert_eq!(result, CapabilityState::Unknown);
}

#[test]
fn unknown_when_the_clock_reads_earlier_than_the_previous_sample() {
    let sysfs = MockSysfsReader::new();
    sysfs.set_sequence(
        CPU_PACKAGE_ENERGY_PATH,
        vec!["1000000\n".to_string(), "2000000\n".to_string(), "4000000\n".to_string()],
    );
    let mut backend = RaplPowerBackend::new(sysfs);
    let t0: u128 = Duration::from_secs(30).as_nanos();

    let _ = backend.cpu_package_power_at(t0);
    assert_eq!(backend.cpu_package_power_at(t0 - 1), CapabilityState::Unknown);
    assert_eq!(
        backend.cpu_package_power_at(t0 + 500),
        CapabilityState::Supported(PackagePower { energy_uj: 2_000_000, elapsed_ns: 501 })
    );
}

#[test]
fn a_failed_read_keeps_the_previous_baseline() {
    let sysfs = MockSysfsReader::new();
    sysfs.set_sequence(
        CPU_PACKAGE_ENERGY_PATH,
        vec!["1000000\n".to_string(), "garbage\n".to_string(), "3000000\n".to_string()],
    );
    let mut backend = RaplPowerBackend::new(sysfs);
    let t0: u128 = Duration::from_secs(30).as_nanos();

    let _ = backend.cpu_package_power_at(t0);
    assert_eq!(backend.cpu_package_power_at(t0 + Duration::from_secs(1).as_nanos()), CapabilityState::Unknown);
    assert_eq!(
        backend.cpu_package_power_at(t0 + Duration::from_secs(2).as_nanos()),
        CapabilityState::Supported(PackagePower { energy_uj: 2_000_000, elapsed_ns: 2_000_000_000 })
    );
}

// ---- Acer platform_profile backend ----

const PROFILE_PATH: &str = "/sys/firmware/acpi/platform_profile";
const CHOICES_PATH: &str = "/sys/firmware/acpi/platform_profile_choices";

fn info(name: &str, known_unsupported: bool) -> ProfileInfo {
    ProfileInfo { name: name.to_string(), is_placeholder: false, known_unsupported }
}

#[test]
fn profiles_reads_platform_profile_choices() {
    let sysfs = MockSysfsReader::new();
    sysfs.set_content(CHOICES_PATH, "low-power quiet balanced balanced-performance performance\n");
    let backend = AcerPlatformProfileBackend::new(sysfs);

    let profiles = backend.profiles().unwrap();

    assert_eq!(
        profiles,
        vec![
            info("low-power", false),
            info("quiet", false),
            info("balanced", false),
            info("balanced-performance", false),
            info("performance", true),
        ]
    );
}

#[test]
fn profiles_unavailable_when_choices_file_absent_predator_v4_not_loaded() {
    let backend = AcerPlatformProfileBackend::new(MockSysfsReader::new());

    assert_eq!(backend.profiles(), Err(BackendError::Unavailable));
}

#[test]
fn active_profile_name_reads_platform_profile() {
    let sysfs = MockSysfsReader::new();
    sysfs.set_content(PROFILE_PATH, "balanced\n");
    let backend = AcerPlatformProfileBackend::new(sysfs);

    assert_eq!(backend.active_profile_name(), Ok("balanced".to_string()));
}

#[test]
fn active_profile_name_unavailable_when_file_absent() {
    let backend = AcerPlatformProfileBackend::new(MockSysfsReader::new());

    assert_eq!(backend.active_profile_name(), Err(BackendError::Unavailable));
}

#[test]
fn set_active_profile_writes_platform_profile() {
    let sysfs = MockSysfsReader::new();
    let backend = AcerPlatformProfileBackend::new(sysfs);

    let result = backend.set_active_profile("quiet");

    assert_eq!(result, Ok(()));
    assert_eq!(backend.active_profile_name(), Ok("quiet".to_string()));
}

#[test]
fn set_active_profile_denied_when_write_permission_denied() {
    let sysfs = MockSysfsReader::new();
    sysfs.set_write_permission_denied(PROFILE_PATH);
    let backend = AcerPlatformProfileBackend::new(sysfs);

    assert_eq!(backend.set_active_profile("quiet"), Err(BackendError::Denied));
}

#[test]
fn set_active_profile_reports_the_real_eio_seen_writing_performance_in_m5() {
    let sysfs = MockSysfsReader::new();
    sysfs.set_write_failure(PROFILE_PATH, "Input/output error (os error 5)");
    let backend = AcerPlatformProfileBackend::new(sysfs);

    assert_eq!(
        backend.set_active_profile("performance"),
        Err(BackendError::Other("Input/output error (os error 5)".to_string()))
    );
}

#[test]
fn through_power_profiles_daemon_unsupported_by_default_predator_v4_not_loaded() {
    let provider = PowerProfilesDaemon::new(AcerPlatformProfileBackend::new(MockSysfsReader::new()));

    assert_eq!(provider.list_profiles(), CapabilityState::Unsupported);
    assert_eq!(provider.current_profile(), CapabilityState::Unsupported);
}

#[test]
fn through_power_profiles_daemon_rejects_invalid_profile_without_writing_safe_003() {
    let sysfs = MockSysfsReader::new();
    sysfs.set_content(CHOICES_PATH, "low-power quiet balanced balanced-performance performance\n");
    let provider = PowerProfilesDaemon::new(AcerPlatformProfileBackend::new(sysfs));

    let result = provider.set_profile("turbo-nitro-mode");

    assert_eq!(
        result,
        Err(ProfileError::InvalidProfile {
            requested: "turbo-nitro-mode".to_string(),
            valid: vec![
                "low-power".to_string(),
                "quiet".to_string(),
                "balanced".to_string(),
                "balanced-performance".to_string(),
                "performance".to_string(),
            ],
        })
    );
}

#[test]
fn through_power_profiles_daemon_set_valid_profile_writes_and_reports_success() {
    let sysfs = MockSysfsReader::new();
    sysfs.set_content(CHOICES_PATH, "low-power quiet balanced balanced-performance performance\n");
    let provider = PowerProfilesDaemon::new(AcerPlatformProfileBackend::new(sysfs));

    assert_eq!(provider.set_profile("quiet"), Ok(()));
    assert_eq!(
        provider.current_profile(),
        CapabilityState::Supported(ProfileStatus { name: "quiet".to_string(), hardware_backed: true })
    );
}

#[test]
fn through_power_profiles_daemon_performance_rejected_known_unsupported_before_writing_issue_25() {
    let sysfs = MockSysfsReader::new();
    sysfs.set_content(CHOICES_PATH, "low-power quiet balanced balanced-performance performance\n");
    sysfs.set_content(PROFILE_PATH, "balanced\n");
    sysfs.set_write_failure(PROFILE_PATH, "Input/output error (os error 5)");
    let provider = PowerProfilesDaemon::new(AcerPlatformProfileBackend::new(sysfs));

    let result = provider.set_profile("performance");

    assert_eq!(
        result,
        Err(ProfileError::KnownUnsupportedProfile { requested: "performance".to_string() })
    );
    assert_eq!(
        provider.current_profile(),
        CapabilityState::Supported(ProfileStatus { name: "balanced".to_string(), hardware_backed: true })
    );
}

// ---- generic Linux: RAM, fans, CPU time ----

fn provider(sysfs: MockSysfsReader) -> GenericLinux<MockSysfsReader, MockCommandRunner> {
    GenericLinux::new(sysfs, MockCommandRunner::new())
}

#[test]
fn ram_usage_computes_used_from_total_and_available() {
    let sysfs = MockSysfsReader::new();
    sysfs.set_content(
        "/proc/meminfo",
        "MemTotal:       16330000 kB\nMemFree:         2000000 kB\nMemAvailable:   10000000 kB\n",
    );
    let p = provider(sysfs);

    assert_eq!(
        p.ram_usage(),
        CapabilityState::Supported(MemoryUsage {
            total_bytes: 16_330_000 * 1024,
            used_bytes: (16_330_000 - 10_000_000) * 1024,
        })
    );
}

#[test]
fn ram_usage_unsupported_when_meminfo_missing() {
    let p = provider(MockSysfsReader::new());

    assert_eq!(p.ram_usage(), CapabilityState::Unsupported);
}

#[test]
fn ram_usage_unknown_when_available_exceeds_total() {
    let sysfs = MockSysfsReader::new();
    sysfs.set_content("/proc/meminfo", "MemTotal:       1000 kB\nMemAvailable:   2000 kB\n");
    let p = provider(sysfs);

    assert_eq!(p.ram_usage(), CapabilityState::Unknown);
}

#[test]
fn ram_usage_unknown_when_fields_missing() {
    let sysfs = MockSysfsReader::new();
    sysfs.set_content("/proc/meminfo", "SomethingElse: 1 kB\n");
    let p = provider(sysfs);

    assert_eq!(p.ram_usage(), CapabilityState::Unknown);
}

#[test]
fn ram_usage_unknown_when_byte_count_overflows() {
    let sysfs = MockSysfsReader::new();
    sysfs.set_content(
        "/proc/meminfo",
        "MemTotal: 18446744073709551615 kB\nMemAvailable: 1 kB\n",
    );
    let p = provider(sysfs);

    assert_eq!(p.ram_usage(), CapabilityState::Unknown);
}

#[test]
fn fan_rpm_unsupported_when_no_fan_hwmon_anywhere() {
    let sysfs = MockSysfsReader::new();
    sysfs.set_dir("/sys/class/hwmon", vec!["/sys/class/hwmon/hwmon5"]);
    sysfs.set_dir("/sys/class/hwmon/hwmon5", vec!["/sys/class/hwmon/hwmon5/temp1_input"]);
    let p = provider(sysfs);

    assert_eq!(p.fan_rpm(), CapabilityState::Unsupported);
}

#[test]
fn fan_rpm_supported_when_fan_input_present() {
    let sysfs = MockSysfsReader::new();
    sysfs.set_dir("/sys/class/hwmon", vec!["/sys/class/hwmon/hwmon3"]);
    sysfs.set_dir("/sys/class/hwmon/hwmon3", vec!["/sys/class/hwmon/hwmon3/fan1_input"]);
    sysfs.set_content("/sys/class/hwmon/hwmon3/fan1_input", "2400\n");
    let p = provider(sysfs);

    assert_eq!(p.fan_rpm(), CapabilityState::Supported(vec![Rpm(2400)]));
}

#[test]
fn fan_rpm_skips_unreadable_and_non_fan_files() {
    let sysfs = MockSysfsReader::new();
    sysfs.set_dir("/sys/class/hwmon", vec!["/sys/class/hwmon/hwmon1", "/sys/class/hwmon/hwmon2"]);
    sysfs.set_dir(
        "/sys/class/hwmon/hwmon1",
        vec![
            "/sys/class/hwmon/hwmon1/fan1_label",
            "/sys/class/hwmon/hwmon1/fan1_input",
            "/sys/class/hwmon/hwmon1/fan_input",
        ],
    );
    sysfs.set_content("/sys/class/hwmon/hwmon1/fan1_label", "7\n");
    sysfs.set_content("/sys/class/hwmon/hwmon1/fan1_input", "garbage\n");
    sysfs.set_content("/sys/class/hwmon/hwmon1/fan_input", "8\n");
    sysfs.set_dir("/sys/class/hwmon/hwmon2", vec!["/sys/class/hwmon/hwmon2/fan12_input"]);
    sysfs.set_content("/sys/class/hwmon/hwmon2/fan12_input", " 1800 \n");
    let p = provider(sysfs);

    assert_eq!(p.fan_rpm(), CapabilityState::Supported(vec![Rpm(1800)]));
}

#[test]
fn cpu_time_first_sample_is_unknown_then_measures_the_interval() {
    let sysfs = MockSysfsReader::new();
    sysfs.set_sequence(
        "/proc/stat",
        vec![
            "cpu  100 0 100 800 0 0 0 0 0 0\n".to_string(),
            "cpu  200 0 200 900 0 0 0 0 0 0\n".to_string(),
        ],
    );
    let mut p = provider(sysfs);

    assert_eq!(p.cpu_utilization_sample(), CapabilityState::Unknown);
    assert_eq!(
        p.cpu_utilization_sample(),
        CapabilityState::Supported(CpuTimeDelta { idle: 100, total: 300 })
    );
}

#[test]
fn cpu_time_at_full_load_has_no_idle_share() {
    let sysfs = MockSysfsReader::new();
    sysfs.set_sequence(
        "/proc/stat",
        vec![
            "cpu  100 0 100 500 0 0 0 0 0 0\n".to_string(),
            "cpu  400 0 400 500 0 0 0 0 0 0\n".to_string(),
        ],
    );
    let mut p = provider(sysfs);

    let _ = p.cpu_utilization_sample();
    assert_eq!(
        p.cpu_utilization_sample(),
        CapabilityState::Supported(CpuTimeDelta { idle: 0, total: 600 })
    );
}

#[test]
fn cpu_time_unsupported_when_proc_stat_missing_and_unknown_when_malformed() {
    assert_eq!(provider(MockSysfsReader::new()).cpu_utilization_sample(), CapabilityState::Unsupported);

    let sysfs = MockSysfsReader::new();
    sysfs.set_content("/proc/stat", "not the stat format\n");
    assert_eq!(provider(sysfs).cpu_utilization_sample(), CapabilityState::Unknown);
}

#[test]
fn find_hwmon_by_name_matches_the_trimmed_chip_name() {
    let sysfs = MockSysfsReader::new();
    sysfs.set_dir("/sys/class/hwmon", vec!["/sys/class/hwmon/hwmon0", "/sys/class/hwmon/hwmon5"]);
    sysfs.set_content("/sys/class/hwmon/hwmon0/name", "acpitz\n");
    sysfs.set_content("/sys/class/hwmon/hwmon5/name", "k10temp\n");
    let p = provider(sysfs);

    assert_eq!(
        p.find_hwmon_by_name(&["k10temp", "coretemp"]),
        Some("/sys/class/hwmon/hwmon5".to_string())
    );
    assert_eq!(p.find_hwmon_by_name(&["amdgpu"]), None);
}

// ---- Acer Nitro V15 ----

#[test]
fn fan_rpm_is_unsupported_by_default_predator_v4_not_loaded() {
    let p = AcerNitroV15::new(MockSysfsReader::new(), MockCommandRunner::new());

    assert_eq!(p.fan_rpm(), CapabilityState::Unsupported);
}

#[test]
fn fan_rpm_supported_when_acer_hwmon_present_predator_v4_loaded() {
    let sysfs = MockSysfsReader::new();
    sysfs.set_dir("/sys/class/hwmon", vec!["/sys/class/hwmon/hwmon8"]);
    sysfs.set_dir(
        "/sys/class/hwmon/hwmon8",
        vec!["/sys/class/hwmon/hwmon8/fan1_input", "/sys/class/hwmon/hwmon8/fan2_input"],
    );
    sysfs.set_content("/sys/class/hwmon/hwmon8/name", "acer\n");
    sysfs.set_content("/sys/class/hwmon/hwmon8/fan1_input", "2945\n");
    sysfs.set_content("/sys/class/hwmon/hwmon8/fan2_input", "2576\n");
    let p = AcerNitroV15::new(sysfs, MockCommandRunner::new());

    assert_eq!(p.fan_rpm(), CapabilityState::Supported(vec![Rpm(2945), Rpm(2576)]));
}

// ---- generic Linux: battery ----

#[test]
fn battery_fields_come_from_the_first_battery_uevent() {
    let sysfs = MockSysfsReader::new();
    sysfs.set_dir(
        "/sys/class/power_supply",
        vec!["/sys/class/power_supply/AC0", "/sys/class/power_supply/BAT1", "/sys/class/power_supply/BAT0"],
    );
    sysfs.set_content(
        "/sys/class/power_supply/BAT1/uevent",
        "POWER_SUPPLY_NAME=BAT1\nPOWER_SUPPLY_STATUS=Discharging\nPOWER_SUPPLY_CAPACITY=87\nPOWER_SUPPLY_VOLTAGE_NOW=11800000\nPOWER_SUPPLY_CURRENT_NOW=1500000\n",
    );
    sysfs.set_content("/sys/class/power_supply/BAT0/uevent", "POWER_SUPPLY_CAPACITY=5\n");
    let p = provider(sysfs);

    assert_eq!(
        p.battery_fields(),
        CapabilityState::Supported(BatteryFields {
            capacity: "87".to_string(),
            status: BatteryStatus::Discharging,
            voltage_now: Some("11800000".to_string()),
            current_now: Some("1500000".to_string()),
        })
    );
}

#[test]
fn battery_fields_without_status_or_power_fields() {
    let sysfs = MockSysfsReader::new();
    sysfs.set_dir("/sys/class/power_supply", vec!["/sys/class/power_supply/BAT0"]);
    sysfs.set_content("/sys/class/power_supply/BAT0/uevent", "POWER_SUPPLY_CAPACITY=40\n");
    let p = provider(sysfs);

    assert_eq!(
        p.battery_fields(),
        CapabilityState::Supported(BatteryFields {
            capacity: "40".to_string(),
            status: BatteryStatus::Unknown,
            voltage_now: None,
            current_now: None,
        })
    );
}

#[test]
fn battery_fields_unsupported_without_a_battery_entry() {
    let sysfs = MockSysfsReader::new();
    sysfs.set_dir("/sys/class/power_supply", vec!["/sys/class/power_supply/AC0"]);
    assert_eq!(provider(sysfs).battery_fields(), CapabilityState::Unsupported);
    assert_eq!(provider(MockSysfsReader::new()).battery_fields(), CapabilityState::Unsupported);
}

#[test]
fn battery_fields_unknown_without_capacity_or_readable_uevent() {
    let sysfs = MockSysfsReader::new();
    sysfs.set_dir("/sys/class/power_supply", vec!["/sys/class/power_supply/BAT0"]);
    sysfs.set_content("/sys/class/power_supply/BAT0/uevent", "POWER_SUPPLY_STATUS=Full\n");
    assert_eq!(provider(sysfs).battery_fields(), CapabilityState::Unknown);

    let unreadable = MockSysfsReader::new();
    unreadable.set_dir("/sys/class/power_supply", vec!["/sys/class/power_supply/BAT0"]);
    assert_eq!(provider(unreadable).battery_fields(), CapabilityState::Unknown);
}

// ---- evidence for diagnose ----

fn evidence(source: &str, raw: Option<&str>) -> Option<Evidence> {
    Some(Evidence { source: source.to_string(), raw_value: raw.map(|r| r.to_string()) })
}

#[test]
fn ram_and_cpu_time_evidence_is_the_proc_file_read() {
    let sysfs = MockSysfsReader::new();
    sysfs.set_content("/proc/meminfo", "MemTotal: 100 kB\nMemAvailable: 40 kB");
    let p = provider(sysfs);

    assert_eq!(p.ram_usage_evidence(), evidence("/proc/meminfo", Some("MemTotal: 100 kB\nMemAvailable: 40 kB")));
    assert_eq!(p.cpu_utilization_evidence(), evidence("/proc/stat", None));
}

#[test]
fn battery_evidence_is_the_uevent_with_its_serial_redacted() {
    let sysfs = MockSysfsReader::new();
    sysfs.set_dir("/sys/class/power_supply", vec!["/sys/class/power_supply/AC0", "/sys/class/power_supply/BAT0"]);
    sysfs.set_content(
        "/sys/class/power_supply/BAT0/uevent",
        "POWER_SUPPLY_SERIAL_NUMBER=ABC123\nPOWER_SUPPLY_CAPACITY=87\n",
    );
    let p = provider(sysfs);

    assert_eq!(
        p.battery_evidence(),
        evidence(
            "/sys/class/power_supply/BAT0/uevent",
            Some("POWER_SUPPLY_SERIAL_NUMBER=[REDACTED]\nPOWER_SUPPLY_CAPACITY=87")
        )
    );
    assert_eq!(provider(MockSysfsReader::new()).battery_evidence(), None);
}

#[test]
fn temperature_evidence_points_at_the_hwmon_temp1_input() {
    let sysfs = MockSysfsReader::new();
    sysfs.set_dir("/sys/class/hwmon", vec!["/sys/class/hwmon/hwmon1", "/sys/class/hwmon/hwmon2"]);
    sysfs.set_content("/sys/class/hwmon/hwmon1/name", "amdgpu\n");
    sysfs.set_content("/sys/class/hwmon/hwmon2/name", "k10temp\n");
    sysfs.set_content("/sys/class/hwmon/hwmon2/temp1_input", "garbage\n");
    let p = provider(sysfs);

    assert_eq!(
        p.cpu_temperature_evidence(),
        evidence("/sys/class/hwmon/hwmon2/temp1_input", Some("garbage"))
    );
    assert_eq!(
        p.gpu_temperature_evidence(GpuKind::Integrated),
        evidence("/sys/class/hwmon/hwmon1/temp1_input", None)
    );
    assert_eq!(provider(MockSysfsReader::new()).cpu_temperature_evidence(), None);
}

#[test]
fn discrete_gpu_evidence_is_the_nvidia_smi_command_line() {
    let commands = MockCommandRunner::new();
    commands.set_output("nvidia-smi", &["--query-gpu=temperature.gpu", "--format=csv,noheader,nounits"], "52\n");
    let p = GenericLinux::new(MockSysfsReader::new(), commands);

    assert_eq!(
        p.gpu_temperature_evidence(GpuKind::Discrete),
        evidence("nvidia-smi --query-gpu=temperature.gpu --format=csv,noheader,nounits", Some("52"))
    );
    assert_eq!(
        p.gpu_utilization_evidence(GpuKind::Discrete),
        evidence("nvidia-smi --query-gpu=utilization.gpu --format=csv,noheader,nounits", None)
    );
    assert_eq!(p.gpu_utilization_evidence(GpuKind::Integrated), None);
}

#[test]
fn fan_evidence_is_the_first_tachometer_in_listing_order() {
    let sysfs = MockSysfsReader::new();
    sysfs.set_dir("/sys/class/hwmon", vec!["/sys/class/hwmon/hwmon1", "/sys/class/hwmon/hwmon2"]);
    sysfs.set_dir("/sys/class/hwmon/hwmon1", vec!["/sys/class/hwmon/hwmon1/temp1_input"]);
    sysfs.set_dir(
        "/sys/class/hwmon/hwmon2",
        vec!["/sys/class/hwmon/hwmon2/fan1_label", "/sys/class/hwmon/hwmon2/fan2_input", "/sys/class/hwmon/hwmon2/fan1_input"],
    );
    sysfs.set_content("/sys/class/hwmon/hwmon2/fan2_input", "2400\n");
    let p = provider(sysfs);

    assert_eq!(p.fan_rpm_evidence(), evidence("/sys/class/hwmon/hwmon2/fan2_input", Some("2400")));

    let no_fans = MockSysfsReader::new();
    no_fans.set_dir("/sys/class/hwmon", vec!["/sys/class/hwmon/hwmon1"]);
    assert_eq!(provider(no_fans).fan_rpm_evidence(), None);
}

#[test]
fn cpu_frequency_evidence_is_the_first_cpus_scaling_cur_freq() {
    let sysfs = MockSysfsReader::new();
    sysfs.set_dir(
        "/sys/devices/system/cpu",
        vec!["/sys/devices/system/cpu/cpufreq", "/sys/devices/system/cpu/cpu0", "/sys/devices/system/cpu/cpu1"],
    );
    sysfs.set_content("/sys/devices/system/cpu/cpu0/cpufreq/scaling_cur_freq", "3200000\n");
    let p = provider(sysfs);

    assert_eq!(
        p.cpu_frequency_evidence(),
        evidence("/sys/devices/system/cpu/cpu0/cpufreq/scaling_cur_freq", Some("3200000"))
    );
}

#[test]
fn acer_provider_evidence_is_the_generic_providers() {
    let sysfs = MockSysfsReader::new();
    sysfs.set_content("/proc/meminfo", "MemTotal: 1 kB");
    let p = AcerNitroV15::new(sysfs, MockCommandRunner::new());

    assert_eq!(p.ram_usage_evidence(), evidence("/proc/meminfo", Some("MemTotal: 1 kB")));
}
