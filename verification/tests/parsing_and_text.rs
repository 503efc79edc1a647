use nitroctl::battery_limit::BatteryLimitError;
use nitroctl::capability::CapabilityState;
use nitroctl::commands::{
    describe, diagnose_line, diagnose_report, fans_output, format_fan_rpms, format_ram, join_lines,
    needs_second_sample, push_metric_line, state_label,
};
use nitroctl::dashboard::{
    battery_limit_error_message, battery_limit_value, entries_changed, fan_cards_shown,
    fan_rpm_values, is_available, pills_need_rebuild, pills_pressed, profile_card_subtitle,
    profile_display_name, profile_subtitle, selected_entry,
};
use nitroctl::evidence::{evidence_line, redact_evidence, Evidence};
use nitroctl::power_draw::{energy_delta, energy_from_read, package_power, PackagePower};
use nitroctl::power_profile::{ProfileInfo, ProfileStatus};
use nitroctl::provider::generic_linux::{
    battery_dir, cpu_dirs, cpu_time_since, is_cpu_dir_name, is_fan_input_name, parse_cpu_stat_line, parse_meminfo_field,
    parse_uevent, ram_usage_from_read, rpm_from_read, uevent_value, CpuStatSample, CpuTimeDelta,
};
use nitroctl::rows::{
    battery_limit, battery_limit_row, fan_rpm_row, fan_rpms, profile_status, profile_status_row,
    ram_usage, ram_usage_row, RowContent,
};
use nitroctl::sensor::{BatteryStatus, MemoryUsage, Rpm};
use nitroctl::sysfs::{file_name_of, join_path, IoError};

// ---- battery status ----

#[test]
fn parses_charging() {
    assert_eq!(BatteryStatus::parse("Charging"), BatteryStatus::Charging);
}

#[test]
fn parses_discharging() {
    assert_eq!(BatteryStatus::parse("Discharging"), BatteryStatus::Discharging);
}

#[test]
fn parses_full() {
    assert_eq!(BatteryStatus::parse("Full"), BatteryStatus::Full);
}

#[test]
fn parses_not_charging() {
    assert_eq!(BatteryStatus::parse("Not charging"), BatteryStatus::NotCharging);
}

#[test]
fn unrecognized_value_is_unknown_not_an_error() {
    assert_eq!(BatteryStatus::parse("Bogus"), BatteryStatus::Unknown);
}

#[test]
fn trims_trailing_newline_from_sysfs_style_input() {
    assert_eq!(BatteryStatus::parse("Charging\n"), BatteryStatus::Charging);
}

// ---- evidence redaction ----

#[test]
fn redacts_serial_number_key() {
    let raw = "POWER_SUPPLY_STATUS=Discharging\nPOWER_SUPPLY_SERIAL_NUMBER=ABC123XYZ\nPOWER_SUPPLY_CAPACITY=87";
    let redacted = redact_evidence(raw);

    assert!(redacted.contains("POWER_SUPPLY_SERIAL_NUMBER=[REDACTED]"));
    assert!(!redacted.contains("ABC123XYZ"));
    assert!(redacted.contains("POWER_SUPPLY_STATUS=Discharging"));
    assert!(redacted.contains("POWER_SUPPLY_CAPACITY=87"));
}

#[test]
fn redacts_dmi_style_uuid_and_asset_tag_defensively() {
    let raw = "PRODUCT_UUID=1234-5678\nBOARD_ASSET_TAG=Owner-Laptop-42\nPRODUCT_NAME=Nitro ANV15-41";
    let redacted = redact_evidence(raw);

    assert!(redacted.contains("PRODUCT_UUID=[REDACTED]"));
    assert!(redacted.contains("BOARD_ASSET_TAG=[REDACTED]"));
    assert!(redacted.contains("PRODUCT_NAME=Nitro ANV15-41"));
}

#[test]
fn leaves_non_matching_lines_untouched() {
    let raw = "MemTotal:       16330000 kB\nMemAvailable:   10000000 kB";

    assert_eq!(redact_evidence(raw), raw);
}

#[test]
fn handles_lines_with_no_equals_sign() {
    let raw = "cpu  100 0 100 800 0 0 0 0 0 0";

    assert_eq!(redact_evidence(raw), raw);
}

#[test]
fn redaction_splits_at_the_first_equals_and_drops_a_final_newline() {
    assert_eq!(
        redact_evidence("BOARD_SERIAL=a=b\nX=1\n"),
        "BOARD_SERIAL=[REDACTED]\nX=1"
    );
    assert_eq!(redact_evidence("SERIAL=plain"), "SERIAL=plain");
    assert_eq!(redact_evidence(""), "");
}

// ---- dashboard and CLI text ----

#[test]
fn formats_ram_usage_as_gib_used_of_total() {
    let usage = MemoryUsage {
        total_bytes: 16 * 1024 * 1024 * 1024,
        used_bytes: 8 * 1024 * 1024 * 1024,
    };
    assert_eq!(ram_usage(&usage), "8.0 GiB / 16.0 GiB");
}

#[test]
fn formats_ram_usage_rounding_to_one_decimal() {
    let usage = MemoryUsage { total_bytes: 16_722_920_448, used_bytes: 6_481_920_000 };
    assert_eq!(ram_usage(&usage), "6.0 GiB / 15.6 GiB");
    assert_eq!(format_ram(&usage), "6.0 GiB / 15.6 GiB");
}

#[test]
fn formats_multiple_fan_rpms() {
    assert_eq!(fan_rpms(&[Rpm(2400), Rpm(2600)]), "2400 RPM, 2600 RPM");
}

#[test]
fn formats_profile_status_name_only() {
    let status = ProfileStatus { name: "balanced".to_string(), hardware_backed: true };
    assert_eq!(profile_status(&status), "balanced");
}

#[test]
fn formats_battery_limit_on() {
    assert_eq!(battery_limit(&true), "on");
}

#[test]
fn formats_battery_limit_off() {
    assert_eq!(battery_limit(&false), "off");
}

#[test]
fn rows_are_available_only_when_supported() {
    let usage = MemoryUsage { total_bytes: 2 * 1024 * 1024 * 1024, used_bytes: 1024 * 1024 * 1024 };
    assert_eq!(
        ram_usage_row(&CapabilityState::Supported(usage)),
        RowContent { subtitle: "1.0 GiB / 2.0 GiB".to_string(), available: true }
    );
    assert_eq!(
        ram_usage_row(&CapabilityState::Unsupported),
        RowContent { subtitle: "unavailable".to_string(), available: false }
    );
    let unknown = fan_rpm_row(&CapabilityState::Unknown);
    assert_eq!(unknown.subtitle, "unknown");
    assert!(!unknown.available);
    let denied = battery_limit_row(&CapabilityState::RequiresPrivilege);
    assert_eq!(denied.subtitle, "requires elevated privilege");
    assert!(!denied.available);
    let placeholder = profile_status_row(&CapabilityState::HardwareDependent(ProfileStatus {
        name: "balanced".to_string(),
        hardware_backed: false,
    }));
    assert_eq!(placeholder.subtitle, "balanced (hardware-dependent)");
    assert!(!placeholder.available);
}

#[test]
fn cli_describe_and_labels() {
    let (text, code) = describe(&CapabilityState::Supported(3u32), |v: &u32| format!("{v} things"));
    assert_eq!((text.as_str(), code), ("3 things", 0));
    let (text, code) = describe(&CapabilityState::HardwareDependent(3u32), |v: &u32| format!("{v} things"));
    assert_eq!((text.as_str(), code), ("3 things (hardware-dependent)", 1));
    let (text, code) = describe(&CapabilityState::<u32>::Unknown, |v: &u32| format!("{v}"));
    assert_eq!((text.as_str(), code), ("unknown", 1));
    assert_eq!(state_label(&CapabilityState::<u32>::RequiresPrivilege), "REQUIRES_PRIVILEGE");
    assert_eq!(state_label(&CapabilityState::HardwareDependent(1u32)), "HARDWARE_DEPENDENT");
}

#[test]
fn fans_unsupported_prints_unavailable_and_supported_lists_each_fan() {
    let out = fans_output(&CapabilityState::Unsupported);
    assert_eq!(out.text, "Fan RPM: unavailable");
    assert_eq!(out.exit_code, 1);

    let out = fans_output(&CapabilityState::Supported(vec![Rpm(2945), Rpm(2576)]));
    assert_eq!(out.text, "Fan RPM: 2945 RPM, 2576 RPM");
    assert_eq!(out.exit_code, 0);
    assert_eq!(format_fan_rpms(&[Rpm(1)]), "1 RPM");
}

#[test]
fn metric_and_diagnose_lines() {
    let mut lines = Vec::new();
    push_metric_line(&mut lines, "RAM usage", &CapabilityState::<MemoryUsage>::Unsupported, |u: &MemoryUsage| {
        format_ram(u)
    });
    push_metric_line(&mut lines, "Fan RPM", &CapabilityState::Supported(vec![Rpm(2400)]), |r: &Vec<Rpm>| {
        format_fan_rpms(r)
    });
    assert_eq!(lines, vec!["RAM usage: unavailable".to_string(), "Fan RPM: 2400 RPM".to_string()]);
    assert_eq!(join_lines(&lines), "RAM usage: unavailable\nFan RPM: 2400 RPM");

    assert_eq!(
        diagnose_line("Fan RPM", "2400 RPM", &CapabilityState::Supported(0u8)),
        "Fan RPM: SUPPORTED (2400 RPM)"
    );
    assert_eq!(
        diagnose_line("Battery", "55% (Discharging) (hardware-dependent)", &CapabilityState::HardwareDependent(0u8)),
        "Battery: HARDWARE_DEPENDENT (55% (Discharging) (hardware-dependent))"
    );
    assert_eq!(diagnose_line("CPU temperature", "unavailable", &CapabilityState::<u8>::Unsupported), "CPU temperature: UNSUPPORTED");
}

// ---- dashboard helpers ----

#[test]
fn fan_rpm_values_extracts_supported_vec() {
    let state = CapabilityState::Supported(vec![Rpm(3032), Rpm(2675)]);
    assert_eq!(fan_rpm_values(&state), Some(vec![3032, 2675]));
}

#[test]
fn fan_rpm_values_none_when_unsupported() {
    assert_eq!(fan_rpm_values(&CapabilityState::Unsupported), None);
}

#[test]
fn profile_display_name_replaces_hyphen_and_capitalizes_first_letter_only() {
    assert_eq!(profile_display_name("power-saver"), "Power saver");
    assert_eq!(profile_display_name("balanced"), "Balanced");
    assert_eq!(profile_display_name("performance"), "Performance");
}

#[test]
fn profile_display_name_leaves_other_first_characters_alone() {
    assert_eq!(profile_display_name("low-power"), "Low power");
    assert_eq!(profile_display_name("-x"), " x");
    assert_eq!(profile_display_name("Éco"), "Éco");
    assert_eq!(profile_display_name(""), "");
}

#[test]
fn profile_subtitle_known_names() {
    assert_eq!(profile_subtitle("power-saver"), "Quiet, longest runtime");
    assert_eq!(profile_subtitle("balanced"), "Default for daily use");
    assert_eq!(profile_subtitle("performance"), "Full clocks, loud fans");
}

#[test]
fn profile_subtitle_unknown_name_is_empty_not_guessed() {
    assert_eq!(profile_subtitle("turbo-boost-9000"), "");
}

#[test]
fn battery_limit_switch_values_and_messages() {
    assert_eq!(battery_limit_value(&CapabilityState::Supported(true)), Some(true));
    assert_eq!(battery_limit_value(&CapabilityState::HardwareDependent(false)), Some(false));
    assert_eq!(battery_limit_value(&CapabilityState::RequiresPrivilege), None);
    assert!(is_available(&CapabilityState::<bool>::RequiresPrivilege));
    assert!(!is_available(&CapabilityState::<bool>::Unknown));
    assert!(!is_available(&CapabilityState::<bool>::Unsupported));
    assert_eq!(
        battery_limit_error_message(&BatteryLimitError::Unavailable),
        "Driver not loaded -- see docs/optional-setup.md"
    );
    assert_eq!(
        battery_limit_error_message(&BatteryLimitError::Denied),
        "Denied -- needs root or a udev rule, see docs/optional-setup.md"
    );
    assert_eq!(battery_limit_error_message(&BatteryLimitError::Failed("EIO".to_string())), "EIO");
}

// ---- /proc and sysfs parsers ----

#[test]
fn parses_the_aggregate_cpu_line() {
    assert_eq!(
        parse_cpu_stat_line("cpu  100 0 100 800 5 0 0 0 0 0\ncpu0 1 2 3 4\n"),
        Some(CpuStatSample { idle: 805, total: 1005 })
    );
    assert_eq!(parse_cpu_stat_line("cpu  1 2 3 4\n"), Some(CpuStatSample { idle: 4, total: 10 }));
    assert_eq!(parse_cpu_stat_line("cpu  1 2 3\n"), None);
    assert_eq!(parse_cpu_stat_line("cpu  1 2 x 4\n"), None);
    assert_eq!(parse_cpu_stat_line("intr 1\ncpu0 1 2 3 4\n"), None);
    assert_eq!(parse_cpu_stat_line("cpu 18446744073709551615 1 0 0\n"), None);
}

#[test]
fn cpu_time_between_samples_saturates_and_needs_elapsed_time() {
    let a = CpuStatSample { idle: 800, total: 1000 };
    let b = CpuStatSample { idle: 900, total: 1300 };
    assert_eq!(cpu_time_since(None, b), CapabilityState::Unknown);
    assert_eq!(cpu_time_since(Some(a), b), CapabilityState::Supported(CpuTimeDelta { idle: 100, total: 300 }));
    assert_eq!(cpu_time_since(Some(b), b), CapabilityState::Unknown);
    assert_eq!(cpu_time_since(Some(b), a), CapabilityState::Unknown);
}

#[test]
fn meminfo_fields_and_ram_states() {
    let raw = "MemTotal:       1000 kB\nMemAvailable:   250 kB\n";
    assert_eq!(parse_meminfo_field(raw, "MemTotal"), Some(1000));
    assert_eq!(parse_meminfo_field(raw, "MemAvailable"), Some(250));
    assert_eq!(parse_meminfo_field(raw, "Mem"), None);
    assert_eq!(
        ram_usage_from_read(Ok(raw.to_string())),
        CapabilityState::Supported(MemoryUsage { total_bytes: 1_024_000, used_bytes: 768_000 })
    );
    assert_eq!(ram_usage_from_read(Err(IoError::PermissionDenied)), CapabilityState::Unknown);
    assert_eq!(ram_usage_from_read(Err(IoError::NotFound)), CapabilityState::Unsupported);
}

#[test]
fn uevent_pairs_in_order_with_the_last_value_winning() {
    let pairs = parse_uevent("POWER_SUPPLY_STATUS=Full\nno equals here\nPOWER_SUPPLY_CAPACITY=100\nPOWER_SUPPLY_STATUS=Charging\n");
    assert_eq!(pairs.len(), 3);
    assert_eq!(pairs[0], ("POWER_SUPPLY_STATUS".to_string(), "Full".to_string()));
    assert_eq!(uevent_value(&pairs, "POWER_SUPPLY_STATUS"), Some("Charging".to_string()));
    assert_eq!(uevent_value(&pairs, "POWER_SUPPLY_CAPACITY"), Some("100".to_string()));
    assert_eq!(uevent_value(&pairs, "POWER_SUPPLY_VOLTAGE_NOW"), None);
}

#[test]
fn sysfs_file_names() {
    assert!(is_cpu_dir_name("cpu0"));
    assert!(is_cpu_dir_name("cpu15"));
    assert!(!is_cpu_dir_name("cpufreq"));
    assert!(!is_cpu_dir_name("cpu"));
    assert!(is_fan_input_name("fan1_input"));
    assert!(is_fan_input_name("fan12_input"));
    assert!(!is_fan_input_name("fan_input"));
    assert!(!is_fan_input_name("fan1_label"));
    assert!(!is_fan_input_name("temp1_input"));
    assert_eq!(join_path("/sys/class/hwmon/hwmon5", "name"), "/sys/class/hwmon/hwmon5/name");
    assert_eq!(file_name_of("/sys/class/hwmon/hwmon3/fan1_input"), Some("fan1_input".chars().collect()));
    assert_eq!(rpm_from_read(Ok("2400\n".to_string())), Some(Rpm(2400)));
    assert_eq!(rpm_from_read(Ok("-1\n".to_string())), None);
    assert_eq!(rpm_from_read(Err(IoError::NotFound)), None);
}

// ---- package power arithmetic ----

#[test]
fn package_power_counter_arithmetic() {
    assert_eq!(energy_delta(1_000_000, 6_000_000, None), Some(5_000_000));
    assert_eq!(energy_delta(60_000_000, 5_000_000, Some(65_532_610_987)), Some(65_477_610_987));
    assert_eq!(energy_delta(60_000_000, 5_000_000, None), None);
    assert_eq!(energy_delta(60_000_000, 5_000_000, Some(10)), Some(5_000_000));
    assert_eq!(energy_delta(u64::MAX, 5, Some(u64::MAX)), Some(5));
    assert_eq!(energy_delta(2, 1, Some(u64::MAX)), Some(u64::MAX - 1));
    assert_eq!(package_power(1, 2, 0, None), CapabilityState::Unknown);
    assert_eq!(
        package_power(1, 2, 1_000, None),
        CapabilityState::Supported(PackagePower { energy_uj: 1, elapsed_ns: 1_000 })
    );
    assert_eq!(energy_from_read(Ok(" 42\n".to_string())), Ok(42));
    assert_eq!(energy_from_read(Err(IoError::Other("x".to_string()))), Err(CapabilityState::Unknown));
}

#[test]
fn profile_card_subtitle_notes_a_firmware_limitation() {
    assert_eq!(profile_card_subtitle("balanced", false), "Default for daily use");
    assert_eq!(
        profile_card_subtitle("performance", true),
        "Full clocks, loud fans -- Not supported by this hardware's firmware"
    );
    assert_eq!(profile_card_subtitle("quiet", true), "Not supported by this hardware's firmware");
    assert_eq!(profile_card_subtitle("quiet", false), "");
}

#[test]
fn directory_listings_pick_cpus_and_the_first_battery() {
    let cpus = vec![
        "/sys/devices/system/cpu/cpu0".to_string(),
        "/sys/devices/system/cpu/cpufreq".to_string(),
        "/sys/devices/system/cpu/cpu1".to_string(),
        "/sys/devices/system/cpu/cpuidle".to_string(),
    ];
    assert_eq!(
        cpu_dirs(&cpus),
        vec!["/sys/devices/system/cpu/cpu0".to_string(), "/sys/devices/system/cpu/cpu1".to_string()]
    );
    let supplies = vec![
        "/sys/class/power_supply/ACAD".to_string(),
        "/sys/class/power_supply/BAT1".to_string(),
        "/sys/class/power_supply/BAT2".to_string(),
    ];
    assert_eq!(battery_dir(&supplies), Some("/sys/class/power_supply/BAT1".to_string()));
    assert_eq!(battery_dir(&supplies[..1].to_vec()), None);
}

#[test]
fn unsigned_parsing_follows_str_parse() {
    assert_eq!(rpm_from_read(Ok("+12".to_string())), Some(Rpm(12)));
    assert_eq!(rpm_from_read(Ok("4294967296".to_string())), None);
    assert_eq!(rpm_from_read(Ok("".to_string())), None);
    assert_eq!(parse_meminfo_field("MemTotal: 12 kB", "MemTotal"), Some(12));
}

#[test]
fn diagnose_report_puts_the_title_above_the_metric_lines() {
    let lines = vec!["CPU temperature: UNSUPPORTED".to_string(), "RAM usage: UNKNOWN".to_string()];
    assert_eq!(
        diagnose_report(&lines),
        "NitroControl diagnostic report\nCPU temperature: UNSUPPORTED\nRAM usage: UNKNOWN"
    );
    assert_eq!(diagnose_report(&Vec::new()), "NitroControl diagnostic report");
}

#[test]
fn redacting_twice_is_redacting_once() {
    for raw in [
        "POWER_SUPPLY_SERIAL_NUMBER=ABC\nPOWER_SUPPLY_STATUS=Full\n",
        "PRODUCT_UUID=1234\nX=1",
        "\n",
        "",
        "no fields here",
    ] {
        let once = redact_evidence(raw);
        assert_eq!(redact_evidence(&once), once, "input {raw:?}");
    }
    assert_eq!(redact_evidence("\n"), "");
}

#[test]
fn only_a_supported_first_rate_reading_is_final() {
    assert!(!needs_second_sample(&CapabilityState::Supported(3u32)));
    assert!(needs_second_sample(&CapabilityState::<u32>::Unknown));
    assert!(needs_second_sample(&CapabilityState::HardwareDependent(3u32)));
    assert!(needs_second_sample(&CapabilityState::<u32>::RequiresPrivilege));
    assert!(needs_second_sample(&CapabilityState::<u32>::Unsupported));
}

#[test]
fn evidence_lines_follow_every_metric_but_an_unsupported_one() {
    let read = Some(Evidence { source: "/proc/meminfo".to_string(), raw_value: Some("MemTotal: 1 kB".to_string()) });
    let unread = Some(Evidence { source: "/proc/stat".to_string(), raw_value: None });
    assert_eq!(
        evidence_line(&CapabilityState::Supported(1u8), &read),
        Some("  evidence: /proc/meminfo = MemTotal: 1 kB".to_string())
    );
    assert_eq!(
        evidence_line(&CapabilityState::<u8>::Unknown, &unread),
        Some("  evidence: /proc/stat (no value read)".to_string())
    );
    assert_eq!(evidence_line(&CapabilityState::<u8>::Unsupported, &read), None);
    assert_eq!(evidence_line(&CapabilityState::Supported(1u8), &None), None);
}

fn pill_info(name: &str, known_unsupported: bool) -> ProfileInfo {
    ProfileInfo { name: name.to_string(), is_placeholder: false, known_unsupported }
}

#[test]
fn fan_cards_fill_in_order() {
    assert_eq!(fan_cards_shown(&None), (false, false));
    assert_eq!(fan_cards_shown(&Some(vec![])), (false, false));
    assert_eq!(fan_cards_shown(&Some(vec![2400])), (true, false));
    assert_eq!(fan_cards_shown(&Some(vec![2400, 2600, 0])), (true, true));
}

#[test]
fn pills_are_rebuilt_only_when_their_shape_changes() {
    let pills = vec![("quiet".to_string(), false), ("performance".to_string(), true)];
    assert!(!pills_need_rebuild(&pills, &vec![pill_info("quiet", false), pill_info("performance", true)]));
    assert!(pills_need_rebuild(&pills, &vec![pill_info("quiet", false), pill_info("performance", false)]));
    assert!(pills_need_rebuild(&pills, &vec![pill_info("quiet", false)]));
    assert!(pills_need_rebuild(&pills, &vec![pill_info("balanced", false), pill_info("performance", true)]));
    assert!(!pills_need_rebuild(&vec![], &vec![]));
}

#[test]
fn the_pill_named_current_is_pressed() {
    let pills = vec![("quiet".to_string(), false), ("balanced".to_string(), false)];
    assert_eq!(pills_pressed(&pills, "balanced"), vec![false, true]);
    assert_eq!(pills_pressed(&pills, "turbo"), vec![false, false]);
}

#[test]
fn drop_down_selects_the_first_entry_named_current() {
    let names = vec!["quiet".to_string(), "balanced".to_string(), "quiet".to_string()];
    assert_eq!(selected_entry(&names, "quiet"), Some(0));
    assert_eq!(selected_entry(&names, "balanced"), Some(1));
    assert_eq!(selected_entry(&names, "turbo"), None);
    assert!(!entries_changed(&names, &names.clone()));
    assert!(entries_changed(&names, &vec!["quiet".to_string()]));
    assert!(entries_changed(&names, &vec!["quiet".to_string(), "low-power".to_string(), "quiet".to_string()]));
}
