use std::cell::RefCell;
use std::collections::HashMap;

use autocpu::cpuinfo::{
    available_frequencies, available_governors, boost, driver, energy_perf_bias, energy_performance_available_preferences,
    energy_performance_preference, frequency, governor, irqbalance_pid, max_frequency, max_perf_pct, min_frequency,
    min_perf_pct, no_turbo, online, platform_profile, platform_profile_choices, set_boost, set_energy_perf_bias,
    set_energy_performance_preference, set_frequency, set_governor, set_max_frequency, set_max_perf_pct,
    set_min_frequency, set_min_perf_pct, set_no_turbo, set_online, set_platform_profile, throttle, PerfBias,
};
use autocpu::text::{decimal, parse_u32, parse_u8, split_spaces, trim};

fn fs(files: &[(&str, &str)]) -> HashMap<String, String> {
    files.iter().map(|(p, c)| (format!("/sys/devices/system/cpu/{p}"), c.to_string())).collect()
}

#[test]
fn reads_trimmed_text() {
    let files = fs(&[
        ("cpu0/cpufreq/scaling_driver", "intel_pstate\n"),
        ("cpu3/cpufreq/scaling_governor", " powersave \n"),
        ("cpu12/cpufreq/scaling_cur_freq", "800000\n"),
        ("cpu1/cpufreq/scaling_min_freq", "400000\n"),
        ("cpu1/cpufreq/scaling_max_freq", "4000000\n"),
        ("cpu2/cpufreq/energy_performance_preference", "balance_power\n"),
        ("acpi/platform_profile", "balanced\n"),
    ]);
    let read = |p: &str| files.get(p).cloned();
    assert_eq!(driver(&read), Some("intel_pstate".to_string()));
    assert_eq!(governor(&read, 3), Some("powersave".to_string()));
    assert_eq!(governor(&read, 4), None);
    assert_eq!(frequency(&read, 12), Some("800000".to_string()));
    assert_eq!(min_frequency(&read, 1), Some("400000".to_string()));
    assert_eq!(max_frequency(&read, 1), Some("4000000".to_string()));
    assert_eq!(energy_performance_preference(&read, 2), Some("balance_power".to_string()));
    assert_eq!(platform_profile(&read), Some("balanced".to_string()));
}

#[test]
fn reads_lists() {
    let files = fs(&[
        ("cpu0/cpufreq/scaling_available_governors", "performance powersave\n"),
        ("cpu0/cpufreq/energy_performance_available_preferences", "default performance  power\n"),
        ("acpi/platform_profile_choices", "\n"),
    ]);
    let read = |p: &str| files.get(p).cloned();
    assert_eq!(available_governors(&read), vec!["performance", "powersave"]);
    assert_eq!(energy_performance_available_preferences(&read), vec!["default", "performance", "", "power"]);
    assert_eq!(platform_profile_choices(&read), vec![""]);
    assert!(available_frequencies(&read).is_empty());
}

#[test]
fn reads_flags_and_numbers() {
    let files = fs(&[
        ("intel_pstate/no_turbo", "1\n"),
        ("cpufreq/boost", "2\n"),
        ("cpu5/online", "0\n"),
        ("intel_pstate/min_perf_pct", "17\n"),
        ("intel_pstate/max_perf_pct", "300\n"),
        ("cpu0/thermal_throttle/core_throttle_count", "+42\n"),
        ("cpu0/power/energy_perf_bias", "6\n"),
        ("cpu1/power/energy_perf_bias", "7\n"),
    ]);
    let read = |p: &str| files.get(p).cloned();
    assert_eq!(no_turbo(&read), Some(true));
    assert_eq!(boost(&read), None);
    assert_eq!(online(&read, 5), Some(false));
    assert_eq!(online(&read, 6), None);
    assert_eq!(min_perf_pct(&read), Some(17));
    assert_eq!(max_perf_pct(&read), None);
    assert_eq!(throttle(&read, 0), Some(42));
    assert_eq!(energy_perf_bias(&read, 0), Some(PerfBias::Normal));
    assert_eq!(energy_perf_bias(&read, 1), None);
}

#[test]
fn writes_paths_and_values() {
    let log: RefCell<Vec<(String, String)>> = RefCell::new(Vec::new());
    let write = |p: &str, v: &str| -> Result<(), ()> {
        log.borrow_mut().push((p.to_string(), v.to_string()));
        Ok(())
    };
    set_governor(&write, 7, "performance").unwrap();
    set_frequency(&write, 0, 1200000).unwrap();
    set_min_frequency(&write, 10, 0).unwrap();
    set_max_frequency(&write, 2, 4294967295).unwrap();
    set_energy_performance_preference(&write, 1, "power").unwrap();
    set_energy_perf_bias(&write, 3, PerfBias::Power).unwrap();
    set_platform_profile(&write, "quiet").unwrap();
    set_no_turbo(&write, true).unwrap();
    set_boost(&write, false).unwrap();
    set_min_perf_pct(&write, 5).unwrap();
    set_max_perf_pct(&write, 100).unwrap();
    set_online(&write, 65535, true).unwrap();
    let expected: Vec<(String, String)> = [
        ("cpu7/cpufreq/scaling_governor", "performance"),
        ("cpu0/cpufreq/scaling_setfreq", "1200000"),
        ("cpu10/cpufreq/scaling_min_freq", "0"),
        ("cpu2/cpufreq/scaling_max_freq", "4294967295"),
        ("cpu1/cpufreq/energy_performance_preference", "power"),
        ("cpu3/power/energy_perf_bias", "15"),
        ("acpi/platform_profile", "quiet"),
        ("intel_pstate/no_turbo", "1"),
        ("cpufreq/boost", "0"),
        ("intel_pstate/min_perf_pct", "5"),
        ("intel_pstate/max_perf_pct", "100"),
        ("cpu65535/online", "1"),
    ]
    .iter()
    .map(|(p, v)| (format!("/sys/devices/system/cpu/{p}"), v.to_string()))
    .collect();
    assert_eq!(*log.borrow(), expected);
}

#[test]
fn write_error_is_returned() {
    let write = |_: &str, _: &str| -> Result<(), String> { Err("denied".to_string()) };
    assert_eq!(set_boost(&write, true), Err("denied".to_string()));
}

#[test]
fn perf_bias_values() {
    assert_eq!(PerfBias::try_from(0u8), Ok(PerfBias::Performance));
    assert_eq!(PerfBias::try_from(4u8), Ok(PerfBias::BalancePerformance));
    assert_eq!(PerfBias::try_from(8u8), Ok(PerfBias::BalancePower));
    assert_eq!(PerfBias::try_from(15u8), Ok(PerfBias::Power));
    assert_eq!(PerfBias::try_from(1u8), Err(()));
    assert_eq!(PerfBias::Normal.value(), 6);
}

#[test]
fn finds_irqbalance() {
    let dirs: Vec<String> = ["self", "1", "77", "812", "900"].iter().map(|s| s.to_string()).collect();
    let comms: HashMap<&str, &[u8]> = HashMap::from([
        ("/proc/1/comm", &b"systemd\n"[..]),
        ("/proc/812/comm", &b"irqbalance\n"[..]),
        ("/proc/900/comm", &b"irqbalance\n"[..]),
    ]);
    let read = |p: &str| comms.get(p).map(|b| b.to_vec());
    assert_eq!(irqbalance_pid(&dirs, &read), Some(812));
    let short = |_: &str| Some(b"irqbal".to_vec());
    assert_eq!(irqbalance_pid(&dirs, &short), None);
    assert_eq!(irqbalance_pid(&Vec::new(), &read), None);
}

#[test]
fn text_helpers() {
    assert_eq!(trim("\t a b \u{3000}\n"), "a b");
    assert_eq!(trim("   "), "");
    assert_eq!(split_spaces("a  b"), vec!["a", "", "b"]);
    assert_eq!(split_spaces(""), vec![""]);
    assert_eq!(decimal(0), "0");
    assert_eq!(decimal(4294967295), "4294967295");
    assert_eq!(parse_u32("4294967295"), Some(4294967295));
    assert_eq!(parse_u32("4294967296"), None);
    assert_eq!(parse_u32("+7"), Some(7));
    assert_eq!(parse_u32("+"), None);
    assert_eq!(parse_u32("-1"), None);
    assert_eq!(parse_u32(""), None);
    assert_eq!(parse_u32("1 2"), None);
    assert_eq!(parse_u8("255"), Some(255));
    assert_eq!(parse_u8("256"), None);
    assert_eq!(parse_u8("007"), Some(7));
}
