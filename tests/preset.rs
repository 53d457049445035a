use std::cell::RefCell;

use autocpu::{ControlWrite, Preset, Setting};

fn full_preset() -> Preset {
    Preset {
        epp: Some("power".to_string()),
        hwp_dynamic_boost: Some(true),
        no_turbo: Some(false),
        scaling_governor: Some("powersave".to_string()),
    }
}

#[test]
fn plan_writes_globals_then_governor_before_epp() {
    let dirs = vec!["/sys/devices/system/cpu/cpufreq/policy0".to_string(), "/x/policy1".to_string()];
    let plan: Vec<(Setting, String, String)> =
        full_preset().plan(&dirs).into_iter().map(|w| (w.setting, w.path, w.value)).collect();
    assert_eq!(
        plan,
        vec![
            (Setting::HwpDynamicBoost, "/sys/devices/system/cpu/intel_pstate/hwp_dynamic_boost".to_string(), "1".to_string()),
            (Setting::NoTurbo, "/sys/devices/system/cpu/intel_pstate/no_turbo".to_string(), "0".to_string()),
            (Setting::ScalingGovernor, "/sys/devices/system/cpu/cpufreq/policy0/scaling_governor".to_string(), "powersave".to_string()),
            (Setting::Epp, "/sys/devices/system/cpu/cpufreq/policy0/energy_performance_preference".to_string(), "power".to_string()),
            (Setting::ScalingGovernor, "/x/policy1/scaling_governor".to_string(), "powersave".to_string()),
            (Setting::Epp, "/x/policy1/energy_performance_preference".to_string(), "power".to_string()),
        ]
    );
}

#[test]
fn empty_preset_writes_nothing() {
    let p = Preset { epp: None, hwp_dynamic_boost: None, no_turbo: None, scaling_governor: None };
    assert!(p.plan(&vec!["/a".to_string()]).is_empty());
    let full = full_preset();
    assert_eq!(full.plan(&Vec::new()).len(), 2);
}

#[test]
fn failed_governor_write_does_not_stop_the_rest() {
    let dirs = vec!["/c0".to_string(), "/c1".to_string()];
    let log = RefCell::new(Vec::new());
    let write = |w: &ControlWrite| -> Result<(), String> {
        log.borrow_mut().push(w.path.clone());
        if w.path == "/c0/scaling_governor" {
            Err("rejected".to_string())
        } else {
            Ok(())
        }
    };
    let attempts = full_preset().apply(&dirs, &write);
    assert_eq!(attempts.len(), 6);
    assert_eq!(log.borrow().len(), 6);
    assert_eq!(log.borrow()[3], "/c0/energy_performance_preference");
    assert_eq!(log.borrow()[4], "/c1/scaling_governor");
    let failed: Vec<usize> = attempts.iter().enumerate().filter(|(_, a)| a.result.is_err()).map(|(i, _)| i).collect();
    assert_eq!(failed, vec![2]);
    assert_eq!(attempts[2].write.setting, Setting::ScalingGovernor);
}
