use autocpu::control::{available_presets, set_current_preset, ControlError};
use autocpu::coordinator::{Action, Coordinator, Event, Inbox, Message};
use autocpu::monitor::{choose_device, DeviceChoice, DeviceType, Monitor};
use autocpu::{ChargeState, Config, ConfigError, ControlWrite, PowerState, Preset};

fn governor_preset(governor: &str) -> Preset {
    Preset { epp: None, hwp_dynamic_boost: None, no_turbo: None, scaling_governor: Some(governor.to_string()) }
}

fn eco_perf_config() -> Config {
    Config::new(
        None,
        "eco".to_string(),
        "perf".to_string(),
        vec![("eco".to_string(), governor_preset("powersave")), ("perf".to_string(), governor_preset("performance"))],
    )
    .unwrap()
}

fn applied_governors(config: &Config, action: &Action, dirs: &Vec<String>) -> Vec<(String, String)> {
    let name = match action {
        Action::Apply(name) => name.clone(),
        other => panic!("expected an apply, got {:?}", other),
    };
    let preset = config.preset(&name).expect("known preset");
    let write = |_: &ControlWrite| -> Result<(), String> { Ok(()) };
    preset.apply(dirs, &write).into_iter().map(|a| (a.write.path, a.write.value)).collect()
}

#[test]
fn scenario_battery_override_then_wallpower() {
    let config = eco_perf_config();
    let dirs = vec!["/policy0".to_string(), "/policy1".to_string()];
    let mut c = Coordinator::new(config.on_battery.clone(), config.on_wallpower.clone());

    let a = c.handle(Event::Power(PowerState::OnBattery));
    assert_eq!(a, Action::Apply("eco".to_string()));
    assert_eq!(
        applied_governors(&config, &a, &dirs),
        vec![
            ("/policy0/scaling_governor".to_string(), "powersave".to_string()),
            ("/policy1/scaling_governor".to_string(), "powersave".to_string()),
        ]
    );

    let msg = set_current_preset(&config, "perf").unwrap();
    let a = c.handle(Event::Control(msg));
    assert_eq!(a, Action::Apply("perf".to_string()));
    assert_eq!(c.preset_for(PowerState::OnBattery), "perf");
    assert_eq!(applied_governors(&config, &a, &dirs)[0].1, "performance");

    let a = c.handle(Event::Power(PowerState::OnWallpower));
    assert_eq!(a, Action::Apply("perf".to_string()));
    assert_eq!(c.preset_for(PowerState::OnWallpower), "perf");
    assert_eq!(applied_governors(&config, &a, &dirs)[1].1, "performance");
}

#[test]
fn repeated_power_state_applies_once() {
    let mut c = Coordinator::new("eco".to_string(), "perf".to_string());
    let mut applies = 0;
    for _ in 0..5 {
        if let Some(_) = c.on_power_state(PowerState::OnWallpower) {
            applies += 1;
        }
    }
    assert_eq!(applies, 1);
    assert_eq!(c.on_power_state(PowerState::OnBattery), Some("eco".to_string()));
}

#[test]
fn setting_bound_preset_is_noop() {
    let mut c = Coordinator::new("eco".to_string(), "perf".to_string());
    c.on_power_state(PowerState::OnBattery);
    assert_eq!(c.set_current_preset("eco".to_string()), None);
    assert_eq!(c.current_state(), Some(PowerState::OnBattery));
    assert_eq!(c.preset_for(PowerState::OnBattery), "eco");
    assert_eq!(c.preset_for(PowerState::OnWallpower), "perf");
}

#[test]
fn current_preset_empty_before_first_state() {
    let mut c = Coordinator::new("eco".to_string(), "perf".to_string());
    assert_eq!(c.handle(Event::Control(Message::GetPreset)), Action::Reply(String::new()));
    c.on_power_state(PowerState::OnWallpower);
    assert_eq!(c.handle(Event::Control(Message::GetPreset)), Action::Reply("perf".to_string()));
}

#[test]
fn override_before_first_state_is_deferred() {
    let mut c = Coordinator::new("eco".to_string(), "perf".to_string());
    assert_eq!(c.handle(Event::Control(Message::SetPreset("perf".to_string()))), Action::Idle);
    assert_eq!(c.current_preset(), "");
    assert_eq!(c.on_power_state(PowerState::OnBattery), Some("perf".to_string()));
    assert_eq!(c.preset_for(PowerState::OnBattery), "perf");
    assert_eq!(c.preset_for(PowerState::OnWallpower), "perf");
    assert_eq!(c.on_power_state(PowerState::OnWallpower), Some("perf".to_string()));
}

#[test]
fn override_is_scoped_to_current_state() {
    let mut c = Coordinator::new("eco".to_string(), "perf".to_string());
    c.on_power_state(PowerState::OnWallpower);
    assert_eq!(c.set_current_preset("eco".to_string()), Some("eco".to_string()));
    assert_eq!(c.on_power_state(PowerState::OnBattery), Some("eco".to_string()));
    assert_eq!(c.on_power_state(PowerState::OnWallpower), Some("eco".to_string()));
    assert_eq!(c.preset_for(PowerState::OnBattery), "eco");
}

#[test]
fn inbox_hands_out_control_first() {
    let mut inbox: Inbox<Message> = Inbox::new();
    assert_eq!(inbox.take_next(), None);
    inbox.offer_power(PowerState::OnBattery);
    inbox.offer_control(Message::GetPreset);
    assert!(inbox.has_control() && inbox.has_power());
    assert_eq!(inbox.take_next(), Some(Event::Control(Message::GetPreset)));
    assert!(inbox.has_power());
    assert_eq!(inbox.take_next(), Some(Event::Power(PowerState::OnBattery)));
    assert_eq!(inbox.take_next(), None);
}

#[test]
fn unknown_preset_is_rejected() {
    let config = eco_perf_config();
    assert_eq!(set_current_preset(&config, "turbo"), Err(ControlError::UnknownPreset));
    assert_eq!(set_current_preset(&config, "eco"), Ok(Message::SetPreset("eco".to_string())));
}

#[test]
fn available_presets_lists_names() {
    let config = eco_perf_config();
    assert_eq!(available_presets(&config), vec!["eco".to_string(), "perf".to_string()]);
}

#[test]
fn config_errors() {
    let presets = || vec![("eco".to_string(), governor_preset("powersave"))];
    let e = Config::new(None, "missing".to_string(), "eco".to_string(), presets()).unwrap_err();
    assert_eq!(e, ConfigError::UnknownOnBatteryPreset);
    let e = Config::new(None, "eco".to_string(), "missing".to_string(), presets()).unwrap_err();
    assert_eq!(e, ConfigError::UnknownOnWallpowerPreset);
    let dup = vec![
        ("eco".to_string(), governor_preset("powersave")),
        ("eco".to_string(), governor_preset("performance")),
    ];
    let e = Config::new(None, "eco".to_string(), "eco".to_string(), dup).unwrap_err();
    assert_eq!(e, ConfigError::DuplicatePreset("eco".to_string()));
    let c = Config::new(Some("/dev/bat".to_string()), "eco".to_string(), "eco".to_string(), presets()).unwrap();
    assert_eq!(c.upower_battery_path.as_deref(), Some("/dev/bat"));
    assert!(c.preset("eco").is_some());
    assert!(c.preset("perf").is_none());
}

#[test]
fn no_battery_gives_single_wallpower() {
    let types = vec![Some(DeviceType::LinePower), None, Some(DeviceType::Mouse)];
    let choice = choose_device(false, &types);
    assert_eq!(choice, DeviceChoice::NoDevice);
    let mut m = Monitor::new(choice);
    assert_eq!(m.next(None), Some(PowerState::OnWallpower));
    assert_eq!(m.next(None), None);
    assert_eq!(m.next(Some(ChargeState::Discharging)), None);
}

#[test]
fn device_choice_order() {
    let types = vec![Some(DeviceType::LinePower), Some(DeviceType::Battery), Some(DeviceType::Battery)];
    assert_eq!(choose_device(false, &types), DeviceChoice::Enumerated(1));
    assert_eq!(choose_device(true, &types), DeviceChoice::Pinned);
    assert_eq!(choose_device(false, &Vec::new()), DeviceChoice::NoDevice);
}

#[test]
fn monitor_maps_every_raw_state() {
    let mut m = Monitor::new(DeviceChoice::Pinned);
    let battery = [ChargeState::PendingDischarge, ChargeState::Discharging, ChargeState::Empty, ChargeState::Unknown];
    let wall = [ChargeState::PendingCharge, ChargeState::Charging, ChargeState::FullyCharged];
    for raw in battery {
        assert_eq!(m.next(Some(raw)), Some(PowerState::OnBattery));
        assert_eq!(PowerState::from(raw), PowerState::OnBattery);
    }
    for raw in wall {
        assert_eq!(m.next(Some(raw)), Some(PowerState::OnWallpower));
    }
    assert_eq!(m.next(Some(ChargeState::Charging)), Some(PowerState::OnWallpower));
    assert_eq!(m.next(None), None);
    assert_eq!(m.next(Some(ChargeState::Charging)), None);
}
