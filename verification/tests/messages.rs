use razer_control_gui::messages::{
    get_bho, get_brightness_request, get_cooling_pad_state, get_device_name, get_fan_speed, get_power,
    get_power_start, get_value, set_power_request, set_result, DaemonCommand, DaemonResponse, Expected, PowerStep,
};

#[test]
fn requests_number_the_power_source() {
    assert!(matches!(get_brightness_request(true), DaemonCommand::GetBrightness { ac: 1 }));
    assert!(matches!(get_brightness_request(false), DaemonCommand::GetBrightness { ac: 0 }));
    assert!(matches!(
        set_power_request(true, (4, 2, 1)),
        DaemonCommand::SetPowerMode { ac: 1, pwr: 4, cpu: 2, gpu: 1 }
    ));
    let (_, first) = get_power_start(false);
    assert!(matches!(first, DaemonCommand::GetPwrLevel { ac: 0 }));
}

#[test]
fn answers_of_the_expected_kind_are_taken() {
    assert_eq!(get_device_name(DaemonResponse::GetDeviceName { name: "Blade".to_string() }), Some("Blade".to_string()));
    assert_eq!(get_device_name(DaemonResponse::SetEffect { result: true }), None);
    assert_eq!(get_bho(DaemonResponse::GetBatteryHealthOptimizer { is_on: true, threshold: 80 }), Some((true, 80)));
    assert_eq!(get_value(Expected::Brightness, DaemonResponse::GetBrightness { result: 40 }), Some(40));
    assert_eq!(get_value(Expected::LogoLedState, DaemonResponse::GetBrightness { result: 40 }), None);
    assert_eq!(get_fan_speed(DaemonResponse::GetFanSpeed { rpm: 4200 }), Some(4200));
    let state = get_cooling_pad_state(DaemonResponse::GetCoolingPadState {
        present: true,
        fan_rpm: 0,
        effect: "wave".to_string(),
        effect_params: vec![],
    });
    assert_eq!(state, Some((true, 0, "wave".to_string(), vec![])));
}

#[test]
fn power_is_read_one_answer_at_a_time() {
    let (mut read, first) = get_power_start(true);
    assert!(matches!(first, DaemonCommand::GetPwrLevel { ac: 1 }));
    let step = get_power(&mut read, Some(DaemonResponse::GetPwrLevel { pwr: 4 }));
    assert!(matches!(step, PowerStep::Ask(DaemonCommand::GetCPUBoost { ac: 1 })));
    let step = get_power(&mut read, Some(DaemonResponse::GetCPUBoost { cpu: 2 }));
    assert!(matches!(step, PowerStep::Ask(DaemonCommand::GetGPUBoost { ac: 1 })));
    let step = get_power(&mut read, Some(DaemonResponse::GetGPUBoost { gpu: 1 }));
    assert!(matches!(step, PowerStep::Done(Some((4, 2, 1)))));
}

#[test]
fn power_read_stops_when_no_answer_comes() {
    let (mut read, _) = get_power_start(false);
    let step = get_power(&mut read, None);
    assert!(matches!(step, PowerStep::Done(None)));
    assert!(read.got.is_empty());
}

#[test]
fn power_read_stops_at_a_wrong_answer() {
    let (mut read, _) = get_power_start(false);
    let step = get_power(&mut read, Some(DaemonResponse::GetCPUBoost { cpu: 2 }));
    assert!(matches!(step, PowerStep::Done(None)));

    let (mut read, _) = get_power_start(false);
    let step = get_power(&mut read, Some(DaemonResponse::GetPwrLevel { pwr: 4 }));
    assert!(matches!(step, PowerStep::Ask(DaemonCommand::GetCPUBoost { ac: 0 })));
    let step = get_power(&mut read, Some(DaemonResponse::GetGPUBoost { gpu: 2 }));
    assert!(matches!(step, PowerStep::Done(None)));
    assert_eq!(read.got, vec![4]);
}

#[test]
fn setting_answers_must_match_the_request() {
    let req = DaemonCommand::SetBrightness { ac: 1, val: 40 };
    assert_eq!(set_result(&req, DaemonResponse::SetBrightness { result: true }), Some(true));
    assert_eq!(set_result(&req, DaemonResponse::SetLogoLedState { result: true }), None);
    let req = DaemonCommand::SetFanSpeed { ac: 0, rpm: 0 };
    assert_eq!(set_result(&req, DaemonResponse::SetFanSpeed { result: false }), Some(false));
}
