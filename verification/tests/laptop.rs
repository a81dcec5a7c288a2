use razer_control_gui::config::PowerConfig;
use razer_control_gui::laptop::{Answer, RazerLaptop};
use razer_control_gui::packet::RazerPacket;

fn laptop(features: &[&str]) -> RazerLaptop {
    RazerLaptop::new(
        "Blade".to_string(),
        features.iter().map(|f| f.to_string()).collect(),
        vec![3500, 5000],
    )
}

fn args(prefix: &[u8]) -> Vec<u8> {
    let mut a = prefix.to_vec();
    a.resize(80, 0);
    a
}

fn check(p: &RazerPacket, class: u8, id: u8, size: u8, prefix: &[u8]) {
    assert_eq!((p.command_class, p.command_id, p.data_size), (class, id, size));
    assert_eq!(p.args, args(prefix));
}

#[test]
fn new_laptop_starts_on_battery() {
    let l = laptop(&[]);
    assert_eq!(l.get_ac_state(), 0);
    assert_eq!(l.get_fan_rpm(), 0);
    assert_eq!(l.get_name(), "Blade");
}

#[test]
fn ac_state_reads_back() {
    let mut l = laptop(&[]);
    assert_eq!(l.set_ac_state(true), 1);
    assert_eq!(l.get_ac_state(), 1);
    assert_eq!(l.set_ac_state(false), 0);
    assert_eq!(l.get_ac_state(), 0);
}

#[test]
fn have_feature_looks_up_names() {
    let l = laptop(&["bho", "logo"]);
    assert!(l.have_feature("bho".to_string()));
    assert!(!l.have_feature("boost".to_string()));
}

#[test]
fn brightness_report_layout() {
    let e = laptop(&[]).set_brightness(128);
    assert_eq!(e.answer, Answer::LastAnswered);
    assert_eq!(e.reports.len(), 1);
    check(&e.reports[0], 0x03, 0x03, 0x03, &[0x01, 0x05, 128]);
    check(&laptop(&[]).get_brightness(), 0x03, 0x83, 0x03, &[0x01, 0x05, 0x00]);
}

#[test]
fn logo_reports_mode_then_state() {
    let e = laptop(&[]).set_logo_led_state(2);
    assert_eq!(e.reports.len(), 2);
    check(&e.reports[0], 0x03, 0x02, 0x03, &[0x01, 0x04, 0x02]);
    check(&e.reports[1], 0x03, 0x00, 0x03, &[0x01, 0x04, 0x01]);
    let e = laptop(&[]).set_logo_led_state(0);
    assert_eq!(e.reports.len(), 1);
    check(&e.reports[0], 0x03, 0x00, 0x03, &[0x01, 0x04, 0x00]);
}

#[test]
fn preset_power_mode_sets_both_zones() {
    let mut l = laptop(&[]);
    let e = l.set_power_mode(2, 0, 0);
    assert_eq!(e.answer, Answer::Always(true));
    assert_eq!(e.reports.len(), 2);
    check(&e.reports[0], 0x0d, 0x02, 0x04, &[0x00, 0x01, 2, 0x00]);
    check(&e.reports[1], 0x0d, 0x02, 0x04, &[0x00, 0x02, 2, 0x00]);
}

#[test]
fn custom_power_mode_sequence() {
    let mut l = laptop(&[]);
    let e = l.set_power_mode(4, 3, 1);
    assert_eq!(e.reports.len(), 8);
    check(&e.reports[0], 0x0d, 0x82, 0x04, &[0x00, 0x01, 0x00, 0x00]);
    check(&e.reports[1], 0x0d, 0x02, 0x04, &[0x00, 0x01, 4, 0x00]);
    check(&e.reports[2], 0x0d, 0x87, 0x03, &[0x00, 0x01, 0x00]);
    // "boost" needs the laptop feature; without it high (2) is sent
    check(&e.reports[3], 0x0d, 0x07, 0x03, &[0x00, 0x01, 2]);
    check(&e.reports[5], 0x0d, 0x07, 0x03, &[0x00, 0x02, 1]);
    check(&e.reports[7], 0x0d, 0x02, 0x04, &[0x00, 0x02, 4, 0x00]);
    let mut l = laptop(&["boost"]);
    let e = l.set_power_mode(4, 3, 1);
    check(&e.reports[3], 0x0d, 0x07, 0x03, &[0x00, 0x01, 3]);
}

#[test]
fn unknown_power_mode_sends_nothing() {
    let mut l = laptop(&[]);
    assert!(l.set_power_mode(7, 0, 0).reports.is_empty());
}

#[test]
fn fan_speed_is_clamped_to_range() {
    let mut l = laptop(&[]);
    let e = l.set_fan_rpm(6000);
    assert_eq!(e.answer, Answer::Always(true));
    assert_eq!(l.get_fan_rpm(), 5000);
    assert_eq!(e.reports.len(), 6);
    check(&e.reports[2], 0x0d, 0x01, 0x03, &[0x00, 0x01, 50]);
    check(&e.reports[1], 0x0d, 0x02, 0x04, &[0x00, 0x01, 0, 0x01]);
    l.set_fan_rpm(1000);
    assert_eq!(l.get_fan_rpm(), 3500);
    l.set_fan_rpm(4250);
    assert_eq!(l.get_fan_rpm(), 4200);
    let e = l.set_fan_rpm(0);
    assert_eq!(l.get_fan_rpm(), 0);
    assert_eq!(e.reports.len(), 4);
}

#[test]
fn custom_mode_ignores_fan_requests() {
    let mut l = laptop(&[]);
    l.set_power_mode(4, 0, 0);
    let e = l.set_fan_rpm(4000);
    assert!(e.reports.is_empty());
    assert_eq!(l.get_fan_rpm(), 0);
}

#[test]
fn bho_needs_the_feature() {
    let e = laptop(&[]).set_bho(true, 80);
    assert_eq!(e.answer, Answer::Always(false));
    assert!(e.reports.is_empty());
    assert!(laptop(&[]).get_bho().is_none());
    let l = laptop(&["bho"]);
    let e = l.set_bho(true, 80);
    assert_eq!(e.answer, Answer::LastAnswered);
    check(&e.reports[0], 0x07, 0x12, 0x01, &[0xd0]);
    check(&l.get_bho().unwrap(), 0x07, 0x92, 0x01, &[0x00]);
}

#[test]
fn custom_frame_rows_need_45_keys() {
    let l = laptop(&[]);
    assert!(l.set_custom_frame_data(1, vec![7; 44]).is_none());
    let p = l.set_custom_frame_data(2, vec![7; 45]).unwrap();
    let mut prefix = vec![0xff, 2, 0x00, 0x0f, 0x00, 0x00, 0x00];
    prefix.extend(vec![7; 45]);
    check(&p, 0x03, 0x0b, 0x34, &prefix);
    check(&l.set_custom_frame().reports[0], 0x03, 0x0a, 0x02, &[0x05, 0x00]);
}

#[test]
fn standard_effect_carries_params() {
    let e = laptop(&[]).set_standard_effect(6, vec![1, 2, 3]);
    check(&e.reports[0], 0x03, 0x0a, 80, &[6, 1, 2, 3]);
}

#[test]
fn reply_value_reads_third_argument() {
    let mut p = RazerPacket::new(0x0d, 0x82, 0x04);
    p.args[2] = 3;
    assert_eq!(RazerLaptop::reply_value(&Some(p)), 3);
    assert_eq!(RazerLaptop::reply_value(&None), 0);
}

#[test]
fn config_is_applied_dark_under_screensaver() {
    let mut l = laptop(&[]);
    let c = PowerConfig {
        brightness: 200,
        logo_state: 1,
        screensaver: false,
        idle: 0,
        power_mode: 1,
        cpu_boost: 0,
        gpu_boost: 0,
        fan_rpm: 0,
    };
    let e = l.set_config(c);
    assert_eq!(e.answer, Answer::Always(true));
    check(&e.reports[0], 0x03, 0x03, 0x03, &[0x01, 0x05, 200]);
    l.set_screensaver(true);
    let e = l.set_config(c);
    check(&e.reports[0], 0x03, 0x03, 0x03, &[0x01, 0x05, 0]);
    check(&e.reports[1], 0x03, 0x00, 0x03, &[0x01, 0x04, 0]);
}

#[test]
fn answers_resolve() {
    assert!(Answer::Always(true).resolve(false));
    assert!(!Answer::Always(false).resolve(true));
    assert!(Answer::LastAnswered.resolve(true));
    assert!(!Answer::LastAnswered.resolve(false));
}

#[test]
fn feature_report_framing() {
    let mut p = RazerPacket::new(0x03, 0x03, 0x03);
    p.args[0] = 0x01;
    p.args[1] = 0x05;
    p.args[2] = 0x80;
    let buf = p.to_feature_report();
    assert_eq!(buf.len(), 91);
    assert_eq!(&buf[0..12], &[0x00, 0x00, 0x1f, 0x00, 0x00, 0x00, 0x03, 0x03, 0x03, 0x01, 0x05, 0x80]);
    assert_eq!(buf[89], 0x03 ^ 0x03 ^ 0x03 ^ 0x01 ^ 0x05 ^ 0x80);
    assert_eq!(buf[90], 0x00);
    let mut reply = buf.clone();
    assert!(RazerPacket::from_feature_report(&reply, 91).is_none());
    reply[1] = 0x02;
    let back = RazerPacket::from_feature_report(&reply, 91).unwrap();
    assert_eq!((back.command_class, back.command_id, back.data_size), (0x03, 0x03, 0x03));
    assert_eq!(back.args, p.args);
    assert!(RazerPacket::from_feature_report(&reply, 64).is_none());
}

#[test]
fn fan_request_checks() {
    let l = RazerLaptop::new("X".to_string(), vec![], vec![]);
    assert!(l.can_set_fan_rpm(0));
    assert!(!l.can_set_fan_rpm(4000));
    let mut c = PowerConfig::new();
    c.fan_rpm = 4000;
    assert!(!l.can_apply_config(c));
    c.power_mode = 4;
    assert!(l.can_apply_config(c));
    assert!(laptop(&[]).can_set_fan_rpm(4000));
}
