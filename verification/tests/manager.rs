use razer_control_gui::config::{Configuration, PowerConfig};
use razer_control_gui::cooling_pad::{CoolingPad, PadCommand};
use razer_control_gui::laptop::{Answer, RazerLaptop};
use razer_control_gui::manager::{DeviceManager, Query, SupportedDevice};
use razer_control_gui::packet::RazerPacket;

fn manager_with_config() -> DeviceManager {
    DeviceManager::from_laptops_file(vec![], None)
}

fn laptop(features: &[&str]) -> RazerLaptop {
    RazerLaptop::new(
        "Blade".to_string(),
        features.iter().map(|f| f.to_string()).collect(),
        vec![3500, 5000],
    )
}

fn known(q: Query) -> u8 {
    match q {
        Query::Known(v) => v,
        Query::AskLaptop(_) => panic!("expected a known value"),
    }
}

#[test]
fn fresh_manager_has_nothing() {
    let m = DeviceManager::new();
    assert!(m.get_device().is_none() && m.config().is_none());
    assert!(!m.get_sync());
    assert!(!m.get_light_control());
    assert_eq!(known(m.get_brightness(0)), 0);
    assert_eq!(m.get_fan_rpm(0), 0);
    let (present, rpm, effect, params) = m.get_cooling_pad_state();
    assert!(!present);
    assert_eq!((rpm, effect.as_str(), params), (0, "off", vec![]));
}

#[test]
fn missing_config_file_gives_fresh_config() {
    let m = manager_with_config();
    let c = m.config().unwrap();
    assert_eq!(c.power.len(), 2);
    assert!(!c.sync);
    let mut own = Configuration::new();
    own.sync = true;
    let m = DeviceManager::from_laptops_file(vec![], Some(own));
    assert!(m.get_sync());
}

#[test]
fn brightness_read_after_write() {
    let mut m = manager_with_config();
    let p = m.set_brightness(1, 50);
    assert_eq!(p.result, Answer::Always(false));
    assert!(p.save_config);
    assert!(p.reports.is_empty());
    assert_eq!(m.config().unwrap().power[1].brightness, 127);
    assert_eq!(known(m.get_brightness(1)), 50);
    for b in 0..=100u8 {
        m.set_brightness(0, b);
        assert_eq!(known(m.get_brightness(0)), b);
    }
    m.set_brightness(0, 101);
    assert_eq!(known(m.get_brightness(0)), 0);
}

#[test]
fn brightness_percent_rounding() {
    assert_eq!(DeviceManager::brightness_percent(255), 100);
    assert_eq!(DeviceManager::brightness_percent(128), 50);
    assert_eq!(DeviceManager::brightness_percent(0), 0);
    let mut r = RazerPacket::new(0x03, 0x83, 0x03);
    r.args[2] = 255;
    assert_eq!(DeviceManager::brightness_from_reply(&Some(r)), 100);
    assert_eq!(DeviceManager::brightness_from_reply(&None), 0);
}

#[test]
fn sync_copies_settings_and_keeps_sources_together() {
    let mut m = manager_with_config();
    m.set_brightness(0, 80);
    m.set_logo_led_state(0, 1);
    m.change_idle(0, 5);
    let p = m.set_sync(true);
    assert_eq!(p.result, Answer::Always(true));
    assert!(m.get_sync());
    let c = m.config().unwrap();
    assert_eq!(c.power[1].brightness, c.power[0].brightness);
    assert_eq!(c.power[1].logo_state, 1);
    assert_eq!(c.power[1].idle, 5);
    m.set_brightness(1, 20);
    m.set_logo_led_state(1, 2);
    let c = m.config().unwrap();
    assert_eq!(c.power[0].brightness, c.power[1].brightness);
    assert_eq!(c.power[0].logo_state, 2);
    assert_eq!(m.get_logo_led_state(0), 2);
}

#[test]
fn without_sync_sources_stay_apart() {
    let mut m = manager_with_config();
    m.set_logo_led_state(1, 2);
    assert_eq!(m.get_logo_led_state(1), 2);
    assert_eq!(m.get_logo_led_state(0), 0);
}

#[test]
fn light_control_saves_only_changes() {
    let mut m = manager_with_config();
    assert!(m.set_light_control(true).save_config);
    assert!(m.get_light_control());
    assert!(!m.set_light_control(true).save_config);
}

#[test]
fn idle_change_rearms_the_watch() {
    let mut m = manager_with_config();
    let p = m.change_idle(0, 3);
    assert!(p.save_config);
    assert!(m.change_idle_pending());
    let w = m.add_idle_watch();
    assert_eq!(w.add_timeout_ms, Some(180_000));
    assert_eq!(w.remove, None);
    assert!(!m.change_idle_pending());
    m.idle_watch_added(7);
    assert_eq!(m.idle_id(), 7);
    assert!(!m.change_idle(0, 3).save_config);
    let w = m.add_idle_watch();
    assert!(w.remove.is_none() && w.add_timeout_ms.is_none());
    m.change_idle(0, 0);
    let w = m.add_idle_watch();
    assert_eq!(w.remove, Some(7));
    assert_eq!(w.add_timeout_ms, None);
}

#[test]
fn power_settings_read_back_from_config() {
    let mut m = manager_with_config();
    let p = m.set_power_mode(1, 4, 2, 1);
    assert_eq!(p.result, Answer::Always(false));
    assert_eq!(known(m.get_power_mode(1)), 4);
    assert_eq!(known(m.get_cpu_boost(1)), 2);
    assert_eq!(known(m.get_gpu_boost(1)), 1);
    m.set_fan_rpm(0, 4200);
    assert_eq!(m.get_fan_rpm(0), 4200);
}

#[test]
fn laptop_on_source_is_asked() {
    let mut m = manager_with_config();
    m.set_device(laptop(&["bho"]));
    let p = m.set_brightness(0, 100);
    assert_eq!(p.result, Answer::LastAnswered);
    assert_eq!(p.reports.len(), 1);
    assert_eq!(p.reports[0].args[2], 255);
    let p = m.set_brightness(1, 100);
    assert_eq!(p.result, Answer::Always(true));
    assert!(p.reports.is_empty());
    match m.get_brightness(0) {
        Query::AskLaptop(r) => assert_eq!((r.command_class, r.command_id), (0x03, 0x83)),
        Query::Known(_) => panic!("expected a request"),
    }
    let p = m.set_power_mode(0, 2, 0, 0);
    assert_eq!(p.result, Answer::Always(true));
    assert_eq!(p.reports.len(), 2);
    assert!(m.get_bho_handler().is_some());
    assert_eq!(m.set_bho_handler(true, 70).result, Answer::LastAnswered);
}

#[test]
fn bho_reply_decoding() {
    let mut r = RazerPacket::new(0x07, 0x92, 0x01);
    r.args[0] = 0xd0;
    assert_eq!(DeviceManager::bho_from_reply(&Some(r)), Some((true, 80)));
    assert_eq!(DeviceManager::bho_from_reply(&None), None);
    let m = manager_with_config();
    assert!(m.get_bho_handler().is_none());
    assert_eq!(m.set_bho_handler(true, 70).result, Answer::Always(false));
}

#[test]
fn ac_state_change_applies_new_source() {
    let mut m = manager_with_config();
    m.set_device(laptop(&[]));
    m.set_brightness(1, 100);
    let reports = m.set_ac_state(true);
    assert!(m.change_idle_pending());
    assert_eq!(m.get_device().unwrap().get_ac_state(), 1);
    assert_eq!(reports[0].args[2], 255);
}

#[test]
fn lights_off_and_back() {
    let mut m = manager_with_config();
    m.set_device(laptop(&[]));
    m.set_brightness(0, 100);
    m.idle_watch_added(3);
    let off = m.light_off();
    assert_eq!(off[0].args[2], 0);
    assert!(m.add_active_watch());
    m.active_watch_added(4);
    assert_eq!(m.active_id(), 4);
    let on = m.restore_light();
    assert_eq!(on[0].args[2], 255);
    assert!(!m.add_active_watch());
}

#[test]
fn standard_effect_only_with_light_control() {
    let mut m = manager_with_config();
    m.set_device(laptop(&[]));
    let p = m.set_standard_effect(6, vec![1, 2]);
    assert_eq!(p.result, Answer::Always(true));
    assert_eq!(&p.reports[0].args[0..3], &[6, 1, 2]);
    assert!(m.restore_standard_effect().is_empty());
    m.set_light_control(true);
    assert_eq!(&m.restore_standard_effect()[0].args[0..3], &[6, 1, 2]);
}

#[test]
fn cooling_pad_settings() {
    let mut m = manager_with_config();
    let p = m.set_cooling_pad_fan_rpm(-5);
    assert!(p.commands.is_none());
    assert_eq!(m.get_cooling_pad_state().1, 0);
    let p = m.set_cooling_pad_effect("static".to_string(), vec![1, 2, 3]);
    assert!(p.save_config && p.commands.is_none());
    let (present, _, effect, params) = m.get_cooling_pad_state();
    assert!(!present);
    assert_eq!((effect.as_str(), params), ("static", vec![1, 2, 3]));
    let paths = Some(vec![b"/dev/hidraw1".to_vec()]);
    assert!(m.refresh_cooling_pad(&paths));
    let restore = m.cooling_pad_probed(Some(CoolingPad::open(b"/dev/hidraw1".to_vec(), 91).unwrap())).unwrap();
    assert_eq!(restore.effect.unwrap().len(), 3);
    assert!(matches!(restore.fan, PadCommand::Raw { .. }));
    assert!(!m.refresh_cooling_pad(&paths));
    assert!(!m.refresh_cooling_pad(&None));
    assert!(m.refresh_cooling_pad(&Some(vec![])));
    assert!(m.get_cooling_pad_state().0);
    let p = m.set_cooling_pad_effect("rainbow".to_string(), vec![]);
    assert!(p.commands.is_none());
    let p = m.set_cooling_pad_fan_rpm(2000);
    assert_eq!(p.commands.unwrap().len(), 1);
    assert!(m.cooling_pad_probed(None).is_none());
    assert!(!m.get_cooling_pad_state().0);
}

#[test]
fn supported_device_lookup() {
    let dev = |name: &str, vid: &str, pid: &str| SupportedDevice {
        name: name.to_string(),
        vid: vid.to_string(),
        pid: pid.to_string(),
        features: vec![],
        fan: vec![3500, 5000],
    };
    let m = DeviceManager::from_laptops_file(
        vec![dev("A", "1532", "0233"), dev("B", "1532", "0234"), dev("C", "1532", "0234")],
        None,
    );
    assert_eq!(m.find_supported_device(0x1532, 0x0234).unwrap().name, "B");
    assert!(m.find_supported_device(0x1532, 0x0299).is_none());
    let m = DeviceManager::from_laptops_file(vec![dev("D", "+15aB", "00Ff"), dev("E", "1532", "fffF")], None);
    assert_eq!(m.find_supported_device(0x15ab, 0x00ff).unwrap().name, "D");
    assert_eq!(m.find_supported_device(0x1532, 0xffff).unwrap().name, "E");
}

#[test]
fn power_config_default() {
    let p = PowerConfig::new();
    assert_eq!((p.brightness, p.idle, p.fan_rpm), (0, 0, 0));
}

#[test]
fn pad_plan_answers() {
    let mut m = manager_with_config();
    let p = m.set_cooling_pad_fan_rpm(1000);
    assert!(!p.resolve(true));
    m.cooling_pad_probed(Some(CoolingPad::open(b"/dev/hidraw9".to_vec(), 91).unwrap()));
    let p = m.set_cooling_pad_fan_rpm(1000);
    assert!(p.resolve(true));
    assert!(!p.resolve(false));
}
