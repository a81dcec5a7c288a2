use razer_control_gui::settings::{
    ac_index, boost_rows_visible, cooling_pad_controls, cooling_pad_effect_index, cooling_pad_effect_name,
    cooling_pad_effect_params, cooling_pad_effect_uses_color, fan_controls, fan_switch_request, keyboard_effect,
    logo_option,
};

#[test]
fn effect_index_and_name() {
    assert_eq!(cooling_pad_effect_index("static"), 1);
    assert_eq!(cooling_pad_effect_index("breathing"), 2);
    assert_eq!(cooling_pad_effect_index("wave"), 3);
    assert_eq!(cooling_pad_effect_index("off"), 0);
    assert_eq!(cooling_pad_effect_index("spectrum"), 0);
    for i in 0..4 {
        assert_eq!(cooling_pad_effect_index(cooling_pad_effect_name(i)), i);
    }
    assert_eq!(cooling_pad_effect_name(9), "off");
}

#[test]
fn effects_with_colour() {
    assert!(cooling_pad_effect_uses_color("static"));
    assert!(cooling_pad_effect_uses_color("breathing"));
    assert!(!cooling_pad_effect_uses_color("wave"));
    assert_eq!(cooling_pad_effect_params("static", 1, 2, 3), vec![1, 2, 3]);
    assert_eq!(cooling_pad_effect_params("off", 1, 2, 3), Vec::<u8>::new());
}

#[test]
fn pad_controls() {
    let c = cooling_pad_controls(true, 0);
    assert!(c.switch_sensitive && c.auto && !c.scale_sensitive);
    assert_eq!(c.target_rpm, 500);
    let c = cooling_pad_controls(true, 1800);
    assert!(!c.auto && c.scale_sensitive);
    assert_eq!(c.target_rpm, 1800);
    let c = cooling_pad_controls(false, 1800);
    assert!(!c.switch_sensitive && !c.scale_sensitive);
}

#[test]
fn keyboard_effects() {
    let (n, p) = keyboard_effect(0, [1, 2, 3], [4, 5, 6]).unwrap();
    assert_eq!((n, p), ("static", vec![1, 2, 3]));
    let (n, p) = keyboard_effect(1, [1, 2, 3], [4, 5, 6]).unwrap();
    assert_eq!((n, p), ("static_gradient", vec![1, 2, 3, 4, 5, 6]));
    let (n, p) = keyboard_effect(2, [1, 2, 3], [4, 5, 6]).unwrap();
    assert_eq!((n, p), ("wave_gradient", vec![1, 2, 3, 4, 5, 6]));
    let (n, p) = keyboard_effect(3, [1, 2, 3], [4, 5, 6]).unwrap();
    assert_eq!((n, p), ("breathing_single", vec![1, 2, 3, 10]));
    assert!(keyboard_effect(4, [1, 2, 3], [4, 5, 6]).is_none());
}

#[test]
fn small_page_rules() {
    assert!(boost_rows_visible(4));
    assert!(!boost_rows_visible(1));
    assert_eq!(ac_index(true), 1);
    assert_eq!(ac_index(false), 0);
}

#[test]
fn fan_controls_follow_speed_read_back() {
    assert_eq!(fan_controls(0), (true, false));
    assert_eq!(fan_controls(3500), (false, true));
    assert_eq!(fan_switch_request(true, 3500), 0);
    assert_eq!(fan_switch_request(false, 3500), 3500);
}

#[test]
fn logo_option_is_clamped() {
    assert_eq!(logo_option(0), 0);
    assert_eq!(logo_option(2), 2);
    assert_eq!(logo_option(7), 2);
}
