use vstd::prelude::*;

verus! {

/// The position of a cooling pad effect in the settings' effect list (0 for
/// "off" and unknown names).
pub open spec fn spec_effect_index(name: Seq<char>) -> u32 {
    if name == "static"@ {
        1
    } else if name == "breathing"@ {
        2
    } else if name == "wave"@ {
        3
    } else {
        0
    }
}

/// The cooling pad effect at a position of the settings' effect list.
pub open spec fn spec_effect_name(index: u32) -> Seq<char> {
    if index == 1 {
        "static"@
    } else if index == 2 {
        "breathing"@
    } else if index == 3 {
        "wave"@
    } else {
        "off"@
    }
}

/// Whether a cooling pad effect takes a colour.
pub open spec fn spec_uses_color(effect: Seq<char>) -> bool {
    effect == "static"@ || effect == "breathing"@
}

/// Whether two strings are equal.
fn str_eq(a: &str, b: &str) -> (r: bool)
    ensures
        r == (a@ == b@),
{
    a.to_owned() == b.to_owned()
}

pub fn cooling_pad_effect_index(name: &str) -> (r: u32)
    ensures
        r == spec_effect_index(name@),
{
    if str_eq(name, "static") {
        1
    } else if str_eq(name, "breathing") {
        2
    } else if str_eq(name, "wave") {
        3
    } else {
        0
    }
}

pub fn cooling_pad_effect_name(index: u32) -> (r: &'static str)
    ensures
        r@ == spec_effect_name(index),
{
    match index {
        1 => "static",
        2 => "breathing",
        3 => "wave",
        _ => "off",
    }
}

pub fn cooling_pad_effect_uses_color(effect: &str) -> (r: bool)
    ensures
        r == spec_uses_color(effect@),
{
    str_eq(effect, "static") || str_eq(effect, "breathing")
}

/// How the cooling pad controls of the settings window are set for a pad
/// state.
pub struct PadControls {
    /// The fan "auto" switch is usable.
    pub switch_sensitive: bool,
    /// The fan runs automatically.
    pub auto: bool,
    /// The fan speed slider is usable.
    pub scale_sensitive: bool,
    /// The speed the slider shows.
    pub target_rpm: i32,
}

/// The state of the fan controls for a pad that is (or is not) present with
/// a fan speed (0: automatic): the slider shows the speed, or 500 RPM when
/// automatic.
pub fn cooling_pad_controls(present: bool, fan_rpm: i32) -> (r: PadControls)
    ensures
        r.switch_sensitive == present,
        r.auto == (fan_rpm == 0),
        r.scale_sensitive == (present && fan_rpm != 0),
        r.target_rpm == (if fan_rpm > 0 { fan_rpm } else { 500 }),
{
    let auto = fan_rpm == 0;
    PadControls {
        switch_sensitive: present,
        auto,
        scale_sensitive: present && !auto,
        target_rpm: if fan_rpm > 0 { fan_rpm } else { 500 },
    }
}

/// The laptop fan controls for a fan speed read back (0: automatic): the
/// "auto" switch is on exactly for 0, and the speed slider is usable
/// otherwise.
pub fn fan_controls(fan_speed: i32) -> (r: (bool, bool))
    ensures
        r == (fan_speed == 0, fan_speed != 0),
{
    let auto = fan_speed == 0;
    (auto, !auto)
}

/// The fan speed requested when the "auto" switch is turned: 0 (automatic)
/// when it is turned on, the laptop's lowest fan speed when turned off.
pub fn fan_switch_request(active: bool, min_fan_speed: u16) -> (r: i32)
    ensures
        r == (if active { 0 } else { min_fan_speed as i32 }),
{
    if active { 0 } else { min_fan_speed as i32 }
}

/// The entry of the logo list (off, on, breathing) shown for a logo state
/// read back after a change: states above 2 show as breathing.
pub fn logo_option(logo_state: u8) -> (r: u8)
    ensures
        r == (if logo_state > 2 { 2 } else { logo_state }),
{
    if logo_state > 2 { 2 } else { logo_state }
}

/// The parameters sent with a cooling pad effect chosen in the settings: the
/// colour for effects that take one, nothing otherwise.
pub fn cooling_pad_effect_params(effect: &str, red: u8, green: u8, blue: u8) -> (r: Vec<u8>)
    ensures
        spec_uses_color(effect@) ==> r@ == seq![red, green, blue],
        !spec_uses_color(effect@) ==> r@ == Seq::<u8>::empty(),
{
    if cooling_pad_effect_uses_color(effect) {
        let v: Vec<u8> = vec![red, green, blue];
        assert(v@ == seq![red, green, blue]);
        v
    } else {
        let v: Vec<u8> = Vec::new();
        assert(v@ =~= Seq::<u8>::empty());
        v
    }
}

/// The keyboard effect request for a position of the settings' keyboard
/// effect list, with its two colours: static, static gradient, wave
/// gradient, breathing; none for other positions.
pub fn keyboard_effect(index: u32, color1: [u8; 3], color2: [u8; 3]) -> (r: Option<(&'static str, Vec<u8>)>)
    ensures
        index == 0 ==> (r matches Some((n, p)) && n@ == "static"@ && p@ == color1@),
        index == 1 ==> (r matches Some((n, p)) && n@ == "static_gradient"@ && p@ == color1@ + color2@),
        index == 2 ==> (r matches Some((n, p)) && n@ == "wave_gradient"@ && p@ == color1@ + color2@),
        index == 3 ==> (r matches Some((n, p)) && n@ == "breathing_single"@ && p@ == color1@ + seq![10u8]),
        index > 3 ==> r is None,
{
    let (red, green, blue) = (color1[0], color1[1], color1[2]);
    let (red2, green2, blue2) = (color2[0], color2[1], color2[2]);
    match index {
        0 => {
            let v: Vec<u8> = vec![red, green, blue];
            assert(v@ =~= color1@);
            Some(("static", v))
        },
        1 => {
            let v: Vec<u8> = vec![red, green, blue, red2, green2, blue2];
            assert(v@ =~= color1@ + color2@);
            Some(("static_gradient", v))
        },
        2 => {
            let v: Vec<u8> = vec![red, green, blue, red2, green2, blue2];
            assert(v@ =~= color1@ + color2@);
            Some(("wave_gradient", v))
        },
        3 => {
            let v: Vec<u8> = vec![red, green, blue, 10];
            assert(v@ =~= color1@ + seq![10u8]);
            Some(("breathing_single", v))
        },
        _ => None,
    }
}

/// Whether the CPU and GPU boost rows are shown: only in custom power mode.
pub fn boost_rows_visible(power_mode: u8) -> (r: bool)
    ensures
        r == (power_mode == 4),
{
    power_mode == 4
}

/// A settings page's power source as the daemon numbers it: 1 for AC, 0 for
/// battery.
pub fn ac_index(ac: bool) -> (r: usize)
    ensures
        r == (if ac { 1usize } else { 0usize }),
{
    if ac { 1 } else { 0 }
}

/// The name and effect-list position of a known cooling pad effect come
/// back from each other.
pub proof fn lemma_effect_index_name(index: u32)
    requires
        index <= 3,
    ensures
        spec_effect_index(spec_effect_name(index)) == index,
{
    reveal_strlit("static");
    reveal_strlit("breathing");
    reveal_strlit("wave");
    reveal_strlit("off");
    assert("static"@.len() == 6 && "breathing"@.len() == 9 && "wave"@.len() == 4 && "off"@.len() == 3);
}

/// Every cooling pad effect of the list maps to a position that names it.
pub proof fn lemma_effect_name_index(name: Seq<char>)
    requires
        name == "off"@ || name == "static"@ || name == "breathing"@ || name == "wave"@,
    ensures
        spec_effect_name(spec_effect_index(name)) == name,
{
    reveal_strlit("static");
    reveal_strlit("breathing");
    reveal_strlit("wave");
    reveal_strlit("off");
    assert("static"@.len() == 6 && "breathing"@.len() == 9 && "wave"@.len() == 4 && "off"@.len() == 3);
}

} // verus!
