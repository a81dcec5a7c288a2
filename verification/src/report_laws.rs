use vstd::prelude::*;

use crate::config::PowerConfig;
use crate::cooling_pad::{color_command, command, effect_commands, fan_rpm_command, PadCommandView};
use crate::laptop::{
    after_fan_rpm, brightness_report, brightness_request, config_reports, cpu_boost_request, fan_rpm_reports, get_power_mode_report,
    gpu_boost_request, logo_reports, logo_request, power_mode_reports, spec_reply_value, LaptopView,
};
use crate::manager::{read_query, ManagerView, QueryView};
use crate::packet::{packet, PacketView};

verus! {

/// The colour byte at `i` of the parameters of a coloured pad effect: the
/// caller's byte when there is one, otherwise full red (255, 0, 0).
pub open spec fn colour_byte(params: Seq<u8>, i: int) -> u8 {
    if params.len() > i {
        params[i]
    } else if i == 0 {
        0xFF
    } else {
        0x00
    }
}

/// The pad's set-effect command (class 0x0F, id 0x02) with these arguments.
pub open spec fn pad_effect(args: Seq<u8>) -> PadCommandView {
    command(0x0F, 0x02, args)
}

/// Full pad brightness (class 0x0F, id 0x04, backlight LED 0x05, 0xFF).
pub open spec fn pad_full_brightness() -> PadCommandView {
    command(0x0F, 0x04, seq![0x01, 0x05, 0xFF])
}

/// The cooling pad effects as the pad receives them. "off" is one set-effect
/// command; every other known effect first sets full brightness. "static"
/// (effect byte 1) and "breathing" (2) carry the caller's colour from its
/// first three parameters; "wave" (3) and "spectrum" (4) ignore the
/// parameters; any other name gives no commands.
pub proof fn law_pad_effect_bytes(params: Seq<u8>)
    ensures
        effect_commands("off"@, params) == Some(seq![pad_effect(seq![0x01, 0x00, 0x00, 0x00, 0x00, 0x00])]),
        effect_commands("static"@, params) == Some(seq![
            pad_full_brightness(),
            pad_effect(seq![0x01, 0x00, 0x01, 0x00, 0x00, 0x01,
                colour_byte(params, 0), colour_byte(params, 1), colour_byte(params, 2)]),
        ]),
        effect_commands("breathing"@, params) == Some(seq![
            pad_full_brightness(),
            pad_effect(seq![0x01, 0x00, 0x02, 0x00, 0x00, 0x01,
                colour_byte(params, 0), colour_byte(params, 1), colour_byte(params, 2)]),
        ]),
        effect_commands("wave"@, params) == Some(seq![
            pad_full_brightness(),
            pad_effect(seq![0x01, 0x00, 0x03, 0x01, 0x01, 0x00]),
        ]),
        effect_commands("spectrum"@, params) == Some(seq![
            pad_full_brightness(),
            pad_effect(seq![0x01, 0x00, 0x04, 0x00, 0x00, 0x00]),
        ]),
        params.len() >= 3 ==> effect_commands("breathing"@, params) == Some(seq![
            pad_full_brightness(),
            pad_effect(seq![0x01, 0x00, 0x02, 0x00, 0x00, 0x01, params[0], params[1], params[2]]),
        ]),
        params.len() >= 3 ==> effect_commands("static"@, params) == Some(seq![
            pad_full_brightness(),
            pad_effect(seq![0x01, 0x00, 0x01, 0x00, 0x00, 0x01, params[0], params[1], params[2]]),
        ]),
{
    reveal_strlit("off");
    reveal_strlit("static");
    reveal_strlit("breathing");
    reveal_strlit("wave");
    reveal_strlit("spectrum");
    assert("off"@.len() == 3 && "static"@.len() == 6 && "breathing"@.len() == 9);
    assert("wave"@.len() == 4 && "spectrum"@.len() == 8);
    assert("static"@ != "off"@ && "breathing"@ != "off"@ && "breathing"@ != "static"@);
    assert("wave"@ != "off"@ && "wave"@ != "static"@ && "wave"@ != "breathing"@);
    assert("spectrum"@ != "off"@ && "spectrum"@ != "static"@ && "spectrum"@ != "breathing"@ && "spectrum"@ != "wave"@);
    let c = crate::cooling_pad::spec_extract_color(params);
    let rgb = seq![colour_byte(params, 0), colour_byte(params, 1), colour_byte(params, 2)];
    assert(c =~= rgb);
    assert(seq![0x01u8, 0x00, 0x01, 0x00, 0x00, 0x01] + c =~= seq![0x01u8, 0x00, 0x01, 0x00, 0x00, 0x01,
        colour_byte(params, 0), colour_byte(params, 1), colour_byte(params, 2)]);
    assert(seq![0x01u8, 0x00, 0x02, 0x00, 0x00, 0x01] + c =~= seq![0x01u8, 0x00, 0x02, 0x00, 0x00, 0x01,
        colour_byte(params, 0), colour_byte(params, 1), colour_byte(params, 2)]);
}

/// The pad's colour command (class 0x0F, id 0x03, backlight LED 0x05)
/// carries the caller's colour, full red by default. A fan speed of 0 is
/// the fixed automatic-fan report; any other speed is the fan command
/// (class 0x0D, id 0x01, fan 0x01, thermal 0x05) with the speed, clamped to
/// 500..=3200 RPM, as the nearest percentage of that range.
pub proof fn law_pad_colour_and_fan_bytes(params: Seq<u8>, rpm: i32)
    ensures
        color_command(params) == command(0x0F, 0x03, seq![0x01, 0x05,
            colour_byte(params, 0), colour_byte(params, 1), colour_byte(params, 2)]),
        rpm == 0 ==> (fan_rpm_command(rpm) matches PadCommandView::Raw { report }
            && report.len() == 91
            && report.subrange(0, 11) == seq![0x00u8, 0x00, 0x02, 0x00, 0x00, 0x00, 0x03, 0x0D, 0x10, 0x01, 0x02]
            && (forall|i: int| 11 <= i < 89 ==> report[i] == 0)
            && report[89] == 0x18 && report[90] == 0x00),
        rpm != 0 ==> exists|p: u8| {
            &&& fan_rpm_command(rpm) == command(0x0D, 0x01, seq![0x01, 0x05, p])
            &&& p <= 100
            &&& rpm <= 500 ==> p == 0
            &&& rpm >= 3200 ==> p == 100
            &&& 500 <= rpm <= 3200 ==> p * 2700 <= (rpm - 500) * 100 + 1350 < (p + 1) * 2700
        },
{
    let c = crate::cooling_pad::spec_extract_color(params);
    assert(seq![0x01u8, 0x05] + c =~= seq![0x01u8, 0x05,
        colour_byte(params, 0), colour_byte(params, 1), colour_byte(params, 2)]);
    if rpm == 0 {
        let report = crate::cooling_pad::spec_fan_auto_report();
        assert(report.subrange(0, 11) =~= seq![0x00u8, 0x00, 0x02, 0x00, 0x00, 0x00, 0x03, 0x0D, 0x10, 0x01, 0x02]);
    } else {
        let r: int = if rpm < 500 { 500 } else if rpm > 3200 { 3200 } else { rpm as int };
        let p = crate::cooling_pad::spec_rpm_to_percent(r);
        assert(0 <= p <= 100);
        assert(fan_rpm_command(rpm) == command(0x0D, 0x01, seq![0x01, 0x05, p as u8]));
    }
}

/// The laptop's lighting and power-mode reads and writes, byte for byte:
/// brightness (class 0x03, backlight LED 0x05) is read with id 0x83 and
/// written with id 0x03, the logo (LED 0x04) is read with id 0x82, a zone's
/// power mode is read with class 0x0D, id 0x82; the value of a reply is its
/// third argument.
pub proof fn law_laptop_request_bytes(b: u8, zone: u8, reply: PacketView)
    ensures
        brightness_report(b) == packet(0x03, 0x03, 0x03, seq![0x01, 0x05, b]),
        brightness_request() == packet(0x03, 0x83, 0x03, seq![0x01, 0x05, 0x00]),
        logo_request() == packet(0x03, 0x82, 0x03, seq![0x01, 0x04]),
        get_power_mode_report(zone) == packet(0x0d, 0x82, 0x04, seq![0x00, zone, 0x00, 0x00]),
        spec_reply_value(Some(reply)) == reply.args[2],
        spec_reply_value(None) == 0,
{
}

/// A zone's power report (class 0x0D, id 0x02): the zone, the power mode,
/// and 1 when the fan runs at a set speed, 0 when automatic.
pub open spec fn power_bytes(zone: u8, mode: u8, fan_set: bool) -> PacketView {
    packet(0x0d, 0x02, 0x04, seq![0x00, zone, mode, if fan_set { 0x01 } else { 0x00 }])
}

/// A power mode request. Modes 0..=3 set that mode on zone 1 then zone 2,
/// keeping the fan as it is. Custom mode (4) sets the fan automatic and, per
/// zone, asks and sets the mode, with the CPU boost (zone 1, "boost" 3 only
/// on laptops with that feature, high 2 otherwise) and the GPU boost
/// (zone 2) each read then written between them. Other modes send nothing.
pub proof fn law_power_mode_report_bytes(v: LaptopView, mode: u8, cpu: u8, gpu: u8)
    ensures
        mode <= 3 ==> power_mode_reports(v, mode, cpu, gpu) == seq![
            power_bytes(0x01, mode, v.fan_rpm != 0),
            power_bytes(0x02, mode, v.fan_rpm != 0),
        ],
        mode == 4 ==> power_mode_reports(v, mode, cpu, gpu) == seq![
            packet(0x0d, 0x82, 0x04, seq![0x00, 0x01, 0x00, 0x00]),
            power_bytes(0x01, 4, false),
            packet(0x0d, 0x87, 0x03, seq![0x00, 0x01, 0x00]),
            packet(0x0d, 0x07, 0x03, seq![0x00, 0x01,
                if cpu == 3 && !v.features.contains("boost"@) { 2 } else { cpu }]),
            packet(0x0d, 0x87, 0x03, seq![0x00, 0x02, 0x00]),
            packet(0x0d, 0x07, 0x03, seq![0x00, 0x02, gpu]),
            packet(0x0d, 0x82, 0x04, seq![0x00, 0x02, 0x00, 0x00]),
            power_bytes(0x02, 4, false),
        ],
        mode > 4 ==> power_mode_reports(v, mode, cpu, gpu) == Seq::<PacketView>::empty(),
{
}

/// A logo report (class 0x03, logo LED 0x04) with the given id and value.
pub open spec fn logo_report(id: u8, value: u8) -> PacketView {
    packet(0x03, id, 0x03, seq![0x01, 0x04, value])
}

/// The reports that set the laptop's logo for each entry of the logo list.
/// Off (0) only switches the logo off. On (1) selects the static logo effect
/// (0x00) and switches the logo on; breathing (2) selects the breathing
/// effect (0x02) and switches it on; any higher state selects effect 0x00
/// and switches it on.
pub proof fn law_logo_report_bytes(mode: u8)
    ensures
        logo_reports(0) == seq![logo_report(0x00, 0x00)],
        logo_reports(1) == seq![logo_report(0x02, 0x00), logo_report(0x00, 0x01)],
        logo_reports(2) == seq![logo_report(0x02, 0x02), logo_report(0x00, 0x01)],
        mode > 2 ==> logo_reports(mode) == seq![logo_report(0x02, 0x00), logo_report(0x00, 0x01)],
        logo_reports(mode).last() == logo_report(0x00, if mode == 0 { 0x00 } else { 0x01 }),
        logo_reports(mode).len() == (if mode == 0 { 1int } else { 2 }),
{
}

/// The fan reports of one zone (0x01 or 0x02): ask its power mode, set its
/// power mode (the last byte 1 when the fan runs at a set speed `rpm`, in
/// hundreds of RPM, 0 when automatic), then set that speed when asked to.
pub open spec fn fan_zone(v: LaptopView, zone: u8, rpm: u8, send_speed: bool) -> Seq<PacketView> {
    let mode = packet(0x0d, 0x82, 0x04, seq![0x00, zone, 0x00, 0x00]);
    let power = packet(0x0d, 0x02, 0x04, seq![0x00, zone, v.power, if rpm == 0 { 0x00 } else { 0x01 }]);
    if send_speed {
        seq![mode, power, packet(0x0d, 0x01, 0x03, seq![0x00, zone, rpm])]
    } else {
        seq![mode, power]
    }
}

/// Outside custom mode, a fan request is sent to zone 1 and then to zone 2,
/// and each zone gets the same speed (the recorded speed, in hundreds of
/// RPM); speed 0 sets both zones automatic and sends no speed. In custom
/// mode nothing is sent.
pub proof fn law_fan_reaches_both_zones(v: LaptopView, value: u16)
    ensures
        v.power == 4 ==> fan_rpm_reports(v, value) == Seq::<PacketView>::empty(),
        v.power != 4 ==> {
            let rpm = after_fan_rpm(v, value).fan_rpm;
            &&& fan_rpm_reports(v, value) == fan_zone(v, 0x01, rpm, value != 0) + fan_zone(v, 0x02, rpm, value != 0)
            &&& value != 0 ==> fan_rpm_reports(v, value).len() == 6
                && fan_rpm_reports(v, value)[2] == packet(0x0d, 0x01, 0x03, seq![0x00, 0x01, rpm])
                && fan_rpm_reports(v, value)[5] == packet(0x0d, 0x01, 0x03, seq![0x00, 0x02, rpm])
            &&& value == 0 ==> rpm == 0 && fan_rpm_reports(v, value).len() == 4
        },
{
    if v.power != 4 {
        let rpm = after_fan_rpm(v, value).fan_rpm;
        assert(fan_rpm_reports(v, value) =~= fan_zone(v, 0x01, rpm, value != 0) + fan_zone(v, 0x02, rpm, value != 0));
    }
}

/// The boost read requests (class 0x0D, id 0x87) name their zone: the CPU
/// boost is read from zone 1 and the GPU boost from zone 2, so the two
/// requests differ. On the laptop's current source the manager asks the
/// laptop with exactly these requests.
pub proof fn law_boost_requests_name_their_zone(v: ManagerView, ac: int, f: spec_fn(PowerConfig) -> u8)
    ensures
        cpu_boost_request() == packet(0x0d, 0x87, 0x03, seq![0x00, 0x01, 0x00]),
        gpu_boost_request() == packet(0x0d, 0x87, 0x03, seq![0x00, 0x02, 0x00]),
        cpu_boost_request().args[1] == 0x01,
        gpu_boost_request().args[1] == 0x02,
        cpu_boost_request() != gpu_boost_request(),
        v.on_source(ac) ==> read_query(v, ac, gpu_boost_request(), f)
            == QueryView::AskLaptop(packet(0x0d, 0x87, 0x03, seq![0x00, 0x02, 0x00])),
{
    assert(cpu_boost_request().args[1] == 0x01);
    assert(gpu_boost_request().args[1] == 0x02);
}

/// Applying a power source's settings starts with its lights: with the
/// screensaver off, the saved brightness (backlight 0x05) and then the logo
/// reports of the saved logo state; with the screensaver on, brightness 0
/// and the logo switched off.
pub proof fn law_config_applies_saved_lights(v: LaptopView, c: PowerConfig)
    ensures
        config_reports(v, c)[0] == packet(0x03, 0x03, 0x03, seq![0x01, 0x05, if v.screensaver { 0x00 } else { c.brightness }]),
        !v.screensaver ==> config_reports(v, c).subrange(1, 1 + logo_reports(c.logo_state).len() as int)
            == logo_reports(c.logo_state),
        !v.screensaver && c.logo_state == 1 ==> config_reports(v, c)[1] == logo_report(0x02, 0x00)
            && config_reports(v, c)[2] == logo_report(0x00, 0x01),
        !v.screensaver && c.logo_state == 2 ==> config_reports(v, c)[1] == logo_report(0x02, 0x02)
            && config_reports(v, c)[2] == logo_report(0x00, 0x01),
        v.screensaver ==> config_reports(v, c)[1] == logo_report(0x00, 0x00),
{
    law_logo_report_bytes(c.logo_state);
    let lights = if !v.screensaver {
        seq![crate::laptop::brightness_report(c.brightness)] + logo_reports(c.logo_state)
    } else {
        seq![crate::laptop::brightness_report(0)] + logo_reports(0)
    };
    let rest = crate::laptop::power_mode_reports(v, c.power_mode, c.cpu_boost, c.gpu_boost) + fan_rpm_reports(
        crate::laptop::after_power_mode(v, c.power_mode),
        c.fan_rpm as u16,
    );
    assert(config_reports(v, c) =~= lights + rest);
    if !v.screensaver {
        assert(config_reports(v, c).subrange(1, 1 + logo_reports(c.logo_state).len() as int) =~= logo_reports(c.logo_state));
    }
}

} // verus!
