use vstd::prelude::*;

use crate::bho::{bho_to_byte, spec_bho_to_byte};
use crate::config::PowerConfig;
use crate::packet::{packet, views, PacketView, RazerPacket};

verus! {

/// How the answer of an exchange with the controller is decided.
#[derive(Clone, Copy, PartialEq, Eq, Structural, Debug)]
pub enum Answer {
    /// The answer is this value, whatever the controller replies.
    Always(bool),
    /// The answer is whether the controller replied to the last report.
    LastAnswered,
}

impl Answer {
    /// The answer, given whether the controller replied to the last report
    /// sent.
    pub fn resolve(self, last_answered: bool) -> (r: bool)
        ensures
            r == (match self {
                Answer::Always(b) => b,
                Answer::LastAnswered => last_answered,
            }),
    {
        match self {
            Answer::Always(b) => b,
            Answer::LastAnswered => last_answered,
        }
    }
}

/// Reports to send to the controller, in order, and how the caller's answer
/// follows from the replies.
pub struct Exchange {
    pub answer: Answer,
    pub reports: Vec<RazerPacket>,
}

pub struct ExchangeView {
    pub answer: Answer,
    pub reports: Seq<PacketView>,
}

impl View for Exchange {
    type V = ExchangeView;

    open spec fn view(&self) -> ExchangeView {
        ExchangeView { answer: self.answer, reports: views(self.reports@) }
    }
}

/// Appends a report, keeping track of the views.
pub fn push_report(reports: &mut Vec<RazerPacket>, report: RazerPacket)
    ensures
        views(final(reports)@) == views(old(reports)@).push(report@),
{
    reports.push(report);
    assert(views(reports@) =~= views(old(reports)@).push(report@));
}

/// Appends all reports of `more`, keeping track of the views.
pub fn append_reports(reports: &mut Vec<RazerPacket>, more: Vec<RazerPacket>)
    ensures
        views(final(reports)@) == views(old(reports)@) + views(more@),
{
    let mut more = more;
    let ghost added = more@;
    reports.append(&mut more);
    assert(views(reports@) =~= views(old(reports)@) + views(added));
}

/// The laptop as the daemon sees it: its model data and the power and fan
/// state last sent to the controller.
pub struct RazerLaptop {
    name: String,
    features: Vec<String>,
    fan: Vec<u16>,
    power: u8,
    fan_rpm: u8,
    ac_state: u8,
    screensaver: bool,
}

pub struct LaptopView {
    pub name: Seq<char>,
    pub features: Seq<Seq<char>>,
    /// Lowest and highest fan speed in RPM.
    pub fan: Seq<u16>,
    pub power: u8,
    /// Fan speed in hundreds of RPM; 0 means automatic.
    pub fan_rpm: u8,
    /// Index of the current power source: 1 on AC, 0 on battery.
    pub ac_state: u8,
    pub screensaver: bool,
}

impl View for RazerLaptop {
    type V = LaptopView;

    closed spec fn view(&self) -> LaptopView {
        LaptopView {
            name: self.name@,
            features: self.features@.map_values(|s: String| s@),
            fan: self.fan@,
            power: self.power,
            fan_rpm: self.fan_rpm,
            ac_state: self.ac_state,
            screensaver: self.screensaver,
        }
    }
}

// LED storage options
pub const NOSTORE: u8 = 0x00;
pub const VARSTORE: u8 = 0x01;
// LED definitions
pub const LOGO_LED: u8 = 0x04;
pub const BACKLIGHT_LED: u8 = 0x05;
// effects
pub const OFF: u8 = 0x00;
pub const WAVE: u8 = 0x01;
pub const REACTIVE: u8 = 0x02;
pub const BREATHING: u8 = 0x03;
pub const SPECTRUM: u8 = 0x04;
pub const CUSTOMFRAME: u8 = 0x05;
pub const STATIC: u8 = 0x06;
pub const STARLIGHT: u8 = 0x19;

/// Clamps `value` into `min..=max`, testing the upper bound first.
pub open spec fn spec_clamp_u8(value: u8, min: u8, max: u8) -> u8 {
    if value > max {
        max
    } else if value < min {
        min
    } else {
        value
    }
}

/// The fan speed in hundreds of RPM for a requested speed, kept within the
/// laptop's range.
pub open spec fn spec_clamp_fan(v: LaptopView, rpm: u16) -> u8 {
    if rpm > v.fan[1] {
        (v.fan[1] / 100) as u8
    } else if rpm < v.fan[0] {
        (v.fan[0] / 100) as u8
    } else {
        (rpm / 100) as u8
    }
}

/// The CPU boost actually requested: "boost" (3) needs the laptop feature of
/// that name, and falls back to "high" (2) otherwise.
pub open spec fn effective_cpu_boost(v: LaptopView, boost: u8) -> u8 {
    if boost == 3 && !v.features.contains("boost"@) {
        2
    } else {
        boost
    }
}

pub open spec fn get_power_mode_report(zone: u8) -> PacketView {
    packet(0x0d, 0x82, 0x04, seq![0x00, zone, 0x00, 0x00])
}

pub open spec fn power_report(v: LaptopView, zone: u8) -> PacketView {
    packet(0x0d, 0x02, 0x04, seq![0x00, zone, v.power, if v.fan_rpm == 0 { 0x00 } else { 0x01 }])
}

pub open spec fn cpu_boost_request() -> PacketView {
    packet(0x0d, 0x87, 0x03, seq![0x00, 0x01, 0x00])
}

pub open spec fn cpu_boost_report(v: LaptopView, boost: u8) -> PacketView {
    packet(0x0d, 0x07, 0x03, seq![0x00, 0x01, effective_cpu_boost(v, boost)])
}

pub open spec fn gpu_boost_request() -> PacketView {
    packet(0x0d, 0x87, 0x03, seq![0x00, 0x02, 0x00])
}

pub open spec fn gpu_boost_report(boost: u8) -> PacketView {
    packet(0x0d, 0x07, 0x03, seq![0x00, 0x02, boost])
}

pub open spec fn rpm_report(v: LaptopView, zone: u8) -> PacketView {
    packet(0x0d, 0x01, 0x03, seq![0x00, zone, v.fan_rpm])
}

pub open spec fn brightness_report(brightness: u8) -> PacketView {
    packet(0x03, 0x03, 0x03, seq![VARSTORE, BACKLIGHT_LED, brightness])
}

pub open spec fn brightness_request() -> PacketView {
    packet(0x03, 0x83, 0x03, seq![VARSTORE, BACKLIGHT_LED, 0x00])
}

pub open spec fn logo_request() -> PacketView {
    packet(0x03, 0x82, 0x03, seq![VARSTORE, LOGO_LED])
}

/// The reports that set the logo LED: a mode report for modes above 0
/// (1: static, 2: breathing, other: 0), then the on/off state.
pub open spec fn logo_reports(mode: u8) -> Seq<PacketView> {
    let state = packet(0x03, 0x00, 0x03, seq![VARSTORE, LOGO_LED, spec_clamp_u8(mode, 0x00, 0x01)]);
    if mode > 0 {
        let effect: u8 = if mode == 1 { 0x00 } else if mode == 2 { 0x02 } else { 0x00 };
        seq![packet(0x03, 0x02, 0x03, seq![VARSTORE, LOGO_LED, effect]), state]
    } else {
        seq![state]
    }
}

/// The laptop after recording the power source it runs on.
pub open spec fn after_ac_state(v: LaptopView, online: bool) -> LaptopView {
    LaptopView { ac_state: if online { 1u8 } else { 0u8 }, ..v }
}

/// The laptop after a power mode request: modes 0..=3 set the power mode,
/// mode 4 (custom) also turns the fan back to automatic, others change nothing.
pub open spec fn after_power_mode(v: LaptopView, mode: u8) -> LaptopView {
    if mode <= 3 {
        LaptopView { power: mode, ..v }
    } else if mode == 4 {
        LaptopView { power: mode, fan_rpm: 0, ..v }
    } else {
        v
    }
}

pub open spec fn power_mode_reports(v: LaptopView, mode: u8, cpu_boost: u8, gpu_boost: u8) -> Seq<PacketView> {
    let w = after_power_mode(v, mode);
    if mode <= 3 {
        seq![power_report(w, 0x01), power_report(w, 0x02)]
    } else if mode == 4 {
        seq![
            get_power_mode_report(0x01),
            power_report(w, 0x01),
            cpu_boost_request(),
            cpu_boost_report(w, cpu_boost),
            gpu_boost_request(),
            gpu_boost_report(gpu_boost),
            get_power_mode_report(0x02),
            power_report(w, 0x02),
        ]
    } else {
        seq![]
    }
}

/// The laptop after a fan speed request: ignored in custom power mode (4),
/// 0 means automatic, other speeds are clamped to the laptop's range.
pub open spec fn after_fan_rpm(v: LaptopView, value: u16) -> LaptopView {
    if v.power != 4 {
        LaptopView { fan_rpm: if value == 0 { 0 } else { spec_clamp_fan(v, value) }, ..v }
    } else {
        v
    }
}

pub open spec fn fan_rpm_zone_reports(w: LaptopView, value: u16, zone: u8) -> Seq<PacketView> {
    if value != 0 {
        seq![get_power_mode_report(zone), power_report(w, zone), rpm_report(w, zone)]
    } else {
        seq![get_power_mode_report(zone), power_report(w, zone)]
    }
}

pub open spec fn fan_rpm_reports(v: LaptopView, value: u16) -> Seq<PacketView> {
    let w = after_fan_rpm(v, value);
    if v.power != 4 {
        fan_rpm_zone_reports(w, value, 0x01) + fan_rpm_zone_reports(w, value, 0x02)
    } else {
        seq![]
    }
}

/// Whether a fan speed request can be carried out: a speed other than 0
/// outside custom mode needs the laptop's fan range.
pub open spec fn fan_request_ok(v: LaptopView, value: u16) -> bool {
    (v.power != 4 && value != 0) ==> v.fan.len() >= 2
}

/// The laptop after applying a power source configuration.
pub open spec fn after_config(v: LaptopView, c: PowerConfig) -> LaptopView {
    after_fan_rpm(after_power_mode(v, c.power_mode), c.fan_rpm as u16)
}

/// The reports that apply a power source configuration: lights (dark while
/// the screensaver is on), power mode and boosts, then the fan.
pub open spec fn config_reports(v: LaptopView, c: PowerConfig) -> Seq<PacketView> {
    let lights = if !v.screensaver {
        seq![brightness_report(c.brightness)] + logo_reports(c.logo_state)
    } else {
        seq![brightness_report(0)] + logo_reports(0)
    };
    lights + power_mode_reports(v, c.power_mode, c.cpu_boost, c.gpu_boost) + fan_rpm_reports(
        after_power_mode(v, c.power_mode),
        c.fan_rpm as u16,
    )
}

/// The value carried by a reply to a read request (its third argument), or 0
/// when the controller did not reply.
pub open spec fn spec_reply_value(reply: Option<PacketView>) -> u8 {
    match reply {
        Some(r) => r.args[2],
        None => 0,
    }
}

impl RazerLaptop {
    #[verifier::type_invariant]
    spec fn inv(&self) -> bool {
        self.ac_state <= 1
    }

    pub fn new(name: String, features: Vec<String>, fan: Vec<u16>) -> (r: RazerLaptop)
        ensures
            r@ == (LaptopView {
                name: name@,
                features: features@.map_values(|s: String| s@),
                fan: fan@,
                power: 0,
                fan_rpm: 0,
                ac_state: 0,
                screensaver: false,
            }),
    {
        RazerLaptop { name, features, fan, power: 0, fan_rpm: 0, ac_state: 0, screensaver: false }
    }

    pub fn set_screensaver(&mut self, active: bool)
        ensures
            final(self)@ == (LaptopView { screensaver: active, ..old(self)@ }),
    {
        proof {
            use_type_invariant(&*self);
        }
        self.screensaver = active;
    }

    /// Records the power source; answers its index (1 on AC, 0 on battery).
    pub fn set_ac_state(&mut self, online: bool) -> (r: usize)
        ensures
            final(self)@ == after_ac_state(old(self)@, online),
            r == final(self)@.ac_state,
            r == (if online { 1usize } else { 0usize }),
    {
        if online {
            self.ac_state = 1;
        } else {
            self.ac_state = 0;
        }
        self.ac_state as usize
    }

    pub fn get_ac_state(&self) -> (r: usize)
        ensures
            r == self@.ac_state,
            r <= 1,
    {
        proof {
            use_type_invariant(self);
        }
        self.ac_state as usize
    }

    pub fn get_name(&self) -> (r: String)
        ensures
            r@ == self@.name,
    {
        self.name.clone()
    }

    pub fn have_feature(&self, fch: String) -> (r: bool)
        ensures
            r == self@.features.contains(fch@),
    {
        let mut i: usize = 0;
        while i < self.features.len()
            invariant
                i <= self.features.len(),
                forall|j: int| 0 <= j < i ==> self.features@[j]@ != fch@,
            decreases self.features.len() - i,
        {
            if self.features[i] == fch {
                assert(self@.features[i as int] == fch@);
                return true;
            }
            i = i + 1;
        }
        assert forall|j: int| 0 <= j < self@.features.len() implies self@.features[j] != fch@ by {
            assert(self@.features[j] == self.features@[j]@);
        }
        false
    }

    /// Whether a fan speed request can be carried out (see `fan_request_ok`).
    pub fn can_set_fan_rpm(&self, value: u16) -> (r: bool)
        ensures
            r == fan_request_ok(self@, value),
    {
        !(self.power != 4 && value != 0) || self.fan.len() >= 2
    }

    /// Whether a power source configuration can be applied (its fan speed
    /// request, after its power mode).
    pub fn can_apply_config(&self, config: PowerConfig) -> (r: bool)
        ensures
            r == fan_request_ok(after_power_mode(self@, config.power_mode), config.fan_rpm as u16),
    {
        let power = if config.power_mode <= 4 { config.power_mode } else { self.power };
        let value = config.fan_rpm as u16;
        !(power != 4 && value != 0) || self.fan.len() >= 2
    }

    fn clamp_fan(&self, rpm: u16) -> (r: u8)
        requires
            self@.fan.len() >= 2,
        ensures
            r == spec_clamp_fan(self@, rpm),
    {
        if rpm > self.fan[1] {
            return (self.fan[1] / 100) as u8;
        }
        if rpm < self.fan[0] {
            return (self.fan[0] / 100) as u8;
        }
        (rpm / 100) as u8
    }

    fn clamp_u8(value: u8, min: u8, max: u8) -> (r: u8)
        ensures
            r == spec_clamp_u8(value, min, max),
    {
        if value > max {
            return max;
        }
        if value < min {
            return min;
        }
        value
    }

    /// Selects a standard keyboard effect with its parameters.
    pub fn set_standard_effect(&self, effect_id: u8, params: Vec<u8>) -> (r: Exchange)
        requires
            params.len() <= 79,
        ensures
            r@ == (ExchangeView {
                answer: Answer::LastAnswered,
                reports: seq![packet(0x03, 0x0a, 80, seq![effect_id] + params@)],
            }),
    {
        let mut args: Vec<u8> = Vec::new();
        args.push(effect_id);
        let mut idx: usize = 0;
        while idx < params.len()
            invariant
                idx <= params.len() <= 79,
                args@ == seq![effect_id] + params@.subrange(0, idx as int),
            decreases params.len() - idx,
        {
            args.push(params[idx]);
            idx = idx + 1;
            assert(args@ =~= seq![effect_id] + params@.subrange(0, idx as int));
        }
        assert(params@.subrange(0, params.len() as int) =~= params@);
        let report = RazerPacket::with_args(0x03, 0x0a, 80, &args);
        let mut reports: Vec<RazerPacket> = Vec::new();
        let ghost rv = report@;
        push_report(&mut reports, report);
        assert(views(reports@) =~= seq![rv]);
        Exchange { answer: Answer::LastAnswered, reports }
    }

    /// One row of a custom frame; rows other than 45 keys long are not sent.
    pub fn set_custom_frame_data(&self, row: u8, data: Vec<u8>) -> (r: Option<RazerPacket>)
        ensures
            data.len() == 45 ==> r.is_some() && r.unwrap()@ == packet(
                0x03,
                0x0b,
                0x34,
                seq![0xff, row, 0x00, 0x0f, 0x00, 0x00, 0x00] + data@,
            ),
            data.len() != 45 ==> r.is_none(),
    {
        if data.len() == 45 {
            let mut args: Vec<u8> = vec![0xff, row, 0x00, 0x0f, 0x00, 0x00, 0x00];
            let ghost head = args@;
            let mut idx: usize = 0;
            while idx < data.len()
                invariant
                    idx <= data.len() == 45,
                    args@ == head + data@.subrange(0, idx as int),
                decreases data.len() - idx,
            {
                args.push(data[idx]);
                idx = idx + 1;
                assert(args@ =~= head + data@.subrange(0, idx as int));
            }
            assert(data@.subrange(0, 45) =~= data@);
            assert(head =~= seq![0xffu8, row, 0x00u8, 0x0fu8, 0x00u8, 0x00u8, 0x00u8]);
            Some(RazerPacket::with_args(0x03, 0x0b, 0x34, &args))
        } else {
            None
        }
    }

    pub fn set_custom_frame(&self) -> (r: Exchange)
        ensures
            r@ == (ExchangeView {
                answer: Answer::LastAnswered,
                reports: seq![packet(0x03, 0x0a, 0x02, seq![CUSTOMFRAME, NOSTORE])],
            }),
    {
        let report = RazerPacket::with_args(0x03, 0x0a, 0x02, &vec![CUSTOMFRAME, NOSTORE]);
        let mut reports: Vec<RazerPacket> = Vec::new();
        let ghost rv = report@;
        push_report(&mut reports, report);
        assert(views(reports@) =~= seq![rv]);
        Exchange { answer: Answer::LastAnswered, reports }
    }

    /// The request that reads the power mode of a zone; the mode is the value
    /// of the reply (see `reply_value`).
    pub fn get_power_mode(&self, zone: u8) -> (r: RazerPacket)
        ensures
            r@ == get_power_mode_report(zone),
            r.wf(),
    {
        RazerPacket::with_args(0x0d, 0x82, 0x04, &vec![0x00, zone, 0x00, 0x00])
    }

    fn set_power(&self, zone: u8) -> (r: RazerPacket)
        ensures
            r@ == power_report(self@, zone),
    {
        let fan: u8 = match self.fan_rpm {
            0 => 0x00,
            _ => 0x01,
        };
        RazerPacket::with_args(0x0d, 0x02, 0x04, &vec![0x00, zone, self.power, fan])
    }

    /// The request that reads the CPU boost.
    pub fn get_cpu_boost(&self) -> (r: RazerPacket)
        ensures
            r@ == cpu_boost_request(),
            r.wf(),
    {
        RazerPacket::with_args(0x0d, 0x87, 0x03, &vec![0x00, 0x01, 0x00])
    }

    fn set_cpu_boost(&self, boost: u8) -> (r: RazerPacket)
        ensures
            r@ == cpu_boost_report(self@, boost),
    {
        let mut boost = boost;
        if boost == 3 && !self.have_feature("boost".to_owned()) {
            boost = 2;
        }
        RazerPacket::with_args(0x0d, 0x07, 0x03, &vec![0x00, 0x01, boost])
    }

    /// The request that reads the GPU boost.
    pub fn get_gpu_boost(&self) -> (r: RazerPacket)
        ensures
            r@ == gpu_boost_request(),
            r.wf(),
    {
        RazerPacket::with_args(0x0d, 0x87, 0x03, &vec![0x00, 0x02, 0x00])
    }

    fn set_gpu_boost(&self, boost: u8) -> (r: RazerPacket)
        ensures
            r@ == gpu_boost_report(boost),
    {
        RazerPacket::with_args(0x0d, 0x07, 0x03, &vec![0x00, 0x02, boost])
    }

    /// Sets the power mode (0..=3 presets, 4 custom with the given boosts);
    /// the answer is always true.
    pub fn set_power_mode(&mut self, mode: u8, cpu_boost: u8, gpu_boost: u8) -> (r: Exchange)
        ensures
            final(self)@ == after_power_mode(old(self)@, mode),
            r@ == (ExchangeView {
                answer: Answer::Always(true),
                reports: power_mode_reports(old(self)@, mode, cpu_boost, gpu_boost),
            }),
    {
        proof {
            use_type_invariant(&*self);
        }
        let mut reports: Vec<RazerPacket> = Vec::new();
        if mode <= 3 {
            self.power = mode;
            let a = self.set_power(0x01);
            push_report(&mut reports, a);
            let b = self.set_power(0x02);
            push_report(&mut reports, b);
        } else if mode == 4 {
            self.power = mode;
            self.fan_rpm = 0;
            let p = self.get_power_mode(0x01);
            push_report(&mut reports, p);
            let p = self.set_power(0x01);
            push_report(&mut reports, p);
            let p = self.get_cpu_boost();
            push_report(&mut reports, p);
            let p = self.set_cpu_boost(cpu_boost);
            push_report(&mut reports, p);
            let p = self.get_gpu_boost();
            push_report(&mut reports, p);
            let p = self.set_gpu_boost(gpu_boost);
            push_report(&mut reports, p);
            let p = self.get_power_mode(0x02);
            push_report(&mut reports, p);
            let p = self.set_power(0x02);
            push_report(&mut reports, p);
        }
        assert(views(reports@) =~= power_mode_reports(old(self)@, mode, cpu_boost, gpu_boost));
        Exchange { answer: Answer::Always(true), reports }
    }

    fn set_rpm(&self, zone: u8) -> (r: RazerPacket)
        ensures
            r@ == rpm_report(self@, zone),
    {
        RazerPacket::with_args(0x0d, 0x01, 0x03, &vec![0x00, zone, self.fan_rpm])
    }

    /// Sets the fan speed in RPM (0: automatic); ignored in custom power
    /// mode. The answer is always true.
    pub fn set_fan_rpm(&mut self, value: u16) -> (r: Exchange)
        requires
            fan_request_ok(old(self)@, value),
        ensures
            final(self)@ == after_fan_rpm(old(self)@, value),
            r@ == (ExchangeView { answer: Answer::Always(true), reports: fan_rpm_reports(old(self)@, value) }),
    {
        proof {
            use_type_invariant(&*self);
        }
        let mut reports: Vec<RazerPacket> = Vec::new();
        if self.power != 4 {
            match value == 0 {
                true => self.fan_rpm = value as u8,
                false => self.fan_rpm = self.clamp_fan(value),
            }
            let p = self.get_power_mode(0x01);
            push_report(&mut reports, p);
            let p = self.set_power(0x01);
            push_report(&mut reports, p);
            if value != 0 {
                let p = self.set_rpm(0x01);
                push_report(&mut reports, p);
            }
            let p = self.get_power_mode(0x02);
            push_report(&mut reports, p);
            let p = self.set_power(0x02);
            push_report(&mut reports, p);
            if value != 0 {
                let p = self.set_rpm(0x02);
                push_report(&mut reports, p);
            }
        }
        assert(views(reports@) =~= fan_rpm_reports(old(self)@, value));
        Exchange { answer: Answer::Always(true), reports }
    }

    /// The fan speed last set, in RPM (0: automatic).
    pub fn get_fan_rpm(&self) -> (r: u16)
        ensures
            r == self@.fan_rpm * 100,
    {
        let res: u16 = self.fan_rpm as u16;
        res * 100
    }

    /// Sets the logo LED: 0 off, 1 on, 2 breathing.
    pub fn set_logo_led_state(&self, mode: u8) -> (r: Exchange)
        ensures
            r@ == (ExchangeView { answer: Answer::LastAnswered, reports: logo_reports(mode) }),
    {
        let mut reports: Vec<RazerPacket> = Vec::new();
        if mode > 0 {
            let mut report: RazerPacket = RazerPacket::new(0x03, 0x02, 0x03);
            report.args.set(0, VARSTORE);
            report.args.set(1, LOGO_LED);
            if mode == 1 {
                report.args.set(2, 0x00);
            } else if mode == 2 {
                report.args.set(2, 0x02);
            }
            let effect: u8 = if mode == 1 { 0x00 } else if mode == 2 { 0x02 } else { 0x00 };
            assert(report@ == packet(0x03, 0x02, 0x03, seq![VARSTORE, LOGO_LED, effect])) by {
                assert(report@.args =~= packet(0x03, 0x02, 0x03, seq![VARSTORE, LOGO_LED, effect]).args);
            }
            push_report(&mut reports, report);
        }
        let state = Self::clamp_u8(mode, 0x00, 0x01);
        let report = RazerPacket::with_args(0x03, 0x00, 0x03, &vec![VARSTORE, LOGO_LED, state]);
        push_report(&mut reports, report);
        assert(views(reports@) =~= logo_reports(mode));
        Exchange { answer: Answer::LastAnswered, reports }
    }

    /// The request that reads the logo LED state.
    pub fn get_logo_led_state(&self) -> (r: RazerPacket)
        ensures
            r@ == logo_request(),
            r.wf(),
    {
        RazerPacket::with_args(0x03, 0x82, 0x03, &vec![VARSTORE, LOGO_LED])
    }

    /// Sets the keyboard backlight to a raw brightness.
    pub fn set_brightness(&self, brightness: u8) -> (r: Exchange)
        ensures
            r@ == (ExchangeView { answer: Answer::LastAnswered, reports: seq![brightness_report(brightness)] }),
    {
        let report = RazerPacket::with_args(0x03, 0x03, 0x03, &vec![VARSTORE, BACKLIGHT_LED, brightness]);
        let mut reports: Vec<RazerPacket> = Vec::new();
        let ghost rv = report@;
        push_report(&mut reports, report);
        assert(views(reports@) =~= seq![rv]);
        Exchange { answer: Answer::LastAnswered, reports }
    }

    /// The request that reads the raw keyboard brightness.
    pub fn get_brightness(&self) -> (r: RazerPacket)
        ensures
            r@ == brightness_request(),
            r.wf(),
    {
        RazerPacket::with_args(0x03, 0x83, 0x03, &vec![VARSTORE, BACKLIGHT_LED, 0x00])
    }

    /// The request that reads the battery health optimizer, or none when the
    /// laptop lacks the "bho" feature (the answer is then none).
    pub fn get_bho(&self) -> (r: Option<RazerPacket>)
        ensures
            self@.features.contains("bho"@) ==> r.is_some() && r.unwrap()@ == packet(0x07, 0x92, 0x01, seq![0x00]),
            !self@.features.contains("bho"@) ==> r.is_none(),
    {
        if !self.have_feature("bho".to_owned()) {
            return None;
        }
        let args: Vec<u8> = vec![0x00];
        assert(args@ == seq![0x00u8]);
        let r = RazerPacket::with_args(0x07, 0x92, 0x01, &args);
        assert(r@ == packet(0x07, 0x92, 0x01, seq![0x00]));
        Some(r)
    }

    /// The optimizer byte of a reply to `get_bho`, if the controller replied.
    pub fn bho_reply(reply: &Option<RazerPacket>) -> (r: Option<u8>)
        requires
            reply.is_some() ==> reply.unwrap().wf(),
        ensures
            r == (match reply {
                Some(p) => Some(p@.args[0]),
                None => None,
            }),
    {
        match reply {
            Some(p) => Some(p.args[0]),
            None => None,
        }
    }

    /// Sets the battery health optimizer; answers false at once when the
    /// laptop lacks the "bho" feature.
    pub fn set_bho(&self, is_on: bool, threshold: u8) -> (r: Exchange)
        ensures
            self@.features.contains("bho"@) ==> r@ == (ExchangeView {
                answer: Answer::LastAnswered,
                reports: seq![packet(0x07, 0x12, 0x01, seq![spec_bho_to_byte(is_on, threshold)])],
            }),
            !self@.features.contains("bho"@) ==> r@ == (ExchangeView {
                answer: Answer::Always(false),
                reports: seq![],
            }),
    {
        let mut reports: Vec<RazerPacket> = Vec::new();
        if !self.have_feature("bho".to_owned()) {
            assert(views(reports@) =~= Seq::<PacketView>::empty());
            return Exchange { answer: Answer::Always(false), reports };
        }
        let byte = bho_to_byte(is_on, threshold);
        let args: Vec<u8> = vec![byte];
        assert(args@ == seq![byte]);
        let report = RazerPacket::with_args(0x07, 0x12, 0x01, &args);
        let ghost rv = report@;
        push_report(&mut reports, report);
        assert(views(reports@) =~= seq![rv]);
        Exchange { answer: Answer::LastAnswered, reports }
    }

    /// The value a read request's reply carries (its third argument), or 0
    /// when the controller did not reply.
    pub fn reply_value(reply: &Option<RazerPacket>) -> (r: u8)
        requires
            reply.is_some() ==> reply.unwrap().wf(),
        ensures
            r == spec_reply_value(match reply {
                Some(p) => Some(p@),
                None => None,
            }),
    {
        match reply {
            Some(p) => p.args[2],
            None => 0,
        }
    }

    /// Applies a power source configuration: lights (dark while the
    /// screensaver is on), power mode, fan. The answer is always true.
    pub fn set_config(&mut self, config: PowerConfig) -> (r: Exchange)
        requires
            fan_request_ok(after_power_mode(old(self)@, config.power_mode), config.fan_rpm as u16),
        ensures
            final(self)@ == after_config(old(self)@, config),
            r@ == (ExchangeView { answer: Answer::Always(true), reports: config_reports(old(self)@, config) }),
    {
        let mut reports: Vec<RazerPacket> = Vec::new();
        if !self.screensaver {
            let e = self.set_brightness(config.brightness);
            append_reports(&mut reports, e.reports);
            let e = self.set_logo_led_state(config.logo_state);
            append_reports(&mut reports, e.reports);
        } else {
            let e = self.set_brightness(0);
            append_reports(&mut reports, e.reports);
            let e = self.set_logo_led_state(0);
            append_reports(&mut reports, e.reports);
        }
        let e = self.set_power_mode(config.power_mode, config.cpu_boost, config.gpu_boost);
        append_reports(&mut reports, e.reports);
        let e = self.set_fan_rpm(config.fan_rpm as u16);
        append_reports(&mut reports, e.reports);
        assert(views(reports@) =~= config_reports(old(self)@, config));
        Exchange { answer: Answer::Always(true), reports }
    }
}

} // verus!
