use vstd::prelude::*;

use crate::bho::{byte_to_bho, spec_byte_to_bho};
use crate::config::{other_source, Configuration, ConfigurationView, PowerConfig};
use crate::cooling_pad::{
    color_command, command_views, effect_commands, fan_rpm_command, push_command, CoolingPad,
    PadCommand, PadCommandView,
};
use crate::hex::{parse_hex_u16, spec_from_hex_u16};
use crate::laptop::{
    after_config, after_fan_rpm, append_reports, brightness_report, brightness_request,
    config_reports, cpu_boost_request, fan_request_ok, after_power_mode, get_power_mode_report,
    gpu_boost_request, logo_reports, power_mode_reports, spec_reply_value, Answer, LaptopView,
    RazerLaptop,
};
use crate::packet::{packet, views, PacketView, RazerPacket};

verus! {

/// A laptop model the daemon supports, as listed in the devices file.
pub struct SupportedDevice {
    pub name: String,
    /// USB vendor id, in hexadecimal.
    pub vid: String,
    /// USB product id, in hexadecimal.
    pub pid: String,
    pub features: Vec<String>,
    /// Lowest and highest fan speed in RPM.
    pub fan: Vec<u16>,
}

/// Whether a supported device has the given USB ids.
pub open spec fn device_matches(d: SupportedDevice, vid: u16, pid: u16) -> bool {
    spec_from_hex_u16(d.vid@) == Some(vid) && spec_from_hex_u16(d.pid@) == Some(pid)
}

/// Whether `i` is the first supported device with the given ids.
pub open spec fn first_match(devices: Seq<SupportedDevice>, vid: u16, pid: u16, i: int) -> bool {
    &&& 0 <= i < devices.len()
    &&& device_matches(devices[i], vid, pid)
    &&& forall|j: int| 0 <= j < i ==> !device_matches(#[trigger] devices[j], vid, pid)
}

/// Every device looked at before a match is found has well-formed ids.
pub open spec fn ids_readable(devices: Seq<SupportedDevice>, vid: u16, pid: u16) -> bool {
    forall|i: int|
        0 <= i < devices.len() && (forall|j: int| 0 <= j < i ==> !device_matches(#[trigger] devices[j], vid, pid))
            ==> spec_from_hex_u16(#[trigger] devices[i].vid@) is Some && spec_from_hex_u16(devices[i].pid@) is Some
}

/// The keyboard brightness percentage for a raw controller value, rounded to
/// the nearest percent.
pub open spec fn raw_to_percent(raw: u8) -> u8 {
    ((raw as int * 10000 / 255 + 50) / 100) as u8
}

/// The raw controller brightness stored for a percentage (truncated; values
/// above 100 wrap around the byte).
pub open spec fn percent_to_raw(percent: u8) -> u8 {
    (percent as int * 255 / 100) as u8
}

/// What the daemon does for a request: its answer, whether the configuration
/// has to be written back, and the reports to send to the laptop in order.
pub struct Plan {
    pub result: Answer,
    pub save_config: bool,
    pub reports: Vec<RazerPacket>,
}

pub struct PlanView {
    pub result: Answer,
    pub save_config: bool,
    pub reports: Seq<PacketView>,
}

impl View for Plan {
    type V = PlanView;

    open spec fn view(&self) -> PlanView {
        PlanView { result: self.result, save_config: self.save_config, reports: views(self.reports@) }
    }
}

/// The answer to a read: known at once, or to be read from the laptop with
/// this request.
pub enum Query {
    Known(u8),
    AskLaptop(RazerPacket),
}

pub enum QueryView {
    Known(u8),
    AskLaptop(PacketView),
}

impl View for Query {
    type V = QueryView;

    open spec fn view(&self) -> QueryView {
        match self {
            Query::Known(v) => QueryView::Known(*v),
            Query::AskLaptop(p) => QueryView::AskLaptop(p@),
        }
    }
}

/// The commands for the cooling pad after a request: none when there is no
/// pad (or the effect is unknown), which answers false at once; otherwise the
/// answer is whether all commands succeed, stopping at the first failure.
pub struct PadPlan {
    pub save_config: bool,
    pub commands: Option<Vec<PadCommand>>,
}

impl PadPlan {
    /// The answer, given whether every command succeeded (sending stops at
    /// the first failure): false at once when there are no commands.
    pub fn resolve(&self, all_succeeded: bool) -> (r: bool)
        ensures
            r == (self.commands is Some && all_succeeded),
    {
        self.commands.is_some() && all_succeeded
    }
}

/// What restores the cooling pad's settings: the effect commands (none for
/// an unknown effect) and, independently, the fan command.
pub struct PadRestore {
    pub effect: Option<Vec<PadCommand>>,
    pub fan: PadCommand,
}

/// The idle-monitor calls the daemon has to make.
pub struct IdleWatch {
    /// The watch to remove first.
    pub remove: Option<u32>,
    /// The idle timeout in milliseconds of the watch to add.
    pub add_timeout_ms: Option<u64>,
}

/// Finds the laptop, the cooling pad and the settings, and decides what the
/// daemon does with them.
pub struct DeviceManager {
    device: Option<RazerLaptop>,
    cooling_pad: Option<CoolingPad>,
    supported_devices: Vec<SupportedDevice>,
    config: Option<Configuration>,
    idle_id: u32,
    active_id: u32,
    add_active: bool,
    change_idle: bool,
}

pub struct ManagerView {
    pub device: Option<LaptopView>,
    pub cooling_pad: Option<Seq<u8>>,
    pub supported_devices: Seq<SupportedDevice>,
    pub config: Option<ConfigurationView>,
    pub idle_id: u32,
    pub active_id: u32,
    pub add_active: bool,
    pub change_idle: bool,
}

impl View for DeviceManager {
    type V = ManagerView;

    closed spec fn view(&self) -> ManagerView {
        ManagerView {
            device: match self.device {
                Some(l) => Some(l@),
                None => None,
            },
            cooling_pad: match self.cooling_pad {
                Some(p) => Some(p.path@),
                None => None,
            },
            supported_devices: self.supported_devices@,
            config: match self.config {
                Some(c) => Some(c@),
                None => None,
            },
            idle_id: self.idle_id,
            active_id: self.active_id,
            add_active: self.add_active,
            change_idle: self.change_idle,
        }
    }
}

impl ManagerView {
    /// A configuration, when present, is well formed.
    pub open spec fn wf(self) -> bool {
        self.config matches Some(c) ==> c.wf()
    }

    /// The index of the current power source (0 without a laptop).
    pub open spec fn source(self) -> int {
        match self.device {
            Some(l) => l.ac_state as int,
            None => 0,
        }
    }

    /// Whether the laptop is present and running on the given power source.
    pub open spec fn on_source(self, ac: int) -> bool {
        self.device matches Some(l) && l.ac_state as int == ac
    }

    /// The settings of a power source, when there is a configuration.
    pub open spec fn ac_config(self, ac: int) -> Option<PowerConfig> {
        match self.config {
            Some(c) => Some(c.power[ac]),
            None => None,
        }
    }
}

/// The configuration with `f` applied to the settings of source `ac`.
pub open spec fn update_source(c: ConfigurationView, ac: int, f: spec_fn(PowerConfig) -> PowerConfig) -> ConfigurationView {
    ConfigurationView { power: c.power.update(ac, f(c.power[ac])), ..c }
}

/// The configuration with `f` applied to source `ac`, and to the other
/// source as well when the sources are kept in sync.
pub open spec fn update_synced(c: ConfigurationView, ac: int, f: spec_fn(PowerConfig) -> PowerConfig) -> ConfigurationView {
    let d = update_source(c, ac, f);
    if c.sync {
        update_source(d, other_source(ac), f)
    } else {
        d
    }
}

/// `update_source` on an optional configuration.
pub open spec fn opt_update(c: Option<ConfigurationView>, f: spec_fn(ConfigurationView) -> ConfigurationView) -> Option<ConfigurationView> {
    match c {
        Some(c) => Some(f(c)),
        None => None,
    }
}

/// The configuration after `set_sync`: the flag, and the lighting and idle
/// settings of source `ac` copied to the other source.
pub open spec fn synced_config(c: ConfigurationView, ac: int, sync: bool) -> ConfigurationView {
    let from = c.power[ac];
    let other = other_source(ac);
    let to = c.power[other];
    ConfigurationView {
        sync,
        power: c.power.update(
            other,
            PowerConfig {
                brightness: from.brightness,
                logo_state: from.logo_state,
                screensaver: from.screensaver,
                idle: from.idle,
                ..to
            },
        ),
        ..c
    }
}

/// The answer when a request for source `ac` concerns the laptop: false
/// without a laptop, true when the laptop is on the other source, otherwise
/// the laptop's answer.
pub open spec fn source_answer(d: Option<LaptopView>, ac: int, a: Answer) -> Answer {
    match d {
        None => Answer::Always(false),
        Some(l) => if l.ac_state as int != ac { Answer::Always(true) } else { a },
    }
}

/// The reports for a request on source `ac`: sent only when the laptop is on it.
pub open spec fn source_reports(d: Option<LaptopView>, ac: int, reports: Seq<PacketView>) -> Seq<PacketView> {
    match d {
        Some(l) => if l.ac_state as int == ac { reports } else { seq![] },
        None => seq![],
    }
}

/// The manager after storing a logo LED state for source `ac` (for both
/// sources when they are kept in sync).
pub open spec fn after_logo_led_state(v: ManagerView, ac: int, logo_state: u8) -> ManagerView {
    ManagerView {
        config: opt_update(v.config, |c: ConfigurationView| update_synced(c, ac,
            |p: PowerConfig| PowerConfig { logo_state, ..p })),
        ..v
    }
}

/// The logo LED state stored for source `ac` (0 without a configuration).
pub open spec fn stored_logo_state(v: ManagerView, ac: int) -> u8 {
    match v.config {
        Some(c) => c.power[ac].logo_state,
        None => 0,
    }
}

/// Copies one power source's settings out of the configuration.
fn power_of(config: &Configuration, ac: usize) -> (p: PowerConfig)
    requires
        ac < config.power.len(),
    ensures
        p == config@.power[ac as int],
{
    config.power[ac]
}

impl DeviceManager {
    pub fn new() -> (r: DeviceManager)
        ensures
            r@ == (ManagerView {
                device: None,
                cooling_pad: None,
                supported_devices: Seq::empty(),
                config: None,
                idle_id: 0,
                active_id: 0,
                add_active: false,
                change_idle: false,
            }),
    {
        let r = DeviceManager {
            device: None,
            cooling_pad: None,
            supported_devices: Vec::new(),
            config: None,
            idle_id: 0,
            active_id: 0,
            add_active: false,
            change_idle: false,
        };
        assert(r@.supported_devices =~= Seq::<SupportedDevice>::empty());
        r
    }

    /// The manager for the devices of the devices file and the configuration
    /// read from disk; a fresh configuration when none could be read.
    pub fn from_laptops_file(supported_devices: Vec<SupportedDevice>, config: Option<Configuration>) -> (r: DeviceManager)
        ensures
            r@.device is None,
            r@.cooling_pad is None,
            r@.supported_devices == supported_devices@,
            config matches Some(c) ==> r@.config == Some(c@),
            config is None ==> r@.config == Some(Configuration::new_view()),
            r@.idle_id == 0 && r@.active_id == 0 && !r@.add_active && !r@.change_idle,
    {
        let mut res = DeviceManager::new();
        res.supported_devices = supported_devices;
        match config {
            Some(c) => res.config = Some(c),
            None => res.config = Some(Configuration::new()),
        }
        res
    }

    pub fn get_sync(&self) -> (r: bool)
        ensures
            r == (self@.config matches Some(c) && c.sync),
    {
        match &self.config {
            Some(config) => config.sync,
            None => false,
        }
    }

    pub fn get_light_control(&self) -> (r: bool)
        ensures
            r == (self@.config matches Some(c) && c.enable_light_control),
    {
        match &self.config {
            Some(config) => config.enable_light_control,
            None => false,
        }
    }

    /// Turns keeping both power sources in sync on or off, copying the
    /// current source's lighting and idle settings to the other one.
    pub fn set_sync(&mut self, sync: bool) -> (r: Plan)
        requires
            old(self)@.wf(),
        ensures
            final(self)@ == (ManagerView {
                config: opt_update(old(self)@.config, |c: ConfigurationView| synced_config(c, old(self)@.source(), sync)),
                ..old(self)@
            }),
            r@ == (PlanView { result: Answer::Always(true), save_config: old(self)@.config is Some, reports: seq![] }),
    {
        let mut ac: usize = 0;
        match &self.device {
            Some(laptop) => ac = laptop.get_ac_state(),
            None => {},
        }
        let other = (ac + 1) % 2;
        let save = self.config.is_some();
        match self.config.take() {
            Some(mut config) => {
                let from = power_of(&config, ac);
                let to = power_of(&config, other);
                config.sync = sync;
                config.power.set(
                    other,
                    PowerConfig {
                        brightness: from.brightness,
                        logo_state: from.logo_state,
                        screensaver: from.screensaver,
                        idle: from.idle,
                        ..to
                    },
                );
                self.config = Some(config);
            },
            None => {},
        }
        let reports: Vec<RazerPacket> = Vec::new();
        assert(views(reports@) =~= Seq::<PacketView>::empty());
        Plan { result: Answer::Always(true), save_config: save, reports }
    }

    /// Turns light control on or off; the configuration is written back only
    /// when the setting changes.
    pub fn set_light_control(&mut self, enabled: bool) -> (r: Plan)
        ensures
            final(self)@ == (ManagerView {
                config: opt_update(old(self)@.config, |c: ConfigurationView| ConfigurationView { enable_light_control: enabled, ..c }),
                ..old(self)@
            }),
            r@ == (PlanView {
                result: Answer::Always(true),
                save_config: old(self)@.config matches Some(c) && c.enable_light_control != enabled,
                reports: seq![],
            }),
    {
        let mut save = false;
        match self.config.take() {
            Some(mut config) => {
                if config.enable_light_control != enabled {
                    config.enable_light_control = enabled;
                    save = true;
                }
                self.config = Some(config);
            },
            None => {},
        }
        let reports: Vec<RazerPacket> = Vec::new();
        assert(views(reports@) =~= Seq::<PacketView>::empty());
        Plan { result: Answer::Always(true), save_config: save, reports }
    }
}

} // verus!

verus! {

/// The laptop after `f`, when it is present and on source `ac`.
pub open spec fn laptop_update(d: Option<LaptopView>, ac: int, f: spec_fn(LaptopView) -> LaptopView) -> Option<LaptopView> {
    match d {
        Some(l) => if l.ac_state as int == ac { Some(f(l)) } else { d },
        None => d,
    }
}

/// The reports `f` gives for the laptop, when it is present and on source `ac`.
pub open spec fn laptop_reports(d: Option<LaptopView>, ac: int, f: spec_fn(LaptopView) -> Seq<PacketView>) -> Seq<PacketView> {
    match d {
        Some(l) => if l.ac_state as int == ac { f(l) } else { seq![] },
        None => seq![],
    }
}

impl DeviceManager {
    /// Changes the idle timeout (minutes) of a power source, and of the other
    /// one too when they are in sync. The idle watch is re-armed (see
    /// `add_idle_watch`) only when the timeout changes.
    pub fn change_idle(&mut self, ac: usize, timeout: u32) -> (r: Plan)
        requires
            old(self)@.wf(),
            old(self)@.config is Some ==> ac < 2,
        ensures
            ({
                let changed = old(self)@.config matches Some(c) && c.power[ac as int].idle != timeout;
                &&& final(self)@ == (ManagerView {
                    config: if changed {
                        opt_update(old(self)@.config, |c: ConfigurationView| update_synced(c, ac as int, |p: PowerConfig| PowerConfig { idle: timeout, ..p }))
                    } else {
                        old(self)@.config
                    },
                    change_idle: changed || old(self)@.change_idle,
                    ..old(self)@
                })
                &&& r@ == (PlanView { result: Answer::Always(true), save_config: changed, reports: seq![] })
            }),
    {
        let mut save = false;
        match self.config.take() {
            Some(mut config) => {
                let p = power_of(&config, ac);
                if p.idle != timeout {
                    config.power.set(ac, PowerConfig { idle: timeout, ..p });
                    if config.sync {
                        let other = (ac + 1) % 2;
                        let q = power_of(&config, other);
                        config.power.set(other, PowerConfig { idle: timeout, ..q });
                    }
                    save = true;
                    self.change_idle = true;
                }
                self.config = Some(config);
            },
            None => {},
        }
        let reports: Vec<RazerPacket> = Vec::new();
        assert(views(reports@) =~= Seq::<PacketView>::empty());
        Plan { result: Answer::Always(true), save_config: save, reports }
    }

    /// Stores the power mode and boosts of a power source, and applies them
    /// when the laptop runs on that source. Answers false without a laptop,
    /// true otherwise.
    pub fn set_power_mode(&mut self, ac: usize, pwr: u8, cpu: u8, gpu: u8) -> (r: Plan)
        requires
            old(self)@.wf(),
            old(self)@.config is Some ==> ac < 2,
        ensures
            final(self)@ == (ManagerView {
                config: opt_update(old(self)@.config, |c: ConfigurationView| update_source(c, ac as int,
                    |p: PowerConfig| PowerConfig { power_mode: pwr, cpu_boost: cpu, gpu_boost: gpu, ..p })),
                device: laptop_update(old(self)@.device, ac as int, |l: LaptopView| after_power_mode(l, pwr)),
                ..old(self)@
            }),
            r@ == (PlanView {
                result: source_answer(old(self)@.device, ac as int, Answer::Always(true)),
                save_config: old(self)@.config is Some,
                reports: laptop_reports(old(self)@.device, ac as int, |l: LaptopView| power_mode_reports(l, pwr, cpu, gpu)),
            }),
    {
        let save = self.config.is_some();
        match self.config.take() {
            Some(mut config) => {
                let p = power_of(&config, ac);
                config.power.set(ac, PowerConfig { power_mode: pwr, cpu_boost: cpu, gpu_boost: gpu, ..p });
                self.config = Some(config);
            },
            None => {},
        }
        let mut result = Answer::Always(false);
        let mut reports: Vec<RazerPacket> = Vec::new();
        match self.device.take() {
            Some(mut laptop) => {
                let state = laptop.get_ac_state();
                if state != ac {
                    result = Answer::Always(true);
                } else {
                    let e = laptop.set_power_mode(pwr, cpu, gpu);
                    result = e.answer;
                    reports = e.reports;
                }
                self.device = Some(laptop);
            },
            None => {},
        }
        assert(views(reports@) =~= laptop_reports(old(self)@.device, ac as int, |l: LaptopView| power_mode_reports(l, pwr, cpu, gpu)));
        Plan { result, save_config: save, reports }
    }

    /// Stores the standard keyboard effect and applies it to the laptop.
    /// Answers true.
    pub fn set_standard_effect(&mut self, effect_id: u8, params: Vec<u8>) -> (r: Plan)
        requires
            old(self)@.device is Some ==> params.len() <= 79,
        ensures
            final(self)@ == (ManagerView {
                config: opt_update(old(self)@.config, |c: ConfigurationView| ConfigurationView {
                    standard_effect: effect_id,
                    standard_effect_params: params@,
                    ..c
                }),
                ..old(self)@
            }),
            r@ == (PlanView {
                result: Answer::Always(true),
                save_config: old(self)@.config is Some,
                reports: if old(self)@.device is Some {
                    seq![packet(0x03, 0x0a, 80, seq![effect_id] + params@)]
                } else {
                    seq![]
                },
            }),
    {
        let save = self.config.is_some();
        match self.config.take() {
            Some(mut config) => {
                config.standard_effect = effect_id;
                let copy = params.clone();
                assert(copy@ =~= params@);
                config.standard_effect_params = copy;
                self.config = Some(config);
            },
            None => {},
        }
        let mut reports: Vec<RazerPacket> = Vec::new();
        match &self.device {
            Some(laptop) => {
                let e = laptop.set_standard_effect(effect_id, params);
                reports = e.reports;
            },
            None => {},
        }
        assert(views(reports@) =~= (if old(self)@.device is Some {
            seq![packet(0x03, 0x0a, 80, seq![effect_id] + params@)]
        } else {
            seq![]
        }));
        Plan { result: Answer::Always(true), save_config: save, reports }
    }

    /// Stores the fan speed of a power source, and applies it when the laptop
    /// runs on that source. Answers false without a laptop, true otherwise.
    pub fn set_fan_rpm(&mut self, ac: usize, rpm: i32) -> (r: Plan)
        requires
            old(self)@.wf(),
            old(self)@.config is Some ==> ac < 2,
            old(self)@.device matches Some(l) ==> (l.ac_state == ac ==> fan_request_ok(l, rpm as u16)),
        ensures
            final(self)@ == (ManagerView {
                config: opt_update(old(self)@.config, |c: ConfigurationView| update_source(c, ac as int,
                    |p: PowerConfig| PowerConfig { fan_rpm: rpm, ..p })),
                device: laptop_update(old(self)@.device, ac as int, |l: LaptopView| after_fan_rpm(l, rpm as u16)),
                ..old(self)@
            }),
            r@ == (PlanView {
                result: source_answer(old(self)@.device, ac as int, Answer::Always(true)),
                save_config: old(self)@.config is Some,
                reports: laptop_reports(old(self)@.device, ac as int, |l: LaptopView| crate::laptop::fan_rpm_reports(l, rpm as u16)),
            }),
    {
        let save = self.config.is_some();
        match self.config.take() {
            Some(mut config) => {
                let p = power_of(&config, ac);
                config.power.set(ac, PowerConfig { fan_rpm: rpm, ..p });
                self.config = Some(config);
            },
            None => {},
        }
        let mut result = Answer::Always(false);
        let mut reports: Vec<RazerPacket> = Vec::new();
        match self.device.take() {
            Some(mut laptop) => {
                let state = laptop.get_ac_state();
                if state != ac {
                    result = Answer::Always(true);
                } else {
                    let e = laptop.set_fan_rpm(rpm as u16);
                    result = e.answer;
                    reports = e.reports;
                }
                self.device = Some(laptop);
            },
            None => {},
        }
        assert(views(reports@) =~= laptop_reports(old(self)@.device, ac as int, |l: LaptopView| crate::laptop::fan_rpm_reports(l, rpm as u16)));
        Plan { result, save_config: save, reports }
    }

    /// Stores the logo LED state of a power source (of both when in sync),
    /// and applies it when the laptop runs on that source. Answers false
    /// without a laptop, true when it runs on the other source, otherwise
    /// whether the laptop answered.
    pub fn set_logo_led_state(&mut self, ac: usize, logo_state: u8) -> (r: Plan)
        requires
            old(self)@.wf(),
            old(self)@.config is Some ==> ac < 2,
        ensures
            final(self)@ == after_logo_led_state(old(self)@, ac as int, logo_state),
            r@ == (PlanView {
                result: source_answer(old(self)@.device, ac as int, Answer::LastAnswered),
                save_config: old(self)@.config is Some,
                reports: source_reports(old(self)@.device, ac as int, logo_reports(logo_state)),
            }),
    {
        let save = self.config.is_some();
        match self.config.take() {
            Some(mut config) => {
                let p = power_of(&config, ac);
                config.power.set(ac, PowerConfig { logo_state, ..p });
                if config.sync {
                    let other = (ac + 1) % 2;
                    let q = power_of(&config, other);
                    config.power.set(other, PowerConfig { logo_state, ..q });
                }
                self.config = Some(config);
            },
            None => {},
        }
        let mut result = Answer::Always(false);
        let mut reports: Vec<RazerPacket> = Vec::new();
        match &self.device {
            Some(laptop) => {
                let state = laptop.get_ac_state();
                if state != ac {
                    result = Answer::Always(true);
                } else {
                    let e = laptop.set_logo_led_state(logo_state);
                    result = e.answer;
                    reports = e.reports;
                }
            },
            None => {},
        }
        assert(views(reports@) =~= source_reports(old(self)@.device, ac as int, logo_reports(logo_state)));
        Plan { result, save_config: save, reports }
    }

    /// Stores the keyboard brightness of a power source given in percent (of
    /// both sources when in sync), as the raw value `percent_to_raw`, and
    /// applies it when the laptop runs on that source. Answers false without
    /// a laptop, true when it runs on the other source, otherwise whether the
    /// laptop answered.
    pub fn set_brightness(&mut self, ac: usize, brightness: u8) -> (r: Plan)
        requires
            old(self)@.wf(),
            old(self)@.config is Some ==> ac < 2,
        ensures
            final(self)@ == (ManagerView {
                config: opt_update(old(self)@.config, |c: ConfigurationView| update_synced(c, ac as int,
                    |p: PowerConfig| PowerConfig { brightness: percent_to_raw(brightness), ..p })),
                ..old(self)@
            }),
            r@ == (PlanView {
                result: source_answer(old(self)@.device, ac as int, Answer::LastAnswered),
                save_config: old(self)@.config is Some,
                reports: source_reports(old(self)@.device, ac as int, seq![brightness_report(percent_to_raw(brightness))]),
            }),
    {
        let val: u8 = (brightness as u16 * 255 / 100) as u8;
        let save = self.config.is_some();
        match self.config.take() {
            Some(mut config) => {
                let p = power_of(&config, ac);
                config.power.set(ac, PowerConfig { brightness: val, ..p });
                if config.sync {
                    let other = (ac + 1) % 2;
                    let q = power_of(&config, other);
                    config.power.set(other, PowerConfig { brightness: val, ..q });
                }
                self.config = Some(config);
            },
            None => {},
        }
        let mut result = Answer::Always(false);
        let mut reports: Vec<RazerPacket> = Vec::new();
        match &self.device {
            Some(laptop) => {
                let state = laptop.get_ac_state();
                if state != ac {
                    result = Answer::Always(true);
                } else {
                    let e = laptop.set_brightness(val);
                    result = e.answer;
                    reports = e.reports;
                }
            },
            None => {},
        }
        assert(views(reports@) =~= source_reports(old(self)@.device, ac as int, seq![brightness_report(percent_to_raw(brightness))]));
        Plan { result, save_config: save, reports }
    }
}

} // verus!

verus! {

/// The optimizer state read from a reply to the laptop's optimizer request.
pub open spec fn spec_bho_from_reply(reply: Option<PacketView>) -> Option<(bool, u8)> {
    match reply {
        Some(p) => Some(spec_byte_to_bho(p.args[0])),
        None => None,
    }
}

/// The view of an optional reply.
pub open spec fn reply_view(reply: Option<RazerPacket>) -> Option<PacketView> {
    match reply {
        Some(p) => Some(p@),
        None => None,
    }
}

/// The manager after the lights went off: screensaver on, and an active
/// watch wanted when an idle watch is armed.
pub open spec fn after_light_off(v: ManagerView) -> ManagerView {
    ManagerView {
        add_active: v.idle_id != 0 || v.add_active,
        device: match v.device {
            Some(l) => Some(LaptopView { screensaver: true, ..l }),
            None => None,
        },
        ..v
    }
}

/// The manager after the lights came back: screensaver off, no active watch
/// wanted.
pub open spec fn after_restore_light(v: ManagerView) -> ManagerView {
    ManagerView {
        add_active: false,
        device: match v.device {
            Some(l) => Some(LaptopView { screensaver: false, ..l }),
            None => None,
        },
        ..v
    }
}

/// The answer of a read for source `ac`: asked from the laptop when it runs
/// on that source, otherwise `from_config` of the configuration, otherwise 0.
pub open spec fn read_query(v: ManagerView, ac: int, request: PacketView, from_config: spec_fn(PowerConfig) -> u8) -> QueryView {
    if v.on_source(ac) {
        QueryView::AskLaptop(request)
    } else {
        match v.config {
            Some(c) => QueryView::Known(from_config(c.power[ac])),
            None => QueryView::Known(0),
        }
    }
}

impl DeviceManager {
    fn get_ac_config(&self, ac: usize) -> (r: Option<PowerConfig>)
        requires
            self@.wf(),
            self@.config is Some ==> ac < 2,
        ensures
            r == self@.ac_config(ac as int),
    {
        match &self.config {
            Some(c) => Some(power_of(c, ac)),
            None => None,
        }
    }

    /// The raw brightness as a percentage, rounded to the nearest percent.
    pub fn brightness_percent(raw: u8) -> (r: u8)
        ensures
            r == raw_to_percent(raw),
            r <= 100,
    {
        let val = raw as u32;
        let mut perc = val * 100 * 100 / 255;
        perc += 50;
        perc /= 100;
        perc as u8
    }

    /// The logo LED state stored for a power source (0 without a configuration).
    pub fn get_logo_led_state(&self, ac: usize) -> (r: u8)
        requires
            self@.wf(),
            self@.config is Some ==> ac < 2,
        ensures
            r == stored_logo_state(self@, ac as int),
    {
        match self.get_ac_config(ac) {
            Some(config) => config.logo_state,
            None => 0,
        }
    }

    /// The keyboard brightness of a power source in percent: read from the
    /// laptop when it runs on that source (see `brightness_from_reply`),
    /// otherwise from the configuration, otherwise 0.
    pub fn get_brightness(&self, ac: usize) -> (r: Query)
        requires
            self@.wf(),
            self@.config is Some && !self@.on_source(ac as int) ==> ac < 2,
        ensures
            r@ == read_query(self@, ac as int, brightness_request(), |p: PowerConfig| raw_to_percent(p.brightness)),
    {
        match &self.device {
            Some(laptop) => {
                if laptop.get_ac_state() == ac {
                    return Query::AskLaptop(laptop.get_brightness());
                }
            },
            None => {},
        }
        match self.get_ac_config(ac) {
            Some(config) => Query::Known(Self::brightness_percent(config.brightness)),
            None => Query::Known(0),
        }
    }

    /// The brightness percentage carried by the laptop's reply to the
    /// brightness request (0 without a reply).
    pub fn brightness_from_reply(reply: &Option<RazerPacket>) -> (r: u8)
        requires
            reply matches Some(p) ==> p.wf(),
        ensures
            r == raw_to_percent(spec_reply_value(reply_view(*reply))),
    {
        Self::brightness_percent(RazerLaptop::reply_value(reply))
    }

    /// The fan speed of a power source: the configured one, otherwise the
    /// laptop's when it runs on that source, otherwise 0.
    pub fn get_fan_rpm(&self, ac: usize) -> (r: i32)
        requires
            self@.wf(),
            self@.config is Some ==> ac < 2,
        ensures
            r == (match self@.config {
                Some(c) => c.power[ac as int].fan_rpm as int,
                None => match self@.device {
                    Some(l) => if l.ac_state as int == ac { l.fan_rpm * 100 } else { 0 },
                    None => 0,
                },
            }),
    {
        match self.get_ac_config(ac) {
            Some(config) => {
                return config.fan_rpm;
            },
            None => {},
        }
        match &self.device {
            Some(laptop) => {
                if laptop.get_ac_state() == ac {
                    return laptop.get_fan_rpm() as i32;
                }
            },
            None => {},
        }
        0
    }

    /// The power mode of a power source: read from the laptop's first zone
    /// when it runs on that source (see `RazerLaptop::reply_value`),
    /// otherwise from the configuration, otherwise 0.
    pub fn get_power_mode(&self, ac: usize) -> (r: Query)
        requires
            self@.wf(),
            self@.config is Some && !self@.on_source(ac as int) ==> ac < 2,
        ensures
            r@ == read_query(self@, ac as int, get_power_mode_report(0x01), |p: PowerConfig| p.power_mode),
    {
        match &self.device {
            Some(laptop) => {
                if laptop.get_ac_state() == ac {
                    return Query::AskLaptop(laptop.get_power_mode(0x01));
                }
            },
            None => {},
        }
        match self.get_ac_config(ac) {
            Some(config) => Query::Known(config.power_mode),
            None => Query::Known(0),
        }
    }

    /// The CPU boost of a power source, like `get_power_mode`.
    pub fn get_cpu_boost(&self, ac: usize) -> (r: Query)
        requires
            self@.wf(),
            self@.config is Some && !self@.on_source(ac as int) ==> ac < 2,
        ensures
            r@ == read_query(self@, ac as int, cpu_boost_request(), |p: PowerConfig| p.cpu_boost),
    {
        match &self.device {
            Some(laptop) => {
                if laptop.get_ac_state() == ac {
                    return Query::AskLaptop(laptop.get_cpu_boost());
                }
            },
            None => {},
        }
        match self.get_ac_config(ac) {
            Some(config) => Query::Known(config.cpu_boost),
            None => Query::Known(0),
        }
    }

    /// The GPU boost of a power source, like `get_power_mode`.
    pub fn get_gpu_boost(&self, ac: usize) -> (r: Query)
        requires
            self@.wf(),
            self@.config is Some && !self@.on_source(ac as int) ==> ac < 2,
        ensures
            r@ == read_query(self@, ac as int, gpu_boost_request(), |p: PowerConfig| p.gpu_boost),
    {
        match &self.device {
            Some(laptop) => {
                if laptop.get_ac_state() == ac {
                    return Query::AskLaptop(laptop.get_gpu_boost());
                }
            },
            None => {},
        }
        match self.get_ac_config(ac) {
            Some(config) => Query::Known(config.gpu_boost),
            None => Query::Known(0),
        }
    }

    /// Turns the lights off (screensaver on, backlight and logo off); an
    /// armed idle watch also asks for an active watch (see `add_active_watch`).
    pub fn light_off(&mut self) -> (reports: Vec<RazerPacket>)
        ensures
            final(self)@ == after_light_off(old(self)@),
            views(reports@) == (if old(self)@.device is Some {
                seq![brightness_report(0)] + logo_reports(0)
            } else {
                seq![]
            }),
    {
        if self.idle_id != 0 {
            self.add_active = true;
        }
        let mut reports: Vec<RazerPacket> = Vec::new();
        match self.device.take() {
            Some(mut laptop) => {
                laptop.set_screensaver(true);
                let e = laptop.set_brightness(0);
                append_reports(&mut reports, e.reports);
                let e = laptop.set_logo_led_state(0);
                append_reports(&mut reports, e.reports);
                self.device = Some(laptop);
            },
            None => {},
        }
        assert(views(reports@) =~= (if old(self)@.device is Some {
            seq![brightness_report(0)] + logo_reports(0)
        } else {
            seq![]
        }));
        reports
    }

    /// Turns the lights back on with the current source's configured
    /// brightness and logo state (0 and 0 without a configuration).
    pub fn restore_light(&mut self) -> (reports: Vec<RazerPacket>)
        requires
            old(self)@.wf(),
        ensures
            ({
                let v = old(self)@;
                let (b, logo) = match v.config {
                    Some(c) => (c.power[v.source()].brightness, c.power[v.source()].logo_state),
                    None => (0u8, 0u8),
                };
                &&& final(self)@ == after_restore_light(v)
                &&& views(reports@) == (if v.device is Some {
                    seq![brightness_report(b)] + logo_reports(logo)
                } else {
                    seq![]
                })
            }),
    {
        self.add_active = false;
        let mut brightness: u8 = 0;
        let mut logo_state: u8 = 0;
        let mut ac: usize = 0;
        match &self.device {
            Some(laptop) => ac = laptop.get_ac_state(),
            None => {},
        }
        match self.get_ac_config(ac) {
            Some(config) => {
                brightness = config.brightness;
                logo_state = config.logo_state;
            },
            None => {},
        }
        let mut reports: Vec<RazerPacket> = Vec::new();
        match self.device.take() {
            Some(mut laptop) => {
                laptop.set_screensaver(false);
                let e = laptop.set_brightness(brightness);
                append_reports(&mut reports, e.reports);
                let e = laptop.set_logo_led_state(logo_state);
                append_reports(&mut reports, e.reports);
                self.device = Some(laptop);
            },
            None => {},
        }
        assert(views(reports@) =~= (if old(self)@.device is Some {
            seq![brightness_report(brightness)] + logo_reports(logo_state)
        } else {
            seq![]
        }));
        reports
    }

    /// Sends the configured standard effect to the laptop, when light
    /// control is on.
    pub fn restore_standard_effect(&self) -> (reports: Vec<RazerPacket>)
        requires
            self@.device is Some ==> (self@.config matches Some(c) ==> (c.enable_light_control
                ==> c.standard_effect_params.len() <= 79)),
        ensures
            views(reports@) == (match (self@.device, self@.config) {
                (Some(l), Some(c)) => if c.enable_light_control {
                    seq![packet(0x03, 0x0a, 80, seq![c.standard_effect] + c.standard_effect_params)]
                } else {
                    seq![]
                },
                _ => seq![],
            }),
    {
        let mut reports: Vec<RazerPacket> = Vec::new();
        if !self.get_light_control() {
            assert(views(reports@) =~= Seq::<PacketView>::empty());
            return reports;
        }
        let mut effect: u8 = 0;
        let mut params: Vec<u8> = Vec::new();
        match &self.config {
            Some(config) => {
                effect = config.standard_effect;
                params = config.standard_effect_params.clone();
                assert(params@ =~= config.standard_effect_params@);
            },
            None => {},
        }
        match &self.device {
            Some(laptop) => {
                let e = laptop.set_standard_effect(effect, params);
                reports = e.reports;
            },
            None => {},
        }
        reports
    }

    /// Records the power source, re-arms the idle watch, and applies the
    /// new source's configuration to the laptop.
    pub fn set_ac_state(&mut self, ac: bool) -> (reports: Vec<RazerPacket>)
        requires
            old(self)@.wf(),
            old(self)@.device matches Some(l) ==> (old(self)@.config matches Some(c) ==> fan_request_ok(
                after_power_mode(l, c.power[if ac { 1int } else { 0int }].power_mode),
                c.power[if ac { 1int } else { 0int }].fan_rpm as u16,
            )),
        ensures
            ({
                let v = old(self)@;
                let idx: int = if ac { 1 } else { 0 };
                &&& final(self)@ == (ManagerView {
                    change_idle: true,
                    device: match (v.device, v.config) {
                        (Some(l), Some(c)) => Some(after_config(LaptopView { ac_state: idx as u8, ..l }, c.power[idx])),
                        (Some(l), None) => Some(LaptopView { ac_state: idx as u8, ..l }),
                        (None, _) => None,
                    },
                    ..v
                })
                &&& views(reports@) == (match (v.device, v.config) {
                    (Some(l), Some(c)) => config_reports(LaptopView { ac_state: idx as u8, ..l }, c.power[idx]),
                    _ => seq![],
                })
            }),
    {
        match self.device.take() {
            Some(mut laptop) => {
                laptop.set_ac_state(ac);
                self.device = Some(laptop);
            },
            None => {},
        }
        self.change_idle = true;
        let idx: usize = if ac { 1 } else { 0 };
        let config: Option<PowerConfig> = self.get_ac_config(idx);
        let mut reports: Vec<RazerPacket> = Vec::new();
        match config {
            Some(config) => {
                match self.device.take() {
                    Some(mut laptop) => {
                        let e = laptop.set_config(config);
                        reports = e.reports;
                        self.device = Some(laptop);
                    },
                    None => {},
                }
            },
            None => {},
        }
        assert(views(reports@) =~= (match (old(self)@.device, old(self)@.config) {
            (Some(l), Some(c)) => config_reports(LaptopView { ac_state: idx as u8, ..l }, c.power[idx as int]),
            _ => seq![],
        }));
        reports
    }

    pub fn get_device(&self) -> (r: Option<&RazerLaptop>)
        ensures
            match self@.device {
                Some(l) => r matches Some(d) && d@ == l,
                None => r is None,
            },
    {
        match &self.device {
            Some(laptop) => Some(laptop),
            None => None,
        }
    }

    /// Takes the laptop that was found and opened.
    pub fn set_device(&mut self, laptop: RazerLaptop)
        ensures
            final(self)@ == (ManagerView { device: Some(laptop@), ..old(self)@ }),
    {
        self.device = Some(laptop);
    }

    /// The configuration, when there is one.
    pub fn config(&self) -> (r: Option<&Configuration>)
        ensures
            match self@.config {
                Some(c) => r matches Some(x) && x@ == c,
                None => r is None,
            },
    {
        match &self.config {
            Some(config) => Some(config),
            None => None,
        }
    }

    /// The id of the armed idle watch (0 when none is).
    pub fn idle_id(&self) -> (r: u32)
        ensures
            r == self@.idle_id,
    {
        self.idle_id
    }

    /// The id of the armed active watch (0 when none is).
    pub fn active_id(&self) -> (r: u32)
        ensures
            r == self@.active_id,
    {
        self.active_id
    }

    /// Whether the idle watch has to be replaced.
    pub fn change_idle_pending(&self) -> (r: bool)
        ensures
            r == self@.change_idle,
    {
        self.change_idle
    }

    /// Sets the battery health optimizer; false without a laptop.
    pub fn set_bho_handler(&self, is_on: bool, threshold: u8) -> (r: Plan)
        ensures
            r.save_config == false,
            match self@.device {
                Some(l) => if l.features.contains("bho"@) {
                    r@.result == Answer::LastAnswered
                        && r@.reports == seq![packet(0x07, 0x12, 0x01, seq![crate::bho::spec_bho_to_byte(is_on, threshold)])]
                } else {
                    r@.result == Answer::Always(false) && r@.reports == Seq::<PacketView>::empty()
                },
                None => r@.result == Answer::Always(false) && r@.reports == Seq::<PacketView>::empty(),
            },
    {
        match &self.device {
            Some(laptop) => {
                let e = laptop.set_bho(is_on, threshold);
                Plan { result: e.answer, save_config: false, reports: e.reports }
            },
            None => {
                let reports: Vec<RazerPacket> = Vec::new();
                assert(views(reports@) =~= Seq::<PacketView>::empty());
                Plan { result: Answer::Always(false), save_config: false, reports }
            },
        }
    }

    /// The request that reads the battery health optimizer; none (and the
    /// answer none) without a laptop or without the "bho" feature. The
    /// answer is then `bho_from_reply` of the reply.
    pub fn get_bho_handler(&self) -> (r: Option<RazerPacket>)
        ensures
            match self@.device {
                Some(l) => if l.features.contains("bho"@) {
                    r matches Some(p) && p@ == packet(0x07, 0x92, 0x01, seq![0x00]) && p.wf()
                } else {
                    r is None
                },
                None => r is None,
            },
    {
        match &self.device {
            Some(laptop) => laptop.get_bho(),
            None => None,
        }
    }

    /// The optimizer state (flag, threshold) in a reply to the optimizer
    /// request; none without a reply.
    pub fn bho_from_reply(reply: &Option<RazerPacket>) -> (r: Option<(bool, u8)>)
        requires
            reply matches Some(p) ==> p.wf(),
        ensures
            r == spec_bho_from_reply(reply_view(*reply)),
    {
        match RazerLaptop::bho_reply(reply) {
            Some(b) => Some(byte_to_bho(b)),
            None => None,
        }
    }
}

} // verus!

verus! {

pub struct PadPlanView {
    pub save_config: bool,
    pub commands: Option<Seq<PadCommandView>>,
}

impl View for PadPlan {
    type V = PadPlanView;

    open spec fn view(&self) -> PadPlanView {
        PadPlanView {
            save_config: self.save_config,
            commands: match self.commands {
                Some(c) => Some(command_views(c@)),
                None => None,
            },
        }
    }
}

pub struct PadRestoreView {
    pub effect: Option<Seq<PadCommandView>>,
    pub fan: PadCommandView,
}

impl View for PadRestore {
    type V = PadRestoreView;

    open spec fn view(&self) -> PadRestoreView {
        PadRestoreView {
            effect: match self.effect {
                Some(c) => Some(command_views(c@)),
                None => None,
            },
            fan: self.fan@,
        }
    }
}

/// The commands that apply a cooling pad effect: "static" sets the colour
/// first; an unknown effect gives none.
pub open spec fn pad_effect_commands(effect: Seq<char>, params: Seq<u8>) -> Option<Seq<PadCommandView>> {
    if effect == "static"@ {
        match effect_commands("static"@, params) {
            Some(cmds) => Some(seq![color_command(params)] + cmds),
            None => None,
        }
    } else {
        effect_commands(effect, params)
    }
}

/// What `get_cooling_pad_state` reports: whether the pad is connected, and
/// its configured fan speed, effect and parameters (0, "off", none without a
/// configuration).
pub open spec fn pad_state(v: ManagerView) -> (bool, i32, Seq<char>, Seq<u8>) {
    match v.config {
        Some(c) => (v.cooling_pad is Some, c.cooling_pad.fan_rpm, c.cooling_pad.effect, c.cooling_pad.effect_params),
        None => (v.cooling_pad is Some, 0, "off"@, Seq::empty()),
    }
}

/// The manager after storing a pad fan speed (negative speeds as 0).
pub open spec fn after_pad_fan_rpm(v: ManagerView, rpm: i32) -> ManagerView {
    let speed: i32 = if rpm < 0 { 0 } else { rpm };
    ManagerView {
        config: opt_update(v.config, |c: ConfigurationView| ConfigurationView {
            cooling_pad: crate::config::CoolingPadConfigView { fan_rpm: speed, ..c.cooling_pad },
            ..c
        }),
        ..v
    }
}

/// The manager after storing a pad effect and its parameters.
pub open spec fn after_pad_effect(v: ManagerView, effect: Seq<char>, params: Seq<u8>) -> ManagerView {
    ManagerView {
        config: opt_update(v.config, |c: ConfigurationView| ConfigurationView {
            cooling_pad: crate::config::CoolingPadConfigView { effect, effect_params: params, ..c.cooling_pad },
            ..c
        }),
        ..v
    }
}

/// The idle timeout in milliseconds configured for a power source (0
/// without a configuration).
pub open spec fn idle_timeout_ms(v: ManagerView) -> int {
    match v.config {
        Some(c) => c.power[v.source()].idle as int * 60 * 1000,
        None => 0,
    }
}

impl DeviceManager {
    /// After the idle timeout changed: the watch to remove (the armed one)
    /// and the timeout of the watch to add (none when the timeout is 0).
    /// Nothing when no change is pending.
    pub fn add_idle_watch(&mut self) -> (r: IdleWatch)
        requires
            old(self)@.wf(),
        ensures
            ({
                let v = old(self)@;
                let t = idle_timeout_ms(v);
                if v.change_idle {
                    &&& final(self)@ == (ManagerView { change_idle: false, ..v })
                    &&& r.remove == (if v.idle_id != 0 { Some(v.idle_id) } else { None::<u32> })
                    &&& r.add_timeout_ms == (if t != 0 { Some(t as u64) } else { None::<u64> })
                } else {
                    &&& final(self)@ == v
                    &&& r.remove is None
                    &&& r.add_timeout_ms is None
                }
            }),
    {
        if !self.change_idle {
            return IdleWatch { remove: None, add_timeout_ms: None };
        }
        let mut timeout: u64 = 0;
        let mut state: usize = 0;
        match &self.device {
            Some(laptop) => state = laptop.get_ac_state(),
            None => {},
        }
        match &self.config {
            Some(config) => {
                timeout = power_of(config, state).idle as u64 * 60 * 1000;
            },
            None => {},
        }
        let remove = if self.idle_id != 0 { Some(self.idle_id) } else { None };
        self.change_idle = false;
        if timeout != 0 {
            IdleWatch { remove, add_timeout_ms: Some(timeout) }
        } else {
            IdleWatch { remove, add_timeout_ms: None }
        }
    }

    /// Records the id of the idle watch the monitor added.
    pub fn idle_watch_added(&mut self, id: u32)
        ensures
            final(self)@ == (ManagerView { idle_id: id, ..old(self)@ }),
    {
        self.idle_id = id;
    }

    /// Whether an active watch has to be added (the lights went off while an
    /// idle watch was armed).
    pub fn add_active_watch(&self) -> (r: bool)
        ensures
            r == self@.add_active,
    {
        self.add_active
    }

    /// Records the id of the active watch the monitor added.
    pub fn active_watch_added(&mut self, id: u32)
        ensures
            final(self)@ == (ManagerView { active_id: id, ..old(self)@ }),
    {
        self.active_id = id;
    }

    /// Whether the pad is connected, its configured fan speed, effect and
    /// effect parameters (0, "off" and none without a configuration).
    pub fn get_cooling_pad_state(&self) -> (r: (bool, i32, String, Vec<u8>))
        ensures
            (r.0, r.1, r.2@, r.3@) == pad_state(self@),
    {
        let (effect, effect_params, fallback_fan_rpm) = match &self.config {
            Some(config) => {
                let p = config.cooling_pad.effect_params.clone();
                assert(p@ =~= config.cooling_pad.effect_params@);
                (config.cooling_pad.effect.clone(), p, config.cooling_pad.fan_rpm)
            },
            None => {
                let p: Vec<u8> = Vec::new();
                assert(p@ =~= Seq::<u8>::empty());
                ("off".to_owned(), p, 0)
            },
        };
        (self.cooling_pad.is_some(), fallback_fan_rpm, effect, effect_params)
    }

    /// Stores the pad's fan speed (negative speeds become 0) and sets it on
    /// the pad; false without a pad.
    pub fn set_cooling_pad_fan_rpm(&mut self, rpm: i32) -> (r: PadPlan)
        ensures
            ({
                let v = old(self)@;
                let speed: i32 = if rpm < 0 { 0 } else { rpm };
                &&& final(self)@ == after_pad_fan_rpm(v, rpm)
                &&& r@ == (PadPlanView {
                    save_config: v.config is Some,
                    commands: if v.cooling_pad is Some { Some(seq![fan_rpm_command(speed)]) } else { None },
                })
            }),
    {
        let rpm = if rpm < 0 { 0 } else { rpm };
        let save = self.config.is_some();
        match self.config.take() {
            Some(mut config) => {
                config.cooling_pad.fan_rpm = rpm;
                self.config = Some(config);
            },
            None => {},
        }
        let commands = if self.cooling_pad.is_some() {
            let mut cmds: Vec<PadCommand> = Vec::new();
            push_command(&mut cmds, CoolingPad::set_fan_rpm(rpm));
            assert(command_views(cmds@) =~= seq![fan_rpm_command(rpm)]);
            Some(cmds)
        } else {
            None
        };
        PadPlan { save_config: save, commands }
    }

    /// The commands that apply a pad effect (see `pad_effect_commands`).
    fn pad_effect(effect: &String, params: &Vec<u8>) -> (r: Option<Vec<PadCommand>>)
        ensures
            match pad_effect_commands(effect@, params@) {
                Some(cmds) => r matches Some(v) && command_views(v@) == cmds,
                None => r is None,
            },
    {
        if *effect == "static".to_owned() {
            match CoolingPad::set_effect("static", params) {
                Some(effect_cmds) => {
                    let mut cmds: Vec<PadCommand> = Vec::new();
                    push_command(&mut cmds, CoolingPad::set_color(params));
                    let ghost first = command_views(cmds@);
                    let mut more = effect_cmds;
                    let ghost rest = more@;
                    cmds.append(&mut more);
                    assert(command_views(cmds@) =~= first + command_views(rest));
                    Some(cmds)
                },
                None => None,
            }
        } else {
            CoolingPad::set_effect(effect.as_str(), params)
        }
    }

    /// Stores the pad's effect and parameters and applies them to the pad;
    /// false without a pad or for an unknown effect.
    pub fn set_cooling_pad_effect(&mut self, effect: String, params: Vec<u8>) -> (r: PadPlan)
        ensures
            ({
                let v = old(self)@;
                &&& final(self)@ == after_pad_effect(v, effect@, params@)
                &&& r@ == (PadPlanView {
                    save_config: v.config is Some,
                    commands: if v.cooling_pad is Some { pad_effect_commands(effect@, params@) } else { None },
                })
            }),
    {
        let save = self.config.is_some();
        match self.config.take() {
            Some(mut config) => {
                config.cooling_pad.effect = effect.clone();
                let p = params.clone();
                assert(p@ =~= params@);
                config.cooling_pad.effect_params = p;
                self.config = Some(config);
            },
            None => {},
        }
        let commands = if self.cooling_pad.is_some() {
            Self::pad_effect(&effect, &params)
        } else {
            None
        };
        PadPlan { save_config: save, commands }
    }

    /// What restores the pad's configured effect and fan speed, when there
    /// are a pad and a configuration.
    fn restore_cooling_pad(&self) -> (r: Option<PadRestore>)
        ensures
            match (self@.config, self@.cooling_pad) {
                (Some(c), Some(_)) => r matches Some(x) && x@ == (PadRestoreView {
                    effect: pad_effect_commands(c.cooling_pad.effect, c.cooling_pad.effect_params),
                    fan: fan_rpm_command(c.cooling_pad.fan_rpm),
                }),
                _ => r is None,
            },
    {
        match (&self.config, &self.cooling_pad) {
            (Some(config), Some(_)) => {
                let effect = Self::pad_effect(&config.cooling_pad.effect, &config.cooling_pad.effect_params);
                let fan = CoolingPad::set_fan_rpm(config.cooling_pad.fan_rpm);
                Some(PadRestore { effect, fan })
            },
            _ => None,
        }
    }

    /// Whether the pads found on the bus (their device paths; none when the
    /// bus could not be enumerated) have to be probed: not when enumeration
    /// failed, which keeps the known pad, and not when the known pad is still
    /// among them.
    pub fn refresh_cooling_pad(&self, candidate_paths: &Option<Vec<Vec<u8>>>) -> (r: bool)
        ensures
            r == (candidate_paths matches Some(paths)
                && !(self@.cooling_pad matches Some(path) && path_views(paths@).contains(path))),
    {
        match candidate_paths {
            Some(paths) => !self.pad_among(paths),
            None => false,
        }
    }

    /// Whether the known pad is among the given device paths.
    fn pad_among(&self, candidate_paths: &Vec<Vec<u8>>) -> (r: bool)
        ensures
            r == (self@.cooling_pad matches Some(path) && path_views(candidate_paths@).contains(path)),
    {
        match &self.cooling_pad {
            Some(pad) => {
                let mut i: usize = 0;
                while i < candidate_paths.len()
                    invariant
                        i <= candidate_paths.len(),
                        self@.cooling_pad == Some(pad.path@),
                        forall|j: int| 0 <= j < i ==> #[trigger] candidate_paths@[j]@ != pad.path@,
                    decreases candidate_paths.len() - i,
                {
                    if bytes_equal(&candidate_paths[i], &pad.path) {
                        assert(path_views(candidate_paths@)[i as int] == pad.path@);
                        return true;
                    }
                    i = i + 1;
                }
                assert forall|j: int| 0 <= j < candidate_paths@.len() implies
                    #[trigger] path_views(candidate_paths@)[j] != pad.path@ by {
                    assert(candidate_paths@[j]@ != pad.path@);
                }
                false
            },
            None => false,
        }
    }

    /// Records the outcome of probing: a pad that opened becomes the known
    /// pad and gets its settings restored; without one, a known pad is
    /// forgotten.
    pub fn cooling_pad_probed(&mut self, discovered: Option<CoolingPad>) -> (r: Option<PadRestore>)
        ensures
            ({
                let v = old(self)@;
                match discovered {
                    Some(pad) => {
                        &&& final(self)@ == (ManagerView { cooling_pad: Some(pad.path@), ..v })
                        &&& match v.config {
                            Some(c) => r matches Some(x) && x@ == (PadRestoreView {
                                effect: pad_effect_commands(c.cooling_pad.effect, c.cooling_pad.effect_params),
                                fan: fan_rpm_command(c.cooling_pad.fan_rpm),
                            }),
                            None => r is None,
                        }
                    },
                    None => final(self)@ == (ManagerView { cooling_pad: None, ..v }) && r is None,
                }
            }),
    {
        match discovered {
            Some(pad) => {
                self.cooling_pad = Some(pad);
                self.restore_cooling_pad()
            },
            None => {
                self.cooling_pad = None;
                None
            },
        }
    }

    /// Whether every supported device that a lookup of these ids reads has
    /// hexadecimal ids (see `find_supported_device`).
    pub fn supported_ids_readable(&self, vid: u16, pid: u16) -> (r: bool)
        ensures
            r == ids_readable(self@.supported_devices, vid, pid),
    {
        let mut i: usize = 0;
        while i < self.supported_devices.len()
            invariant
                i <= self.supported_devices.len(),
                self@.supported_devices == self.supported_devices@,
                forall|j: int| 0 <= j < i ==> !device_matches(#[trigger] self@.supported_devices[j], vid, pid),
                forall|j: int| 0 <= j < i ==> spec_from_hex_u16(#[trigger] self@.supported_devices[j].vid@) is Some
                    && spec_from_hex_u16(self@.supported_devices[j].pid@) is Some,
            decreases self.supported_devices.len() - i,
        {
            let device = &self.supported_devices[i];
            assert(self@.supported_devices[i as int] == *device);
            let svid = parse_hex_u16(device.vid.as_str());
            let spid = parse_hex_u16(device.pid.as_str());
            match (svid, spid) {
                (Some(v), Some(p)) => {
                    if v == vid && p == pid {
                        assert(device_matches(self@.supported_devices[i as int], vid, pid));
                        return true;
                    }
                },
                _ => {
                    return false;
                },
            }
            i = i + 1;
        }
        true
    }

    /// The first supported device with the given USB ids.
    pub fn find_supported_device(&self, vid: u16, pid: u16) -> (r: Option<&SupportedDevice>)
        requires
            ids_readable(self@.supported_devices, vid, pid),
        ensures
            match r {
                Some(d) => exists|i: int| first_match(self@.supported_devices, vid, pid, i) && *d == self@.supported_devices[i],
                None => forall|i: int| 0 <= i < self@.supported_devices.len() ==> !device_matches(#[trigger] self@.supported_devices[i], vid, pid),
            },
    {
        let mut i: usize = 0;
        while i < self.supported_devices.len()
            invariant
                i <= self.supported_devices.len(),
                ids_readable(self@.supported_devices, vid, pid),
                self@.supported_devices == self.supported_devices@,
                forall|j: int| 0 <= j < i ==> !device_matches(#[trigger] self@.supported_devices[j], vid, pid),
            decreases self.supported_devices.len() - i,
        {
            let device = &self.supported_devices[i];
            assert(self@.supported_devices[i as int] == *device);
            let svid = parse_hex_u16(device.vid.as_str()).unwrap();
            let spid = parse_hex_u16(device.pid.as_str()).unwrap();
            if svid == vid && spid == pid {
                assert(first_match(self@.supported_devices, vid, pid, i as int));
                return Some(device);
            }
            i = i + 1;
        }
        None
    }
}

/// The contents of a sequence of byte strings.
pub open spec fn path_views(paths: Seq<Vec<u8>>) -> Seq<Seq<u8>> {
    paths.map_values(|p: Vec<u8>| p@)
}

/// Whether two byte strings are equal.
fn bytes_equal(a: &Vec<u8>, b: &Vec<u8>) -> (r: bool)
    ensures
        r == (a@ == b@),
{
    if a.len() != b.len() {
        return false;
    }
    let mut i: usize = 0;
    while i < a.len()
        invariant
            i <= a.len() == b.len(),
            forall|j: int| 0 <= j < i ==> a@[j] == b@[j],
        decreases a.len() - i,
    {
        if a[i] != b[i] {
            return false;
        }
        i = i + 1;
    }
    assert(a@ =~= b@);
    true
}

} // verus!
