use vstd::prelude::*;

verus! {

/// What the daemon keeps for one power source (index 0: battery, 1: AC).
#[derive(Clone, Copy, PartialEq, Eq, Structural, Debug)]
pub struct PowerConfig {
    /// Keyboard backlight brightness, as the raw controller value 0..=255.
    pub brightness: u8,
    pub logo_state: u8,
    pub screensaver: bool,
    /// Minutes of inactivity before the lights go off; 0 disables it.
    pub idle: u32,
    pub power_mode: u8,
    pub cpu_boost: u8,
    pub gpu_boost: u8,
    pub fan_rpm: i32,
}

/// What the daemon keeps for the cooling pad.
pub struct CoolingPadConfig {
    pub effect: String,
    pub effect_params: Vec<u8>,
    pub fan_rpm: i32,
}

/// The daemon's persistent settings.
pub struct Configuration {
    /// One entry per power source, indexed by the AC state.
    pub power: Vec<PowerConfig>,
    pub sync: bool,
    pub enable_light_control: bool,
    pub standard_effect: u8,
    pub standard_effect_params: Vec<u8>,
    pub cooling_pad: CoolingPadConfig,
}

pub struct CoolingPadConfigView {
    pub effect: Seq<char>,
    pub effect_params: Seq<u8>,
    pub fan_rpm: i32,
}

pub struct ConfigurationView {
    pub power: Seq<PowerConfig>,
    pub sync: bool,
    pub enable_light_control: bool,
    pub standard_effect: u8,
    pub standard_effect_params: Seq<u8>,
    pub cooling_pad: CoolingPadConfigView,
}

impl View for CoolingPadConfig {
    type V = CoolingPadConfigView;

    open spec fn view(&self) -> CoolingPadConfigView {
        CoolingPadConfigView {
            effect: self.effect@,
            effect_params: self.effect_params@,
            fan_rpm: self.fan_rpm,
        }
    }
}

impl View for Configuration {
    type V = ConfigurationView;

    open spec fn view(&self) -> ConfigurationView {
        ConfigurationView {
            power: self.power@,
            sync: self.sync,
            enable_light_control: self.enable_light_control,
            standard_effect: self.standard_effect,
            standard_effect_params: self.standard_effect_params@,
            cooling_pad: self.cooling_pad@,
        }
    }
}

/// The index of the other power source.
pub open spec fn other_source(ac: int) -> int {
    (ac + 1) % 2
}

/// The settings of a fresh configuration for one power source.
pub open spec fn default_power_config() -> PowerConfig {
    PowerConfig {
        brightness: 0,
        logo_state: 0,
        screensaver: false,
        idle: 0,
        power_mode: 0,
        cpu_boost: 0,
        gpu_boost: 0,
        fan_rpm: 0,
    }
}

impl ConfigurationView {
    /// Settings for exactly two power sources.
    pub open spec fn wf(self) -> bool {
        self.power.len() == 2
    }
}

impl PowerConfig {
    /// The settings of a fresh configuration for one power source.
    pub fn new() -> (r: PowerConfig)
        ensures
            r == default_power_config(),
    {
        PowerConfig {
            brightness: 0,
            logo_state: 0,
            screensaver: false,
            idle: 0,
            power_mode: 0,
            cpu_boost: 0,
            gpu_boost: 0,
            fan_rpm: 0,
        }
    }
}

impl Configuration {
    /// The content of a fresh configuration.
    pub open spec fn new_view() -> ConfigurationView {
        ConfigurationView {
            power: seq![default_power_config(), default_power_config()],
            sync: false,
            enable_light_control: false,
            standard_effect: 0,
            standard_effect_params: Seq::empty(),
            cooling_pad: CoolingPadConfigView { effect: "off"@, effect_params: Seq::empty(), fan_rpm: 0 },
        }
    }

    /// A fresh configuration: both power sources at their defaults, sync and
    /// light control off, no standard effect, cooling pad effect "off".
    pub fn new() -> (r: Configuration)
        ensures
            r@ == Self::new_view(),
            r@.wf(),
            r@.power == seq![default_power_config(), default_power_config()],
            !r@.sync,
            !r@.enable_light_control,
            r@.standard_effect == 0,
            r@.standard_effect_params == Seq::<u8>::empty(),
            r@.cooling_pad.effect == "off"@,
            r@.cooling_pad.effect_params == Seq::<u8>::empty(),
            r@.cooling_pad.fan_rpm == 0,
    {
        let mut power: Vec<PowerConfig> = Vec::new();
        power.push(PowerConfig::new());
        power.push(PowerConfig::new());
        let r = Configuration {
            power,
            sync: false,
            enable_light_control: false,
            standard_effect: 0,
            standard_effect_params: Vec::new(),
            cooling_pad: CoolingPadConfig { effect: "off".to_owned(), effect_params: Vec::new(), fan_rpm: 0 },
        };
        assert(r@.power =~= seq![default_power_config(), default_power_config()]);
        assert(r@.standard_effect_params =~= Seq::<u8>::empty());
        assert(r@.cooling_pad.effect_params =~= Seq::<u8>::empty());
        r
    }
}

} // verus!
