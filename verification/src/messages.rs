use vstd::prelude::*;

verus! {

/// A request from the settings window to the daemon. `ac` is 1 for the AC
/// power source, 0 for battery.
pub enum DaemonCommand {
    GetDeviceName,
    GetBatteryHealthOptimizer,
    SetBatteryHealthOptimizer { is_on: bool, threshold: u8 },
    GetBrightness { ac: usize },
    SetBrightness { ac: usize, val: u8 },
    GetLogoLedState { ac: usize },
    SetLogoLedState { ac: usize, logo_state: u8 },
    SetEffect { name: String, params: Vec<u8> },
    GetCoolingPadState,
    SetCoolingPadFanSpeed { rpm: i32 },
    SetCoolingPadEffect { name: String, params: Vec<u8> },
    GetPwrLevel { ac: usize },
    GetCPUBoost { ac: usize },
    GetGPUBoost { ac: usize },
    SetPowerMode { ac: usize, pwr: u8, cpu: u8, gpu: u8 },
    GetFanSpeed { ac: usize },
    SetFanSpeed { ac: usize, rpm: i32 },
}

/// The daemon's answer to a request.
pub enum DaemonResponse {
    GetDeviceName { name: String },
    GetBatteryHealthOptimizer { is_on: bool, threshold: u8 },
    SetBatteryHealthOptimizer { result: bool },
    GetBrightness { result: u8 },
    SetBrightness { result: bool },
    GetLogoLedState { logo_state: u8 },
    SetLogoLedState { result: bool },
    SetEffect { result: bool },
    GetCoolingPadState { present: bool, fan_rpm: i32, effect: String, effect_params: Vec<u8> },
    SetCoolingPadFanSpeed { result: bool },
    SetCoolingPadEffect { result: bool },
    GetPwrLevel { pwr: u8 },
    GetCPUBoost { cpu: u8 },
    GetGPUBoost { gpu: u8 },
    SetPowerMode { result: bool },
    GetFanSpeed { rpm: i32 },
    SetFanSpeed { result: bool },
}

/// The kind of answer each request expects; any other answer is refused.
pub enum Expected {
    DeviceName,
    BatteryHealthOptimizer,
    Brightness,
    LogoLedState,
    PwrLevel,
    CpuBoost,
    GpuBoost,
    FanSpeed,
}

fn side(ac: bool) -> (r: usize)
    ensures
        r == (if ac { 1usize } else { 0usize }),
{
    if ac { 1 } else { 0 }
}

pub fn get_brightness_request(ac: bool) -> (r: DaemonCommand)
    ensures
        r == (DaemonCommand::GetBrightness { ac: if ac { 1usize } else { 0usize } }),
{
    DaemonCommand::GetBrightness { ac: side(ac) }
}

pub fn set_brightness_request(ac: bool, val: u8) -> (r: DaemonCommand)
    ensures
        r == (DaemonCommand::SetBrightness { ac: if ac { 1usize } else { 0usize }, val }),
{
    DaemonCommand::SetBrightness { ac: side(ac), val }
}

pub fn get_logo_request(ac: bool) -> (r: DaemonCommand)
    ensures
        r == (DaemonCommand::GetLogoLedState { ac: if ac { 1usize } else { 0usize } }),
{
    DaemonCommand::GetLogoLedState { ac: side(ac) }
}

pub fn set_logo_request(ac: bool, logo_state: u8) -> (r: DaemonCommand)
    ensures
        r == (DaemonCommand::SetLogoLedState { ac: if ac { 1usize } else { 0usize }, logo_state }),
{
    DaemonCommand::SetLogoLedState { ac: side(ac), logo_state }
}

/// The request that reads the power setting at position `step` of a power
/// source: 0 the power mode, 1 the CPU boost, 2 the GPU boost.
pub open spec fn power_request(step: int, ac: usize) -> DaemonCommand {
    if step == 0 {
        DaemonCommand::GetPwrLevel { ac }
    } else if step == 1 {
        DaemonCommand::GetCPUBoost { ac }
    } else {
        DaemonCommand::GetGPUBoost { ac }
    }
}

/// The value an answer carries for the request at position `step`, when the
/// answer is of that request's kind.
pub open spec fn power_answer(step: int, answer: DaemonResponse) -> Option<u8> {
    match answer {
        DaemonResponse::GetPwrLevel { pwr } => if step == 0 { Some(pwr) } else { None },
        DaemonResponse::GetCPUBoost { cpu } => if step == 1 { Some(cpu) } else { None },
        DaemonResponse::GetGPUBoost { gpu } => if step == 2 { Some(gpu) } else { None },
        _ => None,
    }
}

/// Reading the power settings of a power source: the values accepted so far
/// (power mode, then CPU boost).
pub struct PowerRead {
    pub ac: usize,
    pub got: Vec<u8>,
}

/// What follows an answer while reading the power settings.
pub enum PowerStep {
    /// Send this request next.
    Ask(DaemonCommand),
    /// Reading is over: the settings, or none after an absent or wrong answer.
    Done(Option<(u8, u8, u8)>),
}

/// What follows the answer (none when nothing came back) to the request at
/// position `got.len()`: the values accepted after it, and the next step.
/// An absent or wrong answer ends the reading with none; the third good
/// answer ends it with the three values.
pub open spec fn spec_power_step(ac: usize, got: Seq<u8>, answer: Option<DaemonResponse>) -> (Seq<u8>, PowerStep) {
    match answer {
        None => (got, PowerStep::Done(None)),
        Some(a) => match power_answer(got.len() as int, a) {
            None => (got, PowerStep::Done(None)),
            Some(v) => if got.len() + 1 == 3 {
                (got.push(v), PowerStep::Done(Some((got[0], got[1], v))))
            } else {
                (got.push(v), PowerStep::Ask(power_request((got.len() + 1) as int, ac)))
            },
        },
    }
}

/// The requests sent and the settings read when the daemon gives the
/// answers `a1`, `a2`, `a3` in turn (an answer that is not asked for is not
/// looked at).
pub open spec fn power_run(ac: usize, a1: Option<DaemonResponse>, a2: Option<DaemonResponse>, a3: Option<DaemonResponse>) -> (Seq<DaemonCommand>, Option<(u8, u8, u8)>) {
    let first = power_request(0, ac);
    let (g1, s1) = spec_power_step(ac, seq![], a1);
    match s1 {
        PowerStep::Done(r) => (seq![first], r),
        PowerStep::Ask(c2) => {
            let (g2, s2) = spec_power_step(ac, g1, a2);
            match s2 {
                PowerStep::Done(r) => (seq![first, c2], r),
                PowerStep::Ask(c3) => {
                    let (g3, s3) = spec_power_step(ac, g2, a3);
                    match s3 {
                        PowerStep::Done(r) => (seq![first, c2, c3], r),
                        PowerStep::Ask(_) => (seq![first, c2, c3], None),
                    }
                },
            }
        },
    }
}

/// Starts reading the power settings of a power source: the reading state
/// and the first request (the power mode).
pub fn get_power_start(ac: bool) -> (r: (PowerRead, DaemonCommand))
    ensures
        r.0.ac == (if ac { 1usize } else { 0usize }),
        r.0.got@ == Seq::<u8>::empty(),
        r.1 == power_request(0, r.0.ac),
{
    let ac = side(ac);
    let got: Vec<u8> = Vec::new();
    assert(got@ =~= Seq::<u8>::empty());
    (PowerRead { ac, got }, DaemonCommand::GetPwrLevel { ac })
}

/// Takes the answer (none when nothing came back) to the last request sent
/// while reading the power settings, and says what follows.
pub fn get_power(read: &mut PowerRead, answer: Option<DaemonResponse>) -> (r: PowerStep)
    requires
        old(read).got.len() < 3,
    ensures
        final(read).ac == old(read).ac,
        (final(read).got@, r) == spec_power_step(old(read).ac, old(read).got@, answer),
{
    let step = read.got.len();
    let value: Option<u8> = match answer {
        Some(DaemonResponse::GetPwrLevel { pwr }) => if step == 0 { Some(pwr) } else { None },
        Some(DaemonResponse::GetCPUBoost { cpu }) => if step == 1 { Some(cpu) } else { None },
        Some(DaemonResponse::GetGPUBoost { gpu }) => if step == 2 { Some(gpu) } else { None },
        _ => None,
    };
    match value {
        None => PowerStep::Done(None),
        Some(v) => {
            read.got.push(v);
            if step + 1 == 3 {
                PowerStep::Done(Some((read.got[0], read.got[1], v)))
            } else if step == 0 {
                PowerStep::Ask(DaemonCommand::GetCPUBoost { ac: read.ac })
            } else {
                PowerStep::Ask(DaemonCommand::GetGPUBoost { ac: read.ac })
            }
        },
    }
}

/// Reading the power settings asks for the power mode, then the CPU boost
/// only after a good power mode answer, then the GPU boost only after a good
/// CPU boost answer; it gives the three values exactly when all three
/// answers are of the kind asked for, and none otherwise.
pub proof fn law_power_read_stops_at_first_bad_answer(
    ac: usize,
    a1: Option<DaemonResponse>,
    a2: Option<DaemonResponse>,
    a3: Option<DaemonResponse>,
)
    ensures
        ({
            let good1 = a1 matches Some(DaemonResponse::GetPwrLevel { .. });
            let good2 = a2 matches Some(DaemonResponse::GetCPUBoost { .. });
            let sent = power_run(ac, a1, a2, a3).0;
            &&& sent == seq![DaemonCommand::GetPwrLevel { ac }] + (if good1 {
                seq![DaemonCommand::GetCPUBoost { ac }] + (if good2 {
                    seq![DaemonCommand::GetGPUBoost { ac }]
                } else {
                    Seq::<DaemonCommand>::empty()
                })
            } else {
                Seq::<DaemonCommand>::empty()
            })
            &&& power_run(ac, a1, a2, a3).1 == (match (a1, a2, a3) {
                (
                    Some(DaemonResponse::GetPwrLevel { pwr }),
                    Some(DaemonResponse::GetCPUBoost { cpu }),
                    Some(DaemonResponse::GetGPUBoost { gpu }),
                ) => Some((pwr, cpu, gpu)),
                _ => None,
            })
        }),
{
    let e: Seq<u8> = seq![];
    let first = DaemonCommand::GetPwrLevel { ac };
    if let Some(DaemonResponse::GetPwrLevel { pwr }) = a1 {
        assert(spec_power_step(ac, e, a1).0 =~= seq![pwr]);
        if let Some(DaemonResponse::GetCPUBoost { cpu }) = a2 {
            assert(spec_power_step(ac, seq![pwr], a2).0 =~= seq![pwr, cpu]);
            assert(seq![pwr, cpu][0] == pwr && seq![pwr, cpu][1] == cpu);
            assert(power_run(ac, a1, a2, a3).0 =~= seq![first] + (seq![DaemonCommand::GetCPUBoost { ac }]
                + seq![DaemonCommand::GetGPUBoost { ac }]));
        } else {
            assert(power_run(ac, a1, a2, a3).0 =~= seq![first] + (seq![DaemonCommand::GetCPUBoost { ac }]
                + Seq::<DaemonCommand>::empty()));
        }
    } else {
        assert(power_run(ac, a1, a2, a3).0 =~= seq![first] + Seq::<DaemonCommand>::empty());
    }
}

pub fn set_power_request(ac: bool, power: (u8, u8, u8)) -> (r: DaemonCommand)
    ensures
        r == (DaemonCommand::SetPowerMode { ac: if ac { 1usize } else { 0usize }, pwr: power.0, cpu: power.1, gpu: power.2 }),
{
    DaemonCommand::SetPowerMode { ac: side(ac), pwr: power.0, cpu: power.1, gpu: power.2 }
}

pub fn get_fan_speed_request(ac: bool) -> (r: DaemonCommand)
    ensures
        r == (DaemonCommand::GetFanSpeed { ac: if ac { 1usize } else { 0usize } }),
{
    DaemonCommand::GetFanSpeed { ac: side(ac) }
}

pub fn set_fan_speed_request(ac: bool, rpm: i32) -> (r: DaemonCommand)
    ensures
        r == (DaemonCommand::SetFanSpeed { ac: if ac { 1usize } else { 0usize }, rpm }),
{
    DaemonCommand::SetFanSpeed { ac: side(ac), rpm }
}

/// The device name in an answer to `GetDeviceName`.
pub fn get_device_name(response: DaemonResponse) -> (r: Option<String>)
    ensures
        match response {
            DaemonResponse::GetDeviceName { name } => r == Some(name),
            _ => r is None,
        },
{
    match response {
        DaemonResponse::GetDeviceName { name } => Some(name),
        _ => None,
    }
}

/// The optimizer state in an answer to `GetBatteryHealthOptimizer`.
pub fn get_bho(response: DaemonResponse) -> (r: Option<(bool, u8)>)
    ensures
        match response {
            DaemonResponse::GetBatteryHealthOptimizer { is_on, threshold } => r == Some((is_on, threshold)),
            _ => r is None,
        },
{
    match response {
        DaemonResponse::GetBatteryHealthOptimizer { is_on, threshold } => Some((is_on, threshold)),
        _ => None,
    }
}

/// A byte value in an answer of the expected kind.
pub fn get_value(expected: Expected, response: DaemonResponse) -> (r: Option<u8>)
    ensures
        match (expected, response) {
            (Expected::Brightness, DaemonResponse::GetBrightness { result }) => r == Some(result),
            (Expected::LogoLedState, DaemonResponse::GetLogoLedState { logo_state }) => r == Some(logo_state),
            (Expected::PwrLevel, DaemonResponse::GetPwrLevel { pwr }) => r == Some(pwr),
            (Expected::CpuBoost, DaemonResponse::GetCPUBoost { cpu }) => r == Some(cpu),
            (Expected::GpuBoost, DaemonResponse::GetGPUBoost { gpu }) => r == Some(gpu),
            _ => r is None,
        },
{
    match (expected, response) {
        (Expected::Brightness, DaemonResponse::GetBrightness { result }) => Some(result),
        (Expected::LogoLedState, DaemonResponse::GetLogoLedState { logo_state }) => Some(logo_state),
        (Expected::PwrLevel, DaemonResponse::GetPwrLevel { pwr }) => Some(pwr),
        (Expected::CpuBoost, DaemonResponse::GetCPUBoost { cpu }) => Some(cpu),
        (Expected::GpuBoost, DaemonResponse::GetGPUBoost { gpu }) => Some(gpu),
        _ => None,
    }
}

/// The fan speed in an answer to `GetFanSpeed`.
pub fn get_fan_speed(response: DaemonResponse) -> (r: Option<i32>)
    ensures
        match response {
            DaemonResponse::GetFanSpeed { rpm } => r == Some(rpm),
            _ => r is None,
        },
{
    match response {
        DaemonResponse::GetFanSpeed { rpm } => Some(rpm),
        _ => None,
    }
}

/// The cooling pad state in an answer to `GetCoolingPadState`.
pub fn get_cooling_pad_state(response: DaemonResponse) -> (r: Option<(bool, i32, String, Vec<u8>)>)
    ensures
        match response {
            DaemonResponse::GetCoolingPadState { present, fan_rpm, effect, effect_params } =>
                r == Some((present, fan_rpm, effect, effect_params)),
            _ => r is None,
        },
{
    match response {
        DaemonResponse::GetCoolingPadState { present, fan_rpm, effect, effect_params } =>
            Some((present, fan_rpm, effect, effect_params)),
        _ => None,
    }
}

/// The outcome in an answer to a setting request: the answer must be the one
/// of the request sent.
pub fn set_result(request: &DaemonCommand, response: DaemonResponse) -> (r: Option<bool>)
    ensures
        match (*request, response) {
            (DaemonCommand::SetBatteryHealthOptimizer { .. }, DaemonResponse::SetBatteryHealthOptimizer { result }) => r == Some(result),
            (DaemonCommand::SetBrightness { .. }, DaemonResponse::SetBrightness { result }) => r == Some(result),
            (DaemonCommand::SetLogoLedState { .. }, DaemonResponse::SetLogoLedState { result }) => r == Some(result),
            (DaemonCommand::SetEffect { .. }, DaemonResponse::SetEffect { result }) => r == Some(result),
            (DaemonCommand::SetCoolingPadFanSpeed { .. }, DaemonResponse::SetCoolingPadFanSpeed { result }) => r == Some(result),
            (DaemonCommand::SetCoolingPadEffect { .. }, DaemonResponse::SetCoolingPadEffect { result }) => r == Some(result),
            (DaemonCommand::SetPowerMode { .. }, DaemonResponse::SetPowerMode { result }) => r == Some(result),
            (DaemonCommand::SetFanSpeed { .. }, DaemonResponse::SetFanSpeed { result }) => r == Some(result),
            _ => r is None,
        },
{
    match (request, response) {
        (DaemonCommand::SetBatteryHealthOptimizer { .. }, DaemonResponse::SetBatteryHealthOptimizer { result }) => Some(result),
        (DaemonCommand::SetBrightness { .. }, DaemonResponse::SetBrightness { result }) => Some(result),
        (DaemonCommand::SetLogoLedState { .. }, DaemonResponse::SetLogoLedState { result }) => Some(result),
        (DaemonCommand::SetEffect { .. }, DaemonResponse::SetEffect { result }) => Some(result),
        (DaemonCommand::SetCoolingPadFanSpeed { .. }, DaemonResponse::SetCoolingPadFanSpeed { result }) => Some(result),
        (DaemonCommand::SetCoolingPadEffect { .. }, DaemonResponse::SetCoolingPadEffect { result }) => Some(result),
        (DaemonCommand::SetPowerMode { .. }, DaemonResponse::SetPowerMode { result }) => Some(result),
        (DaemonCommand::SetFanSpeed { .. }, DaemonResponse::SetFanSpeed { result }) => Some(result),
        _ => None,
    }
}

} // verus!
