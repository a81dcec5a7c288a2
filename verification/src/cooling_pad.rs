use vstd::prelude::*;

use crate::packet::xor_range;

verus! {

pub const VENDOR_ID: u16 = 0x1532;
pub const PRODUCT_ID: u16 = 0x0F43;
pub const REPORT_LEN: usize = 91;
pub const REPORT_ID: u8 = 0x00;
pub const PACKET_LEN: usize = 90;
pub const TRANSACTION_ID: u8 = 0x1F;
pub const STATUS_NEW: u8 = 0x00;
pub const STATUS_BUSY: u8 = 0x01;
pub const STATUS_OK: u8 = 0x02;
pub const MIN_FAN_RPM: i32 = 500;
pub const MAX_FAN_RPM: i32 = 3200;
pub const FAN_RANGE: i32 = MAX_FAN_RPM - MIN_FAN_RPM;
pub const CMD_CLASS_FAN: u8 = 0x0D;
pub const CMD_CLASS_LED: u8 = 0x0F;
pub const CMD_ID_SET_FAN_SPEED: u8 = 0x01;
pub const CMD_ID_GET_FAN_SPEED: u8 = 0x81;
pub const CMD_ID_SET_EFFECT: u8 = 0x02;
pub const CMD_ID_SET_COLOR: u8 = 0x03;
pub const CMD_ID_SET_BRIGHTNESS: u8 = 0x04;
pub const LED_STORAGE_VARIABLE: u8 = 0x01;
pub const LED_ID_ALL: u8 = 0x00;
pub const LED_ID_BACKLIGHT: u8 = 0x05;
pub const EFFECT_OFF: u8 = 0x00;
pub const EFFECT_STATIC: u8 = 0x01;
pub const EFFECT_BREATHING: u8 = 0x02;
pub const EFFECT_WAVE: u8 = 0x03;
pub const EFFECT_SPECTRUM: u8 = 0x04;
pub const FAN_CLASS_ID: u8 = 0x01;
pub const FAN_THERMAL_ID: u8 = 0x05;
/// How many times a command is sent while the pad answers busy.
pub const MAX_ATTEMPTS: u32 = 3;

/// Why a command to the cooling pad failed.
#[derive(Clone, Copy, PartialEq, Eq, Structural, Debug)]
pub enum CommandError {
    /// The probe feature report had an unexpected length.
    FeatureReportLength(usize),
    /// A response had an unexpected length.
    ResponseLength(usize),
    /// A response was for another command.
    ResponseMismatch { expected_class: u8, expected_id: u8, class: u8, id: u8 },
    /// The pad answered with a status other than OK or busy.
    DeviceStatus { status: u8, class: u8, id: u8 },
    /// The pad was still busy after the last attempt.
    RemainedBusy { class: u8, id: u8 },
}

/// What to do after reading the response to a command.
pub enum CommandStep {
    /// The command succeeded; the response without its report id.
    Done(Vec<u8>),
    /// The pad is busy: wait, then send the command again.
    Retry,
    Failed(CommandError),
}

/// What follows while a list of pad commands is run in order.
#[derive(PartialEq, Eq, Structural, Debug)]
pub enum RunStep {
    /// Send the command at this position next.
    Send(usize),
    /// Running is over: whether every command succeeded.
    Done(bool),
}

/// What follows after the first `results.len()` commands of a list of
/// `count` commands (none when there is no list) were sent with these
/// outcomes: no list, or a failed command, ends the run with false; once
/// every command succeeded it ends with true; otherwise the next command is
/// sent.
pub open spec fn spec_run_step(count: Option<nat>, results: Seq<bool>) -> RunStep {
    match count {
        None => RunStep::Done(false),
        Some(n) => if results.contains(false) {
            RunStep::Done(false)
        } else if results.len() >= n {
            RunStep::Done(true)
        } else {
            RunStep::Send(results.len() as usize)
        },
    }
}

/// The number of commands in an optional list.
pub open spec fn command_count(commands: Option<Vec<PadCommand>>) -> Option<nat> {
    match commands {
        Some(c) => Some(c.len() as nat),
        None => None,
    }
}

/// Decides what follows while running `commands` (see `spec_run_step`),
/// given the outcomes of the commands sent so far.
pub fn run_step(commands: &Option<Vec<PadCommand>>, results: &Vec<bool>) -> (r: RunStep)
    ensures
        r == spec_run_step(command_count(*commands), results@),
{
    match commands {
        None => RunStep::Done(false),
        Some(cmds) => {
            let mut i: usize = 0;
            while i < results.len()
                invariant
                    i <= results.len(),
                    forall|j: int| 0 <= j < i ==> results@[j],
                decreases results.len() - i,
            {
                if !results[i] {
                    assert(results@[i as int] == false);
                    return RunStep::Done(false);
                }
                i = i + 1;
            }
            assert(!results@.contains(false)) by {
                assert forall|j: int| 0 <= j < results@.len() implies results@[j] != false by {
                    assert(results@[j]);
                }
            }
            if results.len() >= cmds.len() {
                RunStep::Done(true)
            } else {
                RunStep::Send(results.len())
            }
        },
    }
}

/// Something to send to the cooling pad.
pub enum PadCommand {
    /// A command, sent and checked through `command_report` and `check_response`.
    Command { command_class: u8, command_id: u8, args: Vec<u8> },
    /// A feature report sent as it is, without reading a response.
    Raw { report: Vec<u8> },
}

pub enum PadCommandView {
    Command { command_class: u8, command_id: u8, args: Seq<u8> },
    Raw { report: Seq<u8> },
}

impl View for PadCommand {
    type V = PadCommandView;

    open spec fn view(&self) -> PadCommandView {
        match self {
            PadCommand::Command { command_class, command_id, args } => PadCommandView::Command {
                command_class: *command_class,
                command_id: *command_id,
                args: args@,
            },
            PadCommand::Raw { report } => PadCommandView::Raw { report: report@ },
        }
    }
}

/// The views of a sequence of pad commands, in order.
pub open spec fn command_views(cmds: Seq<PadCommand>) -> Seq<PadCommandView> {
    cmds.map_values(|c: PadCommand| c@)
}

pub open spec fn command(command_class: u8, command_id: u8, args: Seq<u8>) -> PadCommandView {
    PadCommandView::Command { command_class, command_id, args }
}

/// Appends a command, keeping track of the views.
pub fn push_command(cmds: &mut Vec<PadCommand>, c: PadCommand)
    ensures
        command_views(final(cmds)@) == command_views(old(cmds)@).push(c@),
{
    cmds.push(c);
    assert(command_views(cmds@) =~= command_views(old(cmds)@).push(c@));
}

/// The 90-byte command packet: status new, transaction id, argument length
/// (at most 80), command class and id, the arguments from byte 8 on, and the
/// checksum of bytes 2..88 at byte 88.
pub open spec fn spec_command_packet(command_class: u8, command_id: u8, args: Seq<u8>) -> Seq<u8> {
    let n: int = if args.len() < 80 { args.len() as int } else { 80 };
    let body = seq![STATUS_NEW, TRANSACTION_ID, 0u8, 0u8, 0u8, n as u8, command_class, command_id]
        + args.subrange(0, n) + Seq::new((80 - n) as nat, |i: int| 0u8);
    body + seq![xor_range(body, 2, 88), 0u8]
}

/// The colour `params` starts with: red defaults to full, green and blue to 0.
pub open spec fn spec_extract_color(params: Seq<u8>) -> Seq<u8> {
    seq![
        if params.len() > 0 { params[0] } else { 0xFF },
        if params.len() > 1 { params[1] } else { 0x00 },
        if params.len() > 2 { params[2] } else { 0x00 },
    ]
}

/// The arguments of the set-effect command for an effect name, if the name
/// is known.
pub open spec fn spec_effect_args(name: Seq<char>, params: Seq<u8>) -> Option<Seq<u8>> {
    let c = spec_extract_color(params);
    if name == "off"@ {
        Some(seq![LED_STORAGE_VARIABLE, LED_ID_ALL, EFFECT_OFF, 0x00, 0x00, 0x00])
    } else if name == "static"@ {
        Some(seq![LED_STORAGE_VARIABLE, LED_ID_ALL, EFFECT_STATIC, 0x00, 0x00, 0x01] + c)
    } else if name == "breathing"@ {
        Some(seq![LED_STORAGE_VARIABLE, LED_ID_ALL, EFFECT_BREATHING, 0x00, 0x00, 0x01] + c)
    } else if name == "wave"@ {
        Some(seq![LED_STORAGE_VARIABLE, LED_ID_ALL, EFFECT_WAVE, 0x01, 0x01, 0x00])
    } else if name == "spectrum"@ {
        Some(seq![LED_STORAGE_VARIABLE, LED_ID_ALL, EFFECT_SPECTRUM, 0x00, 0x00, 0x00])
    } else {
        None
    }
}

pub open spec fn brightness_command(brightness: u8) -> PadCommandView {
    command(CMD_CLASS_LED, CMD_ID_SET_BRIGHTNESS, seq![LED_STORAGE_VARIABLE, LED_ID_BACKLIGHT, brightness])
}

pub open spec fn color_command(params: Seq<u8>) -> PadCommandView {
    command(CMD_CLASS_LED, CMD_ID_SET_COLOR, seq![LED_STORAGE_VARIABLE, LED_ID_BACKLIGHT] + spec_extract_color(params))
}

/// The commands that select an effect: full brightness first (except for
/// "off"), then the effect; none for an unknown name.
pub open spec fn effect_commands(name: Seq<char>, params: Seq<u8>) -> Option<Seq<PadCommandView>> {
    match spec_effect_args(name, params) {
        Some(args) => {
            let effect = command(CMD_CLASS_LED, CMD_ID_SET_EFFECT, args);
            if name != "off"@ {
                Some(seq![brightness_command(0xFF), effect])
            } else {
                Some(seq![effect])
            }
        },
        None => None,
    }
}

/// The fan speed percentage for a speed in RPM: the nearest whole
/// percentage of the fan's range, clamped to 0..=100.
pub open spec fn spec_rpm_to_percent(rpm: int) -> int {
    let x: int = rpm - MIN_FAN_RPM;
    let range: int = FAN_RANGE as int;
    if x <= 0 {
        0
    } else if x >= range {
        100
    } else {
        (x * 100 + range / 2) / range
    }
}

pub open spec fn spec_percent_to_rpm(percent: int) -> int {
    MIN_FAN_RPM + percent * (FAN_RANGE as int) / 100
}

/// The report that switches the fan to automatic control.
pub open spec fn spec_fan_auto_report() -> Seq<u8> {
    seq![REPORT_ID, 0x00u8, 0x02, 0x00, 0x00, 0x00, 0x03, 0x0D, 0x10, 0x01, 0x02]
        + Seq::new(78, |i: int| 0u8) + seq![0x18u8, 0x00]
}

/// The command that sets a fan speed in RPM: 0 means automatic, other speeds
/// are clamped to the fan's range and sent as a percentage.
pub open spec fn fan_rpm_command(rpm: i32) -> PadCommandView {
    if rpm == 0 {
        PadCommandView::Raw { report: spec_fan_auto_report() }
    } else {
        let r: int = if rpm < MIN_FAN_RPM { MIN_FAN_RPM as int } else if rpm > MAX_FAN_RPM { MAX_FAN_RPM as int } else { rpm as int };
        command(CMD_CLASS_FAN, CMD_ID_SET_FAN_SPEED, seq![FAN_CLASS_ID, FAN_THERMAL_ID, spec_rpm_to_percent(r) as u8])
    }
}

/// What follows from the response read back after the `attempt`-th sending
/// (counting from 0) of a command.
pub open spec fn spec_check_response(
    command_class: u8,
    command_id: u8,
    attempt: u32,
    size: usize,
    response: Seq<u8>,
) -> Result<Option<Seq<u8>>, CommandError> {
    if size != REPORT_LEN {
        Err(CommandError::ResponseLength(size))
    } else if response[7] != command_class || response[8] != command_id {
        Err(CommandError::ResponseMismatch {
            expected_class: command_class,
            expected_id: command_id,
            class: response[7],
            id: response[8],
        })
    } else if response[1] == STATUS_OK {
        Ok(Some(response.subrange(1, REPORT_LEN as int)))
    } else if response[1] != STATUS_BUSY {
        Err(CommandError::DeviceStatus { status: response[1], class: command_class, id: command_id })
    } else if attempt + 1 < MAX_ATTEMPTS {
        Ok(None)
    } else {
        Err(CommandError::RemainedBusy { class: command_class, id: command_id })
    }
}

/// A full-length response for the command with the given status.
pub open spec fn answer_with_status(command_class: u8, command_id: u8, answer: (usize, Seq<u8>), status: u8) -> bool {
    &&& answer.0 == REPORT_LEN
    &&& answer.1[1] == status
    &&& answer.1[7] == command_class
    &&& answer.1[8] == command_id
}

/// The outcome of a command when the pad gives the answers `answers` (the
/// length read and the response buffer) to its sendings from the `k`-th on:
/// the first answer that is not a retry decides; none while answers are
/// missing.
pub open spec fn command_run(
    command_class: u8,
    command_id: u8,
    answers: Seq<(usize, Seq<u8>)>,
    k: nat,
) -> Option<Result<Seq<u8>, CommandError>>
    decreases answers.len() - k,
{
    if k >= answers.len() {
        None
    } else {
        match spec_check_response(command_class, command_id, k as u32, answers[k as int].0, answers[k as int].1) {
            Ok(Some(payload)) => Some(Ok(payload)),
            Err(e) => Some(Err(e)),
            Ok(None) => command_run(command_class, command_id, answers, k + 1),
        }
    }
}

/// The cooling pad's fan speed carried by a response (without report id) to
/// the read-fan-speed command, if it holds one.
pub open spec fn spec_fan_rpm_from_response(response: Seq<u8>) -> Option<i32> {
    if response.len() <= 5 {
        None
    } else if response[5] < 3 {
        None
    } else if response.len() <= 10 {
        None
    } else {
        Some(spec_percent_to_rpm(response[10] as int) as i32)
    }
}

/// The cooling pad, known by its device path.
pub struct CoolingPad {
    pub path: Vec<u8>,
}

impl CoolingPad {
    /// Whether a HID device with these ids is the cooling pad.
    pub fn is_cooling_pad(vendor_id: u16, product_id: u16) -> (r: bool)
        ensures
            r == (vendor_id == VENDOR_ID && product_id == PRODUCT_ID),
    {
        vendor_id == VENDOR_ID && product_id == PRODUCT_ID
    }

    /// The feature report buffer used to probe the pad when opening it.
    pub fn probe_report() -> (r: Vec<u8>)
        ensures
            r@ == Seq::new(REPORT_LEN as nat, |i: int| 0u8),
    {
        let mut r: Vec<u8> = Vec::new();
        while r.len() < REPORT_LEN
            invariant
                r.len() <= REPORT_LEN,
                forall|i: int| 0 <= i < r.len() ==> r@[i] == 0u8,
            decreases REPORT_LEN - r.len(),
        {
            r.push(0u8);
        }
        r.set(0, REPORT_ID);
        assert(r@ =~= Seq::new(REPORT_LEN as nat, |i: int| 0u8));
        r
    }

    /// The pad at `path`, once its probe feature report has been read:
    /// accepted only when the report had the full length.
    pub fn open(path: Vec<u8>, probe_size: usize) -> (r: Result<CoolingPad, CommandError>)
        ensures
            probe_size == REPORT_LEN ==> r.is_ok() && r.unwrap().path@ == path@,
            probe_size != REPORT_LEN ==> r == Err::<CoolingPad, CommandError>(CommandError::FeatureReportLength(probe_size)),
    {
        if probe_size != REPORT_LEN {
            return Err(CommandError::FeatureReportLength(probe_size));
        }
        Ok(CoolingPad { path })
    }

    /// XOR of the packet bytes 2..88.
    pub fn calc_crc(packet: &Vec<u8>) -> (crc: u8)
        requires
            packet.len() == PACKET_LEN,
        ensures
            crc == xor_range(packet@, 2, 88),
    {
        let mut crc = 0u8;
        let mut i: usize = 2;
        while i < 88
            invariant
                2 <= i <= 88,
                packet.len() == PACKET_LEN,
                crc == xor_range(packet@, 2, i as int),
            decreases 88 - i,
        {
            crc ^= packet[i];
            i = i + 1;
        }
        crc
    }

    /// The 90-byte packet of a command (see `spec_command_packet`).
    pub fn command_packet(command_class: u8, command_id: u8, args: &Vec<u8>) -> (packet: Vec<u8>)
        ensures
            packet@ == spec_command_packet(command_class, command_id, args@),
    {
        let copy_len: usize = if args.len() < 80 { args.len() } else { 80 };
        let mut packet: Vec<u8> = Vec::new();
        packet.push(STATUS_NEW);
        packet.push(TRANSACTION_ID);
        packet.push(0);
        packet.push(0);
        packet.push(0);
        packet.push(copy_len as u8);
        packet.push(command_class);
        packet.push(command_id);
        let ghost head = packet@;
        assert(head =~= seq![STATUS_NEW, TRANSACTION_ID, 0u8, 0u8, 0u8, copy_len as u8, command_class, command_id]);
        let mut i: usize = 0;
        while i < copy_len
            invariant
                i <= copy_len <= 80,
                copy_len <= args.len(),
                head.len() == 8,
                packet@ == head + args@.subrange(0, i as int),
            decreases copy_len - i,
        {
            packet.push(args[i]);
            i = i + 1;
            assert(packet@ =~= head + args@.subrange(0, i as int));
        }
        while packet.len() < 88
            invariant
                8 + copy_len <= packet.len() <= 88,
                packet@.subrange(0, 8 + copy_len as int) == head + args@.subrange(0, copy_len as int),
                forall|j: int| 8 + copy_len <= j < packet.len() ==> packet@[j] == 0u8,
            decreases 88 - packet.len(),
        {
            packet.push(0);
        }
        let ghost body = packet@;
        assert(body.subrange(0, 8 + copy_len as int) == head + args@.subrange(0, copy_len as int));
        assert forall|j: int| 0 <= j < 88 implies body[j] == (head + args@.subrange(0, copy_len as int)
            + Seq::new((80 - copy_len) as nat, |i: int| 0u8))[j] by {
            if j < 8 + copy_len {
                assert(body[j] == body.subrange(0, 8 + copy_len as int)[j]);
            }
        }
        assert(body =~= seq![STATUS_NEW, TRANSACTION_ID, 0u8, 0u8, 0u8, copy_len as u8, command_class, command_id]
            + args@.subrange(0, copy_len as int) + Seq::new((80 - copy_len) as nat, |i: int| 0u8));
        packet.push(0);
        packet.push(0);
        proof {
            lemma_xor_range_prefix(body, packet@, 2, 88);
        }
        let crc = Self::calc_crc(&packet);
        packet.set(88, crc);
        assert(packet@ =~= body + seq![xor_range(body, 2, 88), 0u8]);
        packet
    }

    /// The 91-byte feature report that carries a command: the report id,
    /// then the command packet.
    pub fn command_report(command_class: u8, command_id: u8, args: &Vec<u8>) -> (report: Vec<u8>)
        ensures
            report@ == seq![REPORT_ID] + spec_command_packet(command_class, command_id, args@),
    {
        let packet = Self::command_packet(command_class, command_id, args);
        let mut report: Vec<u8> = Vec::new();
        report.push(REPORT_ID);
        let mut i: usize = 0;
        while i < packet.len()
            invariant
                i <= packet.len(),
                report@ == seq![REPORT_ID] + packet@.subrange(0, i as int),
            decreases packet.len() - i,
        {
            report.push(packet[i]);
            i = i + 1;
            assert(report@ =~= seq![REPORT_ID] + packet@.subrange(0, i as int));
        }
        assert(packet@.subrange(0, packet.len() as int) =~= packet@);
        report
    }

    /// Decides what follows the `attempt`-th sending (from 0) of a command,
    /// given the response buffer and the length the read reported: success
    /// with the response (without report id) when the pad answered OK for
    /// this command, another attempt while busy, or the error.
    pub fn check_response(
        command_class: u8,
        command_id: u8,
        attempt: u32,
        size: usize,
        response: &Vec<u8>,
    ) -> (r: CommandStep)
        requires
            response.len() == REPORT_LEN,
        ensures
            match spec_check_response(command_class, command_id, attempt, size, response@) {
                Ok(Some(payload)) => r matches CommandStep::Done(v) && v@ == payload,
                Ok(None) => r is Retry,
                Err(e) => r == CommandStep::Failed(e),
            },
    {
        if size != REPORT_LEN {
            return CommandStep::Failed(CommandError::ResponseLength(size));
        }
        let status = response[1];
        let response_class = response[7];
        let response_id = response[8];
        if response_class != command_class || response_id != command_id {
            return CommandStep::Failed(
                CommandError::ResponseMismatch {
                    expected_class: command_class,
                    expected_id: command_id,
                    class: response_class,
                    id: response_id,
                },
            );
        }
        if status == STATUS_OK {
            let mut payload: Vec<u8> = Vec::new();
            let mut i: usize = 1;
            while i < response.len()
                invariant
                    1 <= i <= response.len(),
                    payload@ == response@.subrange(1, i as int),
                decreases response.len() - i,
            {
                payload.push(response[i]);
                i = i + 1;
                assert(payload@ =~= response@.subrange(1, i as int));
            }
            return CommandStep::Done(payload);
        }
        if status != STATUS_BUSY {
            return CommandStep::Failed(CommandError::DeviceStatus { status, class: command_class, id: command_id });
        }
        if attempt < MAX_ATTEMPTS - 1 {
            CommandStep::Retry
        } else {
            CommandStep::Failed(CommandError::RemainedBusy { class: command_class, id: command_id })
        }
    }

    /// The fan speed percentage for a speed in RPM (see `spec_rpm_to_percent`).
    pub fn rpm_to_percent(rpm: i32) -> (percent: u8)
        ensures
            percent == spec_rpm_to_percent(rpm as int),
            percent <= 100,
            MIN_FAN_RPM <= rpm <= MAX_FAN_RPM ==> percent * FAN_RANGE <= (rpm - MIN_FAN_RPM) * 100
                + FAN_RANGE / 2 < (percent + 1) * FAN_RANGE,
    {
        let x: i64 = rpm as i64 - MIN_FAN_RPM as i64;
        if x <= 0 {
            0
        } else if x >= FAN_RANGE as i64 {
            100
        } else {
            let p: i64 = (x * 100 + (FAN_RANGE / 2) as i64) / FAN_RANGE as i64;
            assert(0 <= p <= 100) by (nonlinear_arith)
                requires
                    0 < x < 2700,
                    p == (x * 100 + 1350) / 2700,
            ;
            assert(p * 2700 <= x * 100 + 1350 < (p + 1) * 2700) by (nonlinear_arith)
                requires
                    0 < x < 2700,
                    p == (x * 100 + 1350) / 2700,
            ;
            p as u8
        }
    }

    pub fn percent_to_rpm(percent: u8) -> (rpm: i32)
        ensures
            rpm == spec_percent_to_rpm(percent as int),
            rpm == MIN_FAN_RPM + 27 * percent,
    {
        assert(percent as int * 2700 / 100 == 27 * percent) by (nonlinear_arith);
        MIN_FAN_RPM + (percent as i32 * FAN_RANGE / 100)
    }

    /// The command that sets the fan speed (0: automatic).
    pub fn set_fan_rpm(rpm: i32) -> (c: PadCommand)
        ensures
            c@ == fan_rpm_command(rpm),
    {
        if rpm == 0 {
            return Self::send_fan_auto();
        }
        let rpm = if rpm < MIN_FAN_RPM { MIN_FAN_RPM } else if rpm > MAX_FAN_RPM { MAX_FAN_RPM } else { rpm };
        let percent = Self::rpm_to_percent(rpm);
        let args: Vec<u8> = vec![FAN_CLASS_ID, FAN_THERMAL_ID, percent];
        assert(args@ == seq![FAN_CLASS_ID, FAN_THERMAL_ID, percent]);
        PadCommand::Command { command_class: CMD_CLASS_FAN, command_id: CMD_ID_SET_FAN_SPEED, args }
    }

    /// The command that reads the fan speed; its response is decoded by
    /// `get_fan_rpm`.
    pub fn fan_rpm_request() -> (c: PadCommand)
        ensures
            c@ == command(CMD_CLASS_FAN, CMD_ID_GET_FAN_SPEED, seq![FAN_CLASS_ID, FAN_THERMAL_ID, 0x00]),
    {
        let args: Vec<u8> = vec![FAN_CLASS_ID, FAN_THERMAL_ID, 0x00];
        assert(args@ == seq![FAN_CLASS_ID, FAN_THERMAL_ID, 0x00u8]);
        PadCommand::Command { command_class: CMD_CLASS_FAN, command_id: CMD_ID_GET_FAN_SPEED, args }
    }

    /// The fan speed in RPM read from the response (without report id) to the
    /// read-fan-speed command: the percentage sits after the 8-byte header,
    /// at payload offset 2, and needs a data size of at least 3.
    pub fn get_fan_rpm(response: &Vec<u8>) -> (r: Option<i32>)
        ensures
            r == spec_fan_rpm_from_response(response@),
    {
        let packet_header_len: usize = 8;
        let fan_percent_payload_offset: usize = 2;
        if response.len() <= 5 {
            return None;
        }
        let data_size = response[5] as usize;
        if data_size < fan_percent_payload_offset + 1 {
            return None;
        }
        let percent_index = packet_header_len + fan_percent_payload_offset;
        if response.len() <= percent_index {
            return None;
        }
        Some(Self::percent_to_rpm(response[percent_index]))
    }

    /// The raw report that turns the fan to automatic control.
    pub fn send_fan_auto() -> (c: PadCommand)
        ensures
            c@ == (PadCommandView::Raw { report: spec_fan_auto_report() }),
    {
        let mut buf: Vec<u8> = vec![REPORT_ID, 0x00, 0x02, 0x00, 0x00, 0x00, 0x03, 0x0D, 0x10, 0x01, 0x02];
        let ghost head = buf@;
        while buf.len() < 89
            invariant
                11 <= buf.len() <= 89,
                buf@.subrange(0, 11) == head,
                forall|j: int| 11 <= j < buf.len() ==> buf@[j] == 0u8,
            decreases 89 - buf.len(),
        {
            buf.push(0x00);
        }
        buf.push(0x18);
        buf.push(0x00);
        assert(buf@ =~= spec_fan_auto_report());
        PadCommand::Raw { report: buf }
    }

    pub fn set_brightness(brightness: u8) -> (c: PadCommand)
        ensures
            c@ == brightness_command(brightness),
    {
        let args: Vec<u8> = vec![LED_STORAGE_VARIABLE, LED_ID_BACKLIGHT, brightness];
        assert(args@ == seq![LED_STORAGE_VARIABLE, LED_ID_BACKLIGHT, brightness]);
        PadCommand::Command { command_class: CMD_CLASS_LED, command_id: CMD_ID_SET_BRIGHTNESS, args }
    }

    /// The commands that select a named effect ("off", "static",
    /// "breathing", "wave", "spectrum"); none for any other name, which
    /// fails at once.
    pub fn set_effect(name: &str, params: &Vec<u8>) -> (r: Option<Vec<PadCommand>>)
        ensures
            match effect_commands(name@, params@) {
                Some(cmds) => r is Some && command_views(r.unwrap()@) == cmds,
                None => r is None,
            },
    {
        let name = name.to_owned();
        let c = Self::extract_color(params);
        let args: Vec<u8> = if name == "off".to_owned() {
            vec![LED_STORAGE_VARIABLE, LED_ID_ALL, EFFECT_OFF, 0x00, 0x00, 0x00]
        } else if name == "static".to_owned() {
            vec![LED_STORAGE_VARIABLE, LED_ID_ALL, EFFECT_STATIC, 0x00, 0x00, 0x01, c[0], c[1], c[2]]
        } else if name == "breathing".to_owned() {
            vec![LED_STORAGE_VARIABLE, LED_ID_ALL, EFFECT_BREATHING, 0x00, 0x00, 0x01, c[0], c[1], c[2]]
        } else if name == "wave".to_owned() {
            vec![LED_STORAGE_VARIABLE, LED_ID_ALL, EFFECT_WAVE, 0x01, 0x01, 0x00]
        } else if name == "spectrum".to_owned() {
            vec![LED_STORAGE_VARIABLE, LED_ID_ALL, EFFECT_SPECTRUM, 0x00, 0x00, 0x00]
        } else {
            return None;
        };
        assert(spec_effect_args(name@, params@) == Some(args@)) by {
            assert(c@ == spec_extract_color(params@));
            if name@ == "off"@ {
                assert(args@ =~= seq![LED_STORAGE_VARIABLE, LED_ID_ALL, EFFECT_OFF, 0x00u8, 0x00u8, 0x00u8]);
            } else if name@ == "static"@ {
                assert(args@ =~= seq![LED_STORAGE_VARIABLE, LED_ID_ALL, EFFECT_STATIC, 0x00u8, 0x00u8, 0x01u8] + c@);
            } else if name@ == "breathing"@ {
                assert(args@ =~= seq![LED_STORAGE_VARIABLE, LED_ID_ALL, EFFECT_BREATHING, 0x00u8, 0x00u8, 0x01u8] + c@);
            } else if name@ == "wave"@ {
                assert(args@ =~= seq![LED_STORAGE_VARIABLE, LED_ID_ALL, EFFECT_WAVE, 0x01u8, 0x01u8, 0x00u8]);
            } else {
                assert(args@ =~= seq![LED_STORAGE_VARIABLE, LED_ID_ALL, EFFECT_SPECTRUM, 0x00u8, 0x00u8, 0x00u8]);
            }
        }
        let mut cmds: Vec<PadCommand> = Vec::new();
        if name != "off".to_owned() {
            push_command(&mut cmds, Self::set_brightness(0xFF));
        }
        let ghost argv = args@;
        push_command(&mut cmds, PadCommand::Command { command_class: CMD_CLASS_LED, command_id: CMD_ID_SET_EFFECT, args });
        proof {
            let effect = command(CMD_CLASS_LED, CMD_ID_SET_EFFECT, argv);
            if name@ != "off"@ {
                assert(command_views(cmds@) =~= seq![brightness_command(0xFF), effect]);
            } else {
                assert(command_views(cmds@) =~= seq![effect]);
            }
        }
        Some(cmds)
    }

    pub fn set_color(params: &Vec<u8>) -> (c: PadCommand)
        ensures
            c@ == color_command(params@),
    {
        let rgb = Self::extract_color(params);
        let args: Vec<u8> = vec![LED_STORAGE_VARIABLE, LED_ID_BACKLIGHT, rgb[0], rgb[1], rgb[2]];
        assert(args@ =~= seq![LED_STORAGE_VARIABLE, LED_ID_BACKLIGHT] + spec_extract_color(params@));
        PadCommand::Command { command_class: CMD_CLASS_LED, command_id: CMD_ID_SET_COLOR, args }
    }

    /// The colour at the start of `params`: red defaults to 0xFF, green and
    /// blue to 0.
    pub fn extract_color(params: &Vec<u8>) -> (rgb: [u8; 3])
        ensures
            rgb@ == spec_extract_color(params@),
    {
        let r = if params.len() > 0 { params[0] } else { 0xFF };
        let g = if params.len() > 1 { params[1] } else { 0x00 };
        let b = if params.len() > 2 { params[2] } else { 0x00 };
        let rgb = [r, g, b];
        assert(rgb@ =~= spec_extract_color(params@));
        rgb
    }
}

/// The checksum of a range only depends on the bytes inside it.
pub proof fn lemma_xor_range_prefix(a: Seq<u8>, b: Seq<u8>, lo: int, hi: int)
    requires
        0 <= lo,
        hi <= a.len(),
        hi <= b.len(),
        forall|i: int| lo <= i < hi ==> a[i] == b[i],
    ensures
        xor_range(a, lo, hi) == xor_range(b, lo, hi),
    decreases hi - lo,
{
    if hi > lo {
        lemma_xor_range_prefix(a, b, lo, hi - 1);
    }
}

/// A speed given as a whole percentage comes back as the same percentage.
pub proof fn lemma_percent_rpm_roundtrip(percent: int)
    requires
        0 <= percent <= 100,
    ensures
        spec_rpm_to_percent(spec_percent_to_rpm(percent)) == percent,
{
    assert(percent * 2700 / 100 == 27 * percent) by (nonlinear_arith);
    if 0 < percent < 100 {
        assert((27 * percent * 100 + 1350) / 2700 == percent) by (nonlinear_arith)
            requires 0 < percent < 100;
    }
}

} // verus!
