use vstd::prelude::*;

use crate::config::{other_source, ConfigurationView, PowerConfig};
use crate::cooling_pad::{
    answer_with_status, brightness_command, color_command, command_run, spec_check_response, spec_run_step, RunStep, CommandError, MAX_ATTEMPTS, REPORT_LEN, STATUS_BUSY, STATUS_OK,
};
use crate::laptop::{after_ac_state, after_fan_rpm, after_power_mode, brightness_request, fan_rpm_reports, LaptopView};
use crate::manager::{
    after_light_off, after_logo_led_state, after_pad_effect, pad_effect_commands, stored_logo_state, after_pad_fan_rpm, after_restore_light, update_source, idle_timeout_ms, opt_update, pad_state, percent_to_raw, raw_to_percent, read_query, synced_config,
    update_synced, ManagerView, QueryView,
};

verus! {

/// A brightness percentage stored as a raw value reads back as the same
/// percentage, for every percentage from 0 to 100.
pub proof fn law_brightness_percent_roundtrip(b: u8)
    requires
        b <= 100,
    ensures
        raw_to_percent(percent_to_raw(b)) == b,
{
    let raw: u8 = (b as u16 * 255 / 100) as u8;
    assert(b <= 100 ==> (b as u16 * 255 / 100) < 256) by (bit_vector);
    assert(raw == percent_to_raw(b));
    assert(b <= 100 ==> (((b as u16 * 255 / 100) as u8) as u32 * 10000 / 255 + 50) / 100 == b as u32) by (bit_vector);
    assert((raw as u32 * 10000 / 255 + 50) / 100 == b as u32);
}

/// With the sources in sync, a setting made for one power source reaches
/// both of them.
pub proof fn law_synced_setting_reaches_both(c: ConfigurationView, ac: int, f: spec_fn(PowerConfig) -> PowerConfig)
    requires
        c.wf(),
        c.sync,
        0 <= ac < 2,
    ensures
        update_synced(c, ac, f).power == seq![f(c.power[0]), f(c.power[1])],
{
    assert(update_synced(c, ac, f).power =~= seq![f(c.power[0]), f(c.power[1])]);
}

/// Without sync, a setting made for one power source leaves the other alone.
pub proof fn law_unsynced_setting_stays(c: ConfigurationView, ac: int, f: spec_fn(PowerConfig) -> PowerConfig)
    requires
        c.wf(),
        !c.sync,
        0 <= ac < 2,
    ensures
        update_synced(c, ac, f).power[ac] == f(c.power[ac]),
        update_synced(c, ac, f).power[other_source(ac)] == c.power[other_source(ac)],
{
}

/// Turning sync on or off records the flag and leaves both power sources
/// with the same lighting and idle settings.
pub proof fn law_set_sync_aligns_sources(c: ConfigurationView, ac: int, sync: bool)
    requires
        c.wf(),
        0 <= ac < 2,
    ensures
        ({
            let d = synced_config(c, ac, sync);
            &&& d.wf()
            &&& d.sync == sync
            &&& d.power[0].brightness == d.power[1].brightness
            &&& d.power[0].logo_state == d.power[1].logo_state
            &&& d.power[0].screensaver == d.power[1].screensaver
            &&& d.power[0].idle == d.power[1].idle
            &&& d.power[ac] == c.power[ac]
        }),
{
}

/// The manager after storing a brightness percentage for source `ac`.
pub open spec fn after_set_brightness(v: ManagerView, ac: int, b: u8) -> ManagerView {
    ManagerView {
        config: opt_update(v.config, |c: ConfigurationView| update_synced(c, ac, |p: PowerConfig| PowerConfig { brightness: percent_to_raw(b), ..p })),
        ..v
    }
}

/// Reading the brightness of a source the laptop does not run on gives back
/// the percentage just stored, for percentages up to 100.
pub proof fn law_brightness_read_after_write(v: ManagerView, ac: int, b: u8)
    requires
        v.wf(),
        v.config is Some,
        0 <= ac < 2,
        !v.on_source(ac),
        b <= 100,
    ensures
        read_query(after_set_brightness(v, ac, b), ac, brightness_request(), |p: PowerConfig| raw_to_percent(p.brightness))
            == QueryView::Known(b),
{
    law_brightness_percent_roundtrip(b);
    let w = after_set_brightness(v, ac, b);
    assert(w.config.unwrap().power[ac].brightness == percent_to_raw(b));
}

/// The logo LED state stored for a source by `set_logo_led_state` is the one
/// `get_logo_led_state` reads back; the other source gets it too when the
/// sources are in sync, and keeps its own otherwise.
pub proof fn law_logo_read_after_write(v: ManagerView, ac: int, logo_state: u8)
    requires
        v.wf(),
        v.config is Some,
        0 <= ac < 2,
    ensures
        ({
            let w = after_logo_led_state(v, ac, logo_state);
            let other = other_source(ac);
            &&& w.wf()
            &&& stored_logo_state(w, ac) == logo_state
            &&& stored_logo_state(w, other) == (if v.config.unwrap().sync { logo_state } else { stored_logo_state(v, other) })
        }),
{
}

/// The power mode and boosts stored for a source are read back from the
/// configuration when the laptop does not run on that source.
pub proof fn law_power_mode_read_after_write(v: ManagerView, ac: int, pwr: u8, cpu: u8, gpu: u8)
    requires
        v.wf(),
        v.config is Some,
        0 <= ac < 2,
        !v.on_source(ac),
    ensures
        ({
            let f = |p: PowerConfig| PowerConfig { power_mode: pwr, cpu_boost: cpu, gpu_boost: gpu, ..p };
            let w = ManagerView {
                config: opt_update(v.config, |c: ConfigurationView| update_source(c, ac, f)),
                ..v
            };
            &&& read_query(w, ac, crate::laptop::get_power_mode_report(0x01), |p: PowerConfig| p.power_mode) == QueryView::Known(pwr)
            &&& read_query(w, ac, crate::laptop::cpu_boost_request(), |p: PowerConfig| p.cpu_boost) == QueryView::Known(cpu)
            &&& read_query(w, ac, crate::laptop::gpu_boost_request(), |p: PowerConfig| p.gpu_boost) == QueryView::Known(gpu)
        }),
{
}

/// After the idle timeout of the current power source changes, the next
/// idle-watch decision adds a watch with the new timeout (in milliseconds),
/// or none when the timeout is 0.
pub proof fn law_idle_change_rearms_watch(v: ManagerView, timeout: u32)
    requires
        v.wf(),
        v.config is Some,
        0 <= v.source() < 2,
    ensures
        ({
            let w = ManagerView {
                config: opt_update(v.config, |c: ConfigurationView| update_synced(c, v.source(),
                    |p: PowerConfig| PowerConfig { idle: timeout, ..p })),
                ..v
            };
            idle_timeout_ms(w) == timeout as int * 60000
        }),
{
}

/// In custom power mode (4) fan speed requests are ignored: nothing changes
/// and nothing is sent.
pub proof fn law_custom_mode_ignores_fan(v: LaptopView, value: u16)
    requires
        v.power == 4,
    ensures
        after_fan_rpm(v, value) == v,
        fan_rpm_reports(v, value) == Seq::<crate::packet::PacketView>::empty(),
{
}

/// Selecting custom power mode hands the fan back to automatic control.
pub proof fn law_custom_mode_resets_fan(v: LaptopView)
    ensures
        after_power_mode(v, 4).fan_rpm == 0,
        after_power_mode(v, 4).power == 4,
{
}

/// Outside custom mode, the fan speed read back after a request is 0 for
/// automatic, and otherwise the requested speed clamped to the laptop's
/// range, in whole hundreds of RPM.
pub proof fn law_fan_read_after_write(v: LaptopView, value: u16)
    requires
        v.power != 4,
        v.fan.len() >= 2,
        v.fan[0] <= v.fan[1],
        v.fan[1] < 25600,
    ensures
        value == 0 ==> after_fan_rpm(v, value).fan_rpm == 0,
        value != 0 ==> v.fan[0] / 100 <= after_fan_rpm(v, value).fan_rpm <= v.fan[1] / 100,
        value != 0 && v.fan[0] <= value <= v.fan[1] ==> after_fan_rpm(v, value).fan_rpm == value / 100,
{
    if value != 0 {
        assert(v.fan[0] / 100 <= v.fan[1] / 100 < 256);
        if value > v.fan[1] {
        } else if value < v.fan[0] {
        } else {
            assert(value / 100 <= v.fan[1] / 100);
            assert(v.fan[0] / 100 <= value / 100);
        }
    }
}

/// A command succeeds only on a full-length response for the same command
/// with the OK status, and the pad is asked at most `MAX_ATTEMPTS` times.
pub proof fn law_command_response_checked(command_class: u8, command_id: u8, attempt: u32, size: usize, response: Seq<u8>)
    requires
        response.len() == REPORT_LEN,
    ensures
        spec_check_response(command_class, command_id, attempt, size, response) matches Ok(Some(payload)) ==> {
            &&& size == REPORT_LEN
            &&& response[1] == STATUS_OK
            &&& response[7] == command_class
            &&& response[8] == command_id
            &&& payload == response.subrange(1, REPORT_LEN as int)
        },
        attempt + 1 >= MAX_ATTEMPTS ==> !(spec_check_response(command_class, command_id, attempt, size, response) matches Ok(None)),
{
}

/// A command sent until the pad stops answering busy is decided by its
/// first `MAX_ATTEMPTS` answers; it succeeds exactly when one of them is
/// the OK answer for the command after busy answers for it only, and gives
/// that answer; after `MAX_ATTEMPTS` busy answers it fails as busy.
pub proof fn law_command_retries(command_class: u8, command_id: u8, answers: Seq<(usize, Seq<u8>)>)
    requires
        forall|j: int| 0 <= j < answers.len() ==> (#[trigger] answers[j]).1.len() == REPORT_LEN,
    ensures
        answers.len() >= MAX_ATTEMPTS ==> command_run(command_class, command_id, answers, 0) is Some,
        forall|k: int|
            0 <= k < MAX_ATTEMPTS && k < answers.len()
                && answer_with_status(command_class, command_id, #[trigger] answers[k], STATUS_OK)
                && (forall|j: int| 0 <= j < k ==> answer_with_status(command_class, command_id, answers[j], STATUS_BUSY))
            ==> command_run(command_class, command_id, answers, 0)
                == Some(Ok::<Seq<u8>, CommandError>(answers[k].1.subrange(1, REPORT_LEN as int))),
        (command_run(command_class, command_id, answers, 0) matches Some(Ok(_))) ==> exists|k: int|
            0 <= k < MAX_ATTEMPTS && k < answers.len()
                && answer_with_status(command_class, command_id, #[trigger] answers[k], STATUS_OK)
                && (forall|j: int| 0 <= j < k ==> answer_with_status(command_class, command_id, answers[j], STATUS_BUSY)),
        answers.len() >= MAX_ATTEMPTS
            && (forall|j: int| 0 <= j < MAX_ATTEMPTS ==> answer_with_status(command_class, command_id, #[trigger] answers[j], STATUS_BUSY))
            ==> command_run(command_class, command_id, answers, 0)
                == Some(Err::<Seq<u8>, CommandError>(CommandError::RemainedBusy { class: command_class, id: command_id })),
{
    reveal_with_fuel(command_run, 4);
    let busy = |j: int| answer_with_status(command_class, command_id, answers[j], STATUS_BUSY);
    assert forall|k: int|
        0 <= k < MAX_ATTEMPTS && k < answers.len()
            && answer_with_status(command_class, command_id, #[trigger] answers[k], STATUS_OK)
            && (forall|j: int| 0 <= j < k ==> answer_with_status(command_class, command_id, answers[j], STATUS_BUSY))
        implies command_run(command_class, command_id, answers, 0)
            == Some(Ok::<Seq<u8>, CommandError>(answers[k].1.subrange(1, REPORT_LEN as int))) by {
        if k >= 1 {
            assert(busy(0));
        }
        if k >= 2 {
            assert(busy(1));
        }
    }
    if command_run(command_class, command_id, answers, 0) matches Some(Ok(_)) {
        if answer_with_status(command_class, command_id, answers[0], STATUS_OK) {
            assert(0 < answers.len());
        } else if answer_with_status(command_class, command_id, answers[1], STATUS_OK) {
            assert(busy(0));
        } else {
            assert(busy(0));
            assert(busy(1));
            assert(answer_with_status(command_class, command_id, answers[2], STATUS_OK));
        }
    }
    if answers.len() >= MAX_ATTEMPTS
        && (forall|j: int| 0 <= j < MAX_ATTEMPTS ==> answer_with_status(command_class, command_id, #[trigger] answers[j], STATUS_BUSY)) {
        assert(busy(0));
        assert(busy(1));
        assert(busy(2));
    }
}

/// Running a list of `n` pad commands step by step, from `k` commands sent,
/// when the commands succeed or fail as `outcomes` says: how many commands
/// were sent in the end, and the answer.
pub open spec fn run_from(n: nat, outcomes: Seq<bool>, k: nat) -> (nat, bool)
    decreases n - k,
{
    match spec_run_step(Some(n), outcomes.take(k as int)) {
        RunStep::Send(_) => if k < n { run_from(n, outcomes, k + 1) } else { (k, false) },
        RunStep::Done(b) => (k, b),
    }
}

proof fn lemma_run_from(n: nat, outcomes: Seq<bool>, k: nat)
    requires
        k <= n <= outcomes.len(),
        forall|j: int| 0 <= j < k ==> outcomes[j],
    ensures
        (forall|i: int| k <= i < n ==> outcomes[i]) ==> run_from(n, outcomes, k) == (n, true),
        forall|i: int|
            k <= i < n && !outcomes[i] && (forall|j: int| k <= j < i ==> outcomes[j])
                ==> run_from(n, outcomes, k) == ((i + 1) as nat, false),
    decreases n - k,
{
    let done = outcomes.take(k as int);
    assert(!done.contains(false)) by {
        assert forall|j: int| 0 <= j < done.len() implies done[j] != false by {
            assert(outcomes[j]);
        }
    }
    if k < n {
        if outcomes[k as int] {
            lemma_run_from(n, outcomes, k + 1);
        } else {
            let next = outcomes.take((k + 1) as int);
            assert(next[k as int] == false);
            assert(next.contains(false));
            assert(run_from(n, outcomes, k + 1) == (k + 1, false));
        }
    }
}

/// A list of pad commands is run in order and stops at the first command
/// that fails, answering false; the answer is true only when every command
/// was sent and succeeded; no list answers false without sending anything.
pub proof fn law_pad_run_stops_at_first_failure(n: nat, outcomes: Seq<bool>)
    requires
        n <= outcomes.len(),
    ensures
        spec_run_step(None, Seq::empty()) == RunStep::Done(false),
        (forall|i: int| 0 <= i < n ==> outcomes[i]) ==> run_from(n, outcomes, 0) == (n, true),
        forall|i: int|
            0 <= i < n && !outcomes[i] && (forall|j: int| 0 <= j < i ==> outcomes[j])
                ==> run_from(n, outcomes, 0) == ((i + 1) as nat, false),
{
    lemma_run_from(n, outcomes, 0);
}

/// Applying a pad effect sends its first command (the colour for "static",
/// otherwise full brightness, for every effect but "off") before the
/// effect; when that first command fails, nothing more is sent and the
/// answer is false.
pub proof fn law_pad_effect_first_failure_stops(effect: Seq<char>, params: Seq<u8>, outcomes: Seq<bool>)
    requires
        pad_effect_commands(effect, params) is Some,
        effect != "off"@,
        pad_effect_commands(effect, params).unwrap().len() <= outcomes.len(),
        !outcomes[0],
    ensures
        ({
            let cmds = pad_effect_commands(effect, params).unwrap();
            &&& cmds.len() >= 2
            &&& cmds[0] == (if effect == "static"@ { color_command(params) } else { brightness_command(0xFF) })
            &&& run_from(cmds.len(), outcomes, 0) == (1nat, false)
        }),
{
    let cmds = pad_effect_commands(effect, params).unwrap();
    lemma_run_from(cmds.len(), outcomes, 0);
}

/// The cooling pad settings stored by its setters are the ones its state
/// reports: a fan speed (negative ones as 0), and an effect with its
/// parameters; the other pad settings stay.
pub proof fn law_pad_settings_read_after_write(v: ManagerView, rpm: i32, effect: Seq<char>, params: Seq<u8>)
    requires
        v.config is Some,
    ensures
        pad_state(after_pad_fan_rpm(v, rpm)).1 == (if rpm < 0 { 0i32 } else { rpm }),
        pad_state(after_pad_fan_rpm(v, rpm)).2 == pad_state(v).2,
        pad_state(after_pad_effect(v, effect, params)).2 == effect,
        pad_state(after_pad_effect(v, effect, params)).3 == params,
        pad_state(after_pad_effect(v, effect, params)).1 == pad_state(v).1,
{
}

/// The fan speed stored for a power source is the one read back, whatever
/// the laptop does (the configuration comes first).
pub proof fn law_fan_rpm_read_after_write(c: ConfigurationView, ac: int, rpm: i32)
    requires
        c.wf(),
        0 <= ac < 2,
    ensures
        update_source(c, ac, |p: PowerConfig| PowerConfig { fan_rpm: rpm, ..p }).power[ac].fan_rpm == rpm,
{
}

/// Light control and sync read back (through `get_light_control` and
/// `get_sync`) as they were set, when there is a configuration.
pub proof fn law_flags_read_after_write(v: ManagerView, enabled: bool, sync: bool)
    requires
        v.wf(),
        v.config is Some,
    ensures
        ({
            let w = ManagerView {
                config: opt_update(v.config, |c: ConfigurationView| ConfigurationView { enable_light_control: enabled, ..c }),
                ..v
            };
            (w.config matches Some(c) && c.enable_light_control) == enabled
        }),
        ({
            let w = ManagerView {
                config: opt_update(v.config, |c: ConfigurationView| synced_config(c, v.source(), sync)),
                ..v
            };
            (w.config matches Some(c) && c.sync) == sync
        }),
{
}

/// The power source read back from the laptop (`get_ac_state`) is the one
/// `set_ac_state` last recorded, and recording it changes nothing else.
pub proof fn law_ac_state_read_after_write(v: LaptopView, online: bool)
    ensures
        after_ac_state(v, online).ac_state == (if online { 1usize } else { 0usize }),
        after_ac_state(after_ac_state(v, !online), online) == after_ac_state(v, online),
        (LaptopView { ac_state: v.ac_state, ..after_ac_state(v, online) }) == v,
{
}

/// A report read back from its own feature report, marked as answered,
/// is the report that was sent.
pub proof fn law_feature_report_roundtrip(p: crate::packet::PacketView)
    requires
        p.args.len() == crate::packet::ARGS_LEN,
    ensures
        crate::packet::spec_from_feature_report(
            crate::packet::spec_feature_report(p).update(1, crate::packet::STATUS_SUCCESSFUL),
            crate::packet::FEATURE_REPORT_LEN,
        ) == Some(p),
{
    let buf = crate::packet::spec_feature_report(p).update(1, crate::packet::STATUS_SUCCESSFUL);
    assert(buf.subrange(9, 89) =~= p.args);
}

/// Bringing the lights back after they went off leaves the manager as it
/// was, except that no active watch is wanted any more and the screensaver
/// is off.
pub proof fn law_restore_light_undoes_light_off(v: ManagerView)
    ensures
        after_restore_light(after_light_off(v)) == after_restore_light(v),
{
}

/// Storing a setting for a power source keeps the configuration well formed.
pub proof fn law_updates_keep_wf(c: ConfigurationView, ac: int, f: spec_fn(PowerConfig) -> PowerConfig)
    requires
        c.wf(),
        0 <= ac < 2,
    ensures
        update_source(c, ac, f).wf(),
        update_synced(c, ac, f).wf(),
{
}

} // verus!
