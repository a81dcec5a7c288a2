use razer_control_gui::cooling_pad::{run_step, CommandError, CommandStep, CoolingPad, PadCommand, RunStep};

fn response(status: u8, class: u8, id: u8) -> Vec<u8> {
    let mut r = vec![0u8; 91];
    r[1] = status;
    r[7] = class;
    r[8] = id;
    r
}

#[test]
fn crc_is_xor_of_bytes_2_to_87() {
    let mut p = vec![0u8; 90];
    p[0] = 0xaa;
    p[1] = 0xbb;
    p[2] = 0x01;
    p[10] = 0x10;
    p[87] = 0x02;
    p[88] = 0xff;
    assert_eq!(CoolingPad::calc_crc(&p), 0x13);
}

#[test]
fn command_report_layout() {
    let r = CoolingPad::command_report(0x0f, 0x04, &vec![0x01, 0x05, 0xff]);
    assert_eq!(r.len(), 91);
    assert_eq!(&r[0..9], &[0x00, 0x00, 0x1f, 0x00, 0x00, 0x00, 0x03, 0x0f, 0x04]);
    assert_eq!(&r[9..12], &[0x01, 0x05, 0xff]);
    assert!(r[12..89].iter().all(|b| *b == 0));
    assert_eq!(r[89], 0x03 ^ 0x0f ^ 0x04 ^ 0x01 ^ 0x05 ^ 0xff);
    assert_eq!(r[90], 0);
}

#[test]
fn command_args_are_cut_at_80_bytes() {
    let p = CoolingPad::command_packet(0x0f, 0x02, &vec![9u8; 100]);
    assert_eq!(p.len(), 90);
    assert_eq!(p[5], 80);
    assert!(p[8..88].iter().all(|b| *b == 9));
}

#[test]
fn ok_response_is_accepted() {
    let r = response(0x02, 0x0d, 0x81);
    match CoolingPad::check_response(0x0d, 0x81, 0, 91, &r) {
        CommandStep::Done(payload) => assert_eq!(payload, r[1..].to_vec()),
        _ => panic!("expected success"),
    }
}

#[test]
fn busy_response_retries_then_fails() {
    let r = response(0x01, 0x0d, 0x01);
    assert!(matches!(CoolingPad::check_response(0x0d, 0x01, 0, 91, &r), CommandStep::Retry));
    assert!(matches!(CoolingPad::check_response(0x0d, 0x01, 1, 91, &r), CommandStep::Retry));
    assert!(matches!(
        CoolingPad::check_response(0x0d, 0x01, 2, 91, &r),
        CommandStep::Failed(CommandError::RemainedBusy { class: 0x0d, id: 0x01 })
    ));
}

#[test]
fn ok_after_busy_answers_succeeds_on_the_last_attempt() {
    let busy = response(0x01, 0x0d, 0x81);
    let mut ok = response(0x02, 0x0d, 0x81);
    ok[10] = 0x2a;
    let answers = [(91usize, busy.clone()), (91, busy), (91, ok.clone())];
    let mut outcome = None;
    for (attempt, (size, r)) in answers.iter().enumerate() {
        match CoolingPad::check_response(0x0d, 0x81, attempt as u32, *size, r) {
            CommandStep::Retry => continue,
            CommandStep::Done(payload) => {
                outcome = Some(Ok(payload));
                break;
            },
            CommandStep::Failed(e) => {
                outcome = Some(Err(e));
                break;
            },
        }
    }
    assert_eq!(outcome, Some(Ok(ok[1..].to_vec())));
}

#[test]
fn bad_responses_fail() {
    let r = response(0x02, 0x0f, 0x01);
    assert!(matches!(
        CoolingPad::check_response(0x0d, 0x01, 0, 91, &r),
        CommandStep::Failed(CommandError::ResponseMismatch { expected_class: 0x0d, expected_id: 0x01, class: 0x0f, id: 0x01 })
    ));
    let r = response(0x03, 0x0d, 0x01);
    assert!(matches!(
        CoolingPad::check_response(0x0d, 0x01, 0, 91, &r),
        CommandStep::Failed(CommandError::DeviceStatus { status: 0x03, class: 0x0d, id: 0x01 })
    ));
    let r = response(0x02, 0x0d, 0x01);
    assert!(matches!(
        CoolingPad::check_response(0x0d, 0x01, 0, 64, &r),
        CommandStep::Failed(CommandError::ResponseLength(64))
    ));
}

#[test]
fn open_checks_probe_length() {
    assert!(CoolingPad::open(b"/dev/hidraw3".to_vec(), 91).is_ok());
    assert_eq!(
        CoolingPad::open(b"/dev/hidraw3".to_vec(), 10).err(),
        Some(CommandError::FeatureReportLength(10))
    );
    let probe = CoolingPad::probe_report();
    assert_eq!(probe, vec![0u8; 91]);
}

#[test]
fn rpm_percent_conversions() {
    assert_eq!(CoolingPad::rpm_to_percent(500), 0);
    assert_eq!(CoolingPad::rpm_to_percent(3200), 100);
    assert_eq!(CoolingPad::rpm_to_percent(1850), 50);
    assert_eq!(CoolingPad::rpm_to_percent(1000), 19);
    assert_eq!(CoolingPad::rpm_to_percent(100), 0);
    assert_eq!(CoolingPad::rpm_to_percent(9000), 100);
    assert_eq!(CoolingPad::percent_to_rpm(50), 1850);
    assert_eq!(CoolingPad::percent_to_rpm(100), 3200);
    for p in 0u8..=100 {
        assert_eq!(CoolingPad::rpm_to_percent(CoolingPad::percent_to_rpm(p)), p);
    }
}

#[test]
fn rpm_to_percent_matches_float_rounding() {
    for rpm in 500..=3200 {
        let expected = ((((rpm - 500) as f64) / 2700f64) * 100f64).round().clamp(0f64, 100f64) as u8;
        assert_eq!(CoolingPad::rpm_to_percent(rpm), expected);
    }
}

#[test]
fn fan_commands() {
    match CoolingPad::set_fan_rpm(0) {
        PadCommand::Raw { report } => {
            assert_eq!(report.len(), 91);
            assert_eq!(&report[0..11], &[0x00, 0x00, 0x02, 0x00, 0x00, 0x00, 0x03, 0x0d, 0x10, 0x01, 0x02]);
            assert_eq!(report[89], 0x18);
            assert_eq!(report[90], 0x00);
        },
        _ => panic!("expected a raw report"),
    }
    match CoolingPad::set_fan_rpm(100) {
        PadCommand::Command { command_class, command_id, args } => {
            assert_eq!((command_class, command_id), (0x0d, 0x01));
            assert_eq!(args, vec![0x01, 0x05, 0]);
        },
        _ => panic!("expected a command"),
    }
    match CoolingPad::set_fan_rpm(1850) {
        PadCommand::Command { args, .. } => assert_eq!(args, vec![0x01, 0x05, 50]),
        _ => panic!("expected a command"),
    }
}

#[test]
fn fan_rpm_response_decoding() {
    let mut r = vec![0u8; 90];
    r[5] = 3;
    r[10] = 50;
    assert_eq!(CoolingPad::get_fan_rpm(&r), Some(1850));
    r[5] = 2;
    assert_eq!(CoolingPad::get_fan_rpm(&r), None);
    assert_eq!(CoolingPad::get_fan_rpm(&vec![0u8; 5]), None);
    assert_eq!(CoolingPad::get_fan_rpm(&vec![0, 0, 0, 0, 0, 3, 0, 0, 0, 0]), None);
}

fn command_args(c: &PadCommand) -> (u8, u8, Vec<u8>) {
    match c {
        PadCommand::Command { command_class, command_id, args } => (*command_class, *command_id, args.clone()),
        PadCommand::Raw { .. } => panic!("expected a command"),
    }
}

#[test]
fn effect_commands() {
    let cmds = CoolingPad::set_effect("static", &vec![1, 2, 3]).unwrap();
    assert_eq!(cmds.len(), 2);
    assert_eq!(command_args(&cmds[0]), (0x0f, 0x04, vec![0x01, 0x05, 0xff]));
    assert_eq!(command_args(&cmds[1]), (0x0f, 0x02, vec![0x01, 0x00, 0x01, 0x00, 0x00, 0x01, 1, 2, 3]));
    let cmds = CoolingPad::set_effect("off", &vec![]).unwrap();
    assert_eq!(cmds.len(), 1);
    assert_eq!(command_args(&cmds[0]), (0x0f, 0x02, vec![0x01, 0x00, 0x00, 0x00, 0x00, 0x00]));
    let cmds = CoolingPad::set_effect("wave", &vec![]).unwrap();
    assert_eq!(command_args(&cmds[1]), (0x0f, 0x02, vec![0x01, 0x00, 0x03, 0x01, 0x01, 0x00]));
    let cmds = CoolingPad::set_effect("breathing", &vec![]).unwrap();
    assert_eq!(command_args(&cmds[1]), (0x0f, 0x02, vec![0x01, 0x00, 0x02, 0x00, 0x00, 0x01, 0xff, 0, 0]));
    let cmds = CoolingPad::set_effect("spectrum", &vec![]).unwrap();
    assert_eq!(command_args(&cmds[1]), (0x0f, 0x02, vec![0x01, 0x00, 0x04, 0x00, 0x00, 0x00]));
    assert!(CoolingPad::set_effect("rainbow", &vec![]).is_none());
}

#[test]
fn colour_defaults() {
    assert_eq!(CoolingPad::extract_color(&vec![]), [0xff, 0, 0]);
    assert_eq!(CoolingPad::extract_color(&vec![5]), [5, 0, 0]);
    assert_eq!(CoolingPad::extract_color(&vec![5, 6, 7, 8]), [5, 6, 7]);
    assert_eq!(command_args(&CoolingPad::set_color(&vec![9, 8])), (0x0f, 0x03, vec![0x01, 0x05, 9, 8, 0]));
}

#[test]
fn device_filter() {
    assert!(CoolingPad::is_cooling_pad(0x1532, 0x0f43));
    assert!(!CoolingPad::is_cooling_pad(0x1532, 0x0f44));
}

#[test]
fn command_list_stops_at_first_failure() {
    let cmds = CoolingPad::set_effect("static", &vec![1, 2, 3]);
    assert_eq!(run_step(&cmds, &vec![]), RunStep::Send(0));
    assert_eq!(run_step(&cmds, &vec![false]), RunStep::Done(false));
    assert_eq!(run_step(&cmds, &vec![true]), RunStep::Send(1));
    assert_eq!(run_step(&cmds, &vec![true, false]), RunStep::Done(false));
    assert_eq!(run_step(&cmds, &vec![true, true]), RunStep::Done(true));
    assert_eq!(run_step(&None, &vec![]), RunStep::Done(false));
    let off = CoolingPad::set_effect("off", &vec![]);
    assert_eq!(run_step(&off, &vec![true]), RunStep::Done(true));
}
