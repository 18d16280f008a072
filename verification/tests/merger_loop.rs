use joycon_merger::joycon::{JoyConInput, Side};
use joycon_merger::merger::{
    merge, Command, MergerEvent, MergerState, Phase, ReadOutcome, StatusEvent,
    OPEN_RETRY_NANOS, POLL_INTERVAL_NANOS, RECONNECT_PAUSE_NANOS, SCAN_PAUSE_NANOS,
    VIRTUAL_RETRY_NANOS,
};

fn names(status: &[StatusEvent]) -> Vec<String> {
    status.iter().map(|s| format!("{:?}", s)).collect()
}

fn polling() -> MergerState {
    let mut m = MergerState::new();
    for ev in [
        MergerEvent::Running(true),
        MergerEvent::Scanned { left: true, right: true },
        MergerEvent::HidConnected,
        MergerEvent::Opened,
        MergerEvent::Opened,
        MergerEvent::VirtualConnected,
    ] {
        m.step(ev);
    }
    m
}

fn full_report(a: bool, stick: (u8, u8, u8)) -> Vec<u8> {
    let mut buf = vec![0u8; 64];
    buf[0] = 0x30;
    if a {
        buf[3] = 0x08;
    }
    buf[6] = stick.0;
    buf[7] = stick.1;
    buf[8] = stick.2;
    buf[9] = stick.0;
    buf[10] = stick.1;
    buf[11] = stick.2;
    buf
}

#[test]
fn startup_connects_left_right_then_virtual() {
    let mut m = MergerState::new();
    assert_eq!(m.command(), Command::CheckRunning);
    assert!(m.step(MergerEvent::Running(true)).is_empty());
    assert_eq!(m.command(), Command::Scan);
    assert!(m.step(MergerEvent::Scanned { left: true, right: true }).is_empty());
    assert_eq!(m.command(), Command::ConnectHid);
    m.step(MergerEvent::HidConnected);
    assert_eq!(m.command(), Command::Open(Side::Left));
    assert_eq!(names(&m.step(MergerEvent::Opened)), vec!["LeftConnected"]);
    assert_eq!(m.command(), Command::Open(Side::Right));
    assert_eq!(names(&m.step(MergerEvent::Opened)), vec!["RightConnected"]);
    assert_eq!(m.command(), Command::ConnectVirtual);
    assert_eq!(names(&m.step(MergerEvent::VirtualConnected)), vec!["VirtualReady"]);
    assert_eq!(m.command(), Command::CheckRunning);
    assert_eq!(m.phase, Phase::PollCheck);
    assert_eq!(m.left, JoyConInput::default());
    assert_eq!(m.right, JoyConInput::default());
}

#[test]
fn waits_while_one_joycon_is_missing() {
    let mut m = MergerState::new();
    m.step(MergerEvent::Running(true));
    m.step(MergerEvent::Scanned { left: true, right: false });
    assert_eq!(m.command(), Command::Sleep { nanos: SCAN_PAUSE_NANOS });
    m.step(MergerEvent::Slept);
    assert_eq!(m.command(), Command::CheckRunning);
    m.step(MergerEvent::Running(true));
    m.step(MergerEvent::ScanFailed);
    assert_eq!(m.command(), Command::Sleep { nanos: 500_000_000 });
}

#[test]
fn running_flag_cleared_exits_cleanly() {
    let mut m = MergerState::new();
    m.step(MergerEvent::Running(false));
    assert_eq!(m.command(), Command::Exit { ok: true });
    let mut p = polling();
    p.step(MergerEvent::Running(false));
    assert_eq!(p.command(), Command::Exit { ok: true });
    // finished stays finished
    assert!(p.step(MergerEvent::Running(true)).is_empty());
    assert_eq!(p.command(), Command::Exit { ok: true });
}

#[test]
fn hid_api_failure_exits_with_error() {
    let mut m = MergerState::new();
    m.step(MergerEvent::Running(true));
    m.step(MergerEvent::Scanned { left: true, right: true });
    m.step(MergerEvent::HidFailed);
    assert_eq!(m.command(), Command::Exit { ok: false });
}

#[test]
fn open_failure_retries_after_two_seconds() {
    let mut m = MergerState::new();
    m.step(MergerEvent::Running(true));
    m.step(MergerEvent::Scanned { left: true, right: true });
    m.step(MergerEvent::HidConnected);
    m.step(MergerEvent::Opened);
    assert!(m.step(MergerEvent::OpenFailed).is_empty());
    assert_eq!(m.command(), Command::Sleep { nanos: OPEN_RETRY_NANOS });
    m.step(MergerEvent::Slept);
    assert_eq!(m.command(), Command::Release);
    m.step(MergerEvent::Released);
    assert_eq!(m.command(), Command::CheckRunning);
    assert_eq!(m.phase, Phase::WaitCheck);
}

#[test]
fn virtual_failure_reports_error_and_retries() {
    let mut m = MergerState::new();
    m.step(MergerEvent::Running(true));
    m.step(MergerEvent::Scanned { left: true, right: true });
    m.step(MergerEvent::HidConnected);
    m.step(MergerEvent::Opened);
    m.step(MergerEvent::Opened);
    let status = m.step(MergerEvent::VirtualFailed("no bus".to_string()));
    assert_eq!(status.len(), 1);
    match &status[0] {
        StatusEvent::InputError(msg) => assert_eq!(msg, "no bus"),
        other => panic!("unexpected {:?}", other),
    }
    assert_eq!(m.command(), Command::Sleep { nanos: VIRTUAL_RETRY_NANOS });
}

#[test]
fn frame_pushes_merge_of_reports() {
    let mut m = polling();
    m.step(MergerEvent::Running(true));
    assert_eq!(m.command(), Command::Read(Side::Left));
    m.step(MergerEvent::Report(ReadOutcome::Data(full_report(false, (0xFF, 0xFF, 0xFF)))));
    assert_eq!(m.command(), Command::Read(Side::Right));
    m.step(MergerEvent::Report(ReadOutcome::Data(full_report(true, (0x00, 0x08, 0x80)))));
    let left = JoyConInput::parse_full_report(&full_report(false, (0xFF, 0xFF, 0xFF)), Side::Left).unwrap();
    let right = JoyConInput::parse_full_report(&full_report(true, (0x00, 0x08, 0x80)), Side::Right).unwrap();
    assert_eq!(m.command(), Command::Push(merge(&left, &right)));
    match m.command() {
        Command::Push(g) => {
            assert_eq!(g.buttons, 0x1000);
            assert_eq!(g.thumb_lx, 32751);
            assert_eq!(g.thumb_rx, 0);
        }
        _ => unreachable!(),
    }
}

#[test]
fn no_data_keeps_previous_input() {
    let mut m = polling();
    m.step(MergerEvent::Running(true));
    m.step(MergerEvent::Report(ReadOutcome::Data(full_report(false, (1, 2, 3)))));
    m.step(MergerEvent::Report(ReadOutcome::NoData));
    m.step(MergerEvent::Pushed);
    m.step(MergerEvent::FrameMeasured { elapsed_nanos: POLL_INTERVAL_NANOS });
    let before = m.left;
    m.step(MergerEvent::Running(true));
    m.step(MergerEvent::Report(ReadOutcome::NoData));
    assert_eq!(m.left, before);
    assert_eq!(m.left.stick_x, 0x201);
}

#[test]
fn lost_joycon_reconnects() {
    let mut m = polling();
    m.step(MergerEvent::Running(true));
    m.step(MergerEvent::Report(ReadOutcome::NoData));
    let status = m.step(MergerEvent::Report(ReadOutcome::Failed));
    assert_eq!(names(&status), vec!["RightDisconnected", "VirtualDropped"]);
    assert_eq!(m.command(), Command::Sleep { nanos: RECONNECT_PAUSE_NANOS });
    m.step(MergerEvent::Slept);
    assert_eq!(m.command(), Command::Release);
    m.step(MergerEvent::Released);
    m.step(MergerEvent::Running(true));
    assert_eq!(m.command(), Command::Scan);

    let mut l = polling();
    l.step(MergerEvent::Running(true));
    let status = l.step(MergerEvent::Report(ReadOutcome::Failed));
    assert_eq!(names(&status), vec!["LeftDisconnected", "VirtualDropped"]);
}

#[test]
fn lost_pad_reconnects() {
    let mut m = polling();
    m.step(MergerEvent::Running(true));
    m.step(MergerEvent::Report(ReadOutcome::NoData));
    m.step(MergerEvent::Report(ReadOutcome::NoData));
    let status = m.step(MergerEvent::PushFailed);
    assert_eq!(names(&status), vec!["VirtualDropped", "VirtualDropped"]);
    assert_eq!(m.command(), Command::Sleep { nanos: 1_000_000_000 });
}

#[test]
fn frames_are_paced_to_eight_ms() {
    let mut m = polling();
    m.step(MergerEvent::Running(true));
    m.step(MergerEvent::Report(ReadOutcome::NoData));
    m.step(MergerEvent::Report(ReadOutcome::NoData));
    m.step(MergerEvent::Pushed);
    assert_eq!(m.command(), Command::MeasureFrame);
    m.step(MergerEvent::FrameMeasured { elapsed_nanos: 3_000_000 });
    assert_eq!(m.command(), Command::Sleep { nanos: 5_000_000 });
    m.step(MergerEvent::Slept);
    assert_eq!(m.command(), Command::CheckRunning);
    m.step(MergerEvent::Running(true));
    m.step(MergerEvent::Report(ReadOutcome::NoData));
    m.step(MergerEvent::Report(ReadOutcome::NoData));
    m.step(MergerEvent::Pushed);
    m.step(MergerEvent::FrameMeasured { elapsed_nanos: 9_000_000 });
    assert_eq!(m.command(), Command::CheckRunning);
}

#[test]
fn unexpected_event_is_ignored() {
    let mut m = MergerState::new();
    let before = m;
    assert!(m.step(MergerEvent::Opened).is_empty());
    assert_eq!(m, before);
    assert_eq!(m.command(), Command::CheckRunning);
}
