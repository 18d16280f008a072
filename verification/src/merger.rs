//! The merger: how two Joy-Con inputs become one pad report, and the control
//! loop that finds the Joy-Cons, opens them, drives the virtual pad and
//! reconnects after a loss.
//!
//! The loop is a state machine. The caller performs the [`Command`] the
//! machine asks for (read the running flag, scan or open devices, read a
//! report, push a pad report, sleep, ...), hands the outcome back as a
//! [`MergerEvent`] and forwards the status events that [`MergerState::step`]
//! returns.

use vstd::prelude::*;

use crate::joycon::{
    apply_deadzone, deadzone_value, neutral_input, updated_input, JoyConInput, Side, STICK_CENTER,
    STICK_DEADZONE,
};
use crate::vigem::{
    build_gamepad, button_word, lemma_button_word_reads_back, pressed, Gamepad, BUTTON_A,
    BUTTON_B, BUTTON_BACK, BUTTON_DOWN, BUTTON_GUIDE, BUTTON_LB, BUTTON_LEFT, BUTTON_LTHUMB,
    BUTTON_RB, BUTTON_RIGHT, BUTTON_RTHUMB, BUTTON_START, BUTTON_UP, BUTTON_X, BUTTON_Y,
};

verus! {

/// What the merger tells the status display.
#[derive(Debug)]
pub enum StatusEvent {
    LeftConnected,
    RightConnected,
    LeftDisconnected,
    RightDisconnected,
    VirtualReady,
    VirtualDropped,
    InputError(String),
}

/// Target length of one poll frame: 8 ms.
pub const POLL_INTERVAL_NANOS: u64 = 8_000_000;

/// Pause between two scans while a Joy-Con is missing: 500 ms.
pub const SCAN_PAUSE_NANOS: u64 = 500_000_000;

/// Pause after a Joy-Con could not be opened: 2 s.
pub const OPEN_RETRY_NANOS: u64 = 2_000_000_000;

/// Pause after the virtual pad could not be created: 5 s.
pub const VIRTUAL_RETRY_NANOS: u64 = 5_000_000_000;

/// Pause after the connection was lost: 1 s.
pub const RECONNECT_PAUSE_NANOS: u64 = 1_000_000_000;

/// Trigger value of a pressed ZL or ZR.
pub const TRIGGER_PRESSED: u8 = 255;

/// The pad report for the inputs of a left and a right Joy-Con: the left one
/// gives the left stick, the d-pad, L, ZL, minus and the left stick click; the
/// right one gives the right stick, A, B, X, Y, R, ZR, plus, the right stick
/// click and home, which is the guide button.
pub open spec fn merged(l: JoyConInput, r: JoyConInput) -> Gamepad {
    Gamepad {
        buttons: button_word(
            r.btn_a,
            r.btn_b,
            r.btn_x,
            r.btn_y,
            r.btn_plus,
            l.btn_minus,
            l.btn_l,
            r.btn_r,
            l.btn_lstick,
            r.btn_rstick,
            l.btn_up,
            l.btn_down,
            l.btn_left,
            l.btn_right,
            r.btn_home,
        ),
        left_trigger: if l.btn_zl {
            TRIGGER_PRESSED
        } else {
            0
        },
        right_trigger: if r.btn_zr {
            TRIGGER_PRESSED
        } else {
            0
        },
        thumb_lx: deadzone_value(l.stick_x, STICK_CENTER, STICK_DEADZONE) as i16,
        thumb_ly: deadzone_value(l.stick_y, STICK_CENTER, STICK_DEADZONE) as i16,
        thumb_rx: deadzone_value(r.stick_x, STICK_CENTER, STICK_DEADZONE) as i16,
        thumb_ry: deadzone_value(r.stick_y, STICK_CENTER, STICK_DEADZONE) as i16,
    }
}

/// Merge the inputs of the left and the right Joy-Con into one pad report.
pub fn merge(l: &JoyConInput, r: &JoyConInput) -> (g: Gamepad)
    ensures
        g == merged(*l, *r),
{
    let lx = apply_deadzone(l.stick_x, STICK_CENTER, STICK_DEADZONE);
    let ly = apply_deadzone(l.stick_y, STICK_CENTER, STICK_DEADZONE);
    let rx = apply_deadzone(r.stick_x, STICK_CENTER, STICK_DEADZONE);
    let ry = apply_deadzone(r.stick_y, STICK_CENTER, STICK_DEADZONE);

    let lt: u8 = if l.btn_zl {
        TRIGGER_PRESSED
    } else {
        0
    };
    let rt: u8 = if r.btn_zr {
        TRIGGER_PRESSED
    } else {
        0
    };

    build_gamepad(
        r.btn_a,
        r.btn_b,
        r.btn_x,
        r.btn_y,
        r.btn_plus,
        l.btn_minus,
        l.btn_l,
        r.btn_r,
        lt,
        rt,
        l.btn_lstick,
        r.btn_rstick,
        l.btn_up,
        l.btn_down,
        l.btn_left,
        l.btn_right,
        r.btn_home,
        r.btn_home,
        lx,
        ly,
        rx,
        ry,
    )
}

/// The button map: each pad button of the merged report is pressed exactly
/// when its Joy-Con button is: d-pad, minus (back), L (LB) and the left stick
/// click (L3) from the left Joy-Con; A, B, X, Y, plus (start), R (RB), the
/// right stick click (R3) and home (guide) from the right one.
pub proof fn lemma_button_map(l: JoyConInput, r: JoyConInput)
    ensures
        ({
            let w = merged(l, r).buttons;
            &&& pressed(w, BUTTON_UP) == l.btn_up
            &&& pressed(w, BUTTON_DOWN) == l.btn_down
            &&& pressed(w, BUTTON_LEFT) == l.btn_left
            &&& pressed(w, BUTTON_RIGHT) == l.btn_right
            &&& pressed(w, BUTTON_BACK) == l.btn_minus
            &&& pressed(w, BUTTON_LB) == l.btn_l
            &&& pressed(w, BUTTON_LTHUMB) == l.btn_lstick
            &&& pressed(w, BUTTON_A) == r.btn_a
            &&& pressed(w, BUTTON_B) == r.btn_b
            &&& pressed(w, BUTTON_X) == r.btn_x
            &&& pressed(w, BUTTON_Y) == r.btn_y
            &&& pressed(w, BUTTON_START) == r.btn_plus
            &&& pressed(w, BUTTON_RB) == r.btn_r
            &&& pressed(w, BUTTON_RTHUMB) == r.btn_rstick
            &&& pressed(w, BUTTON_GUIDE) == r.btn_home
        }),
{
    lemma_button_word_reads_back(
        r.btn_a,
        r.btn_b,
        r.btn_x,
        r.btn_y,
        r.btn_plus,
        l.btn_minus,
        l.btn_l,
        r.btn_r,
        l.btn_lstick,
        r.btn_rstick,
        l.btn_up,
        l.btn_down,
        l.btn_left,
        l.btn_right,
        r.btn_home,
    );
}

/// ZL and ZR drive the triggers over their full range: released is 0 and
/// pressed is 255; the sticks go through the dead-zone.
pub proof fn lemma_triggers_and_sticks(l: JoyConInput, r: JoyConInput)
    ensures
        merged(l, r).left_trigger == (if l.btn_zl {
            255u8
        } else {
            0u8
        }),
        merged(l, r).right_trigger == (if r.btn_zr {
            255u8
        } else {
            0u8
        }),
        merged(l, r).thumb_lx == deadzone_value(l.stick_x, STICK_CENTER, STICK_DEADZONE),
        merged(l, r).thumb_ly == deadzone_value(l.stick_y, STICK_CENTER, STICK_DEADZONE),
        merged(l, r).thumb_rx == deadzone_value(r.stick_x, STICK_CENTER, STICK_DEADZONE),
        merged(l, r).thumb_ry == deadzone_value(r.stick_y, STICK_CENTER, STICK_DEADZONE),
{
    crate::joycon::lemma_deadzone_range(l.stick_x, STICK_CENTER, STICK_DEADZONE);
    crate::joycon::lemma_deadzone_range(l.stick_y, STICK_CENTER, STICK_DEADZONE);
    crate::joycon::lemma_deadzone_range(r.stick_x, STICK_CENTER, STICK_DEADZONE);
    crate::joycon::lemma_deadzone_range(r.stick_y, STICK_CENTER, STICK_DEADZONE);
}

// ── The control loop ───────────────────────────────────────────────────────

/// Where the control loop stands, and which outcome it waits for.
#[derive(Debug, Clone, Copy, PartialEq, Eq, Structural)]
pub enum Phase {
    /// About to look for the Joy-Cons; waits for the running flag.
    WaitCheck,
    /// Waits for the result of a scan of the HID bus.
    WaitScan,
    /// A Joy-Con is missing; waits out the pause before the next scan.
    WaitPause,
    /// Both Joy-Cons are on the bus; waits for a connection to the HID API.
    ConnectingHid,
    /// Waits for the left Joy-Con to open.
    OpeningLeft,
    /// Waits for the right Joy-Con to open.
    OpeningRight,
    /// Waits for the virtual pad to be plugged in.
    ConnectingVirtual,
    /// Waits out a pause before giving up the devices and starting over.
    RetryPause { nanos: u64 },
    /// Waits for the devices to be given up.
    Releasing,
    /// At the start of a poll frame; waits for the running flag.
    PollCheck,
    /// Waits for a read of the left Joy-Con.
    ReadingLeft,
    /// Waits for a read of the right Joy-Con.
    ReadingRight,
    /// Waits for the pad report to be pushed.
    Pushing,
    /// Waits for the time the frame has taken so far.
    Measuring,
    /// Waits out the rest of the frame.
    FramePause { nanos: u64 },
    /// The loop has ended; `ok` is false when the HID API could not be reached.
    Finished { ok: bool },
}

/// What the caller is asked to do next.
#[derive(Debug, Clone, Copy, PartialEq, Eq, Structural)]
pub enum Command {
    /// Read the running flag; answer `Running`.
    CheckRunning,
    /// Connect to the HID API and scan the bus; answer `Scanned`, or
    /// `ScanFailed` when the API cannot be reached.
    Scan,
    /// Sleep this long; answer `Slept`.
    Sleep { nanos: u64 },
    /// Connect to the HID API for opening devices; answer `HidConnected` or
    /// `HidFailed`.
    ConnectHid,
    /// Open the Joy-Con of this side; answer `Opened` or `OpenFailed`.
    Open(Side),
    /// Plug in the virtual pad; answer `VirtualConnected` or `VirtualFailed`.
    ConnectVirtual,
    /// Read a report of the Joy-Con of this side into the shared buffer; a
    /// frame starts with the read of the left one. Answer `Report`.
    Read(Side),
    /// Send this report to the virtual pad; answer `Pushed` or `PushFailed`.
    Push(Gamepad),
    /// Measure the time since the frame started; answer `FrameMeasured`.
    MeasureFrame,
    /// Give up the opened devices, the virtual pad and the HID API; answer
    /// `Released`.
    Release,
    /// Stop; the loop ended without error when `ok`.
    Exit { ok: bool },
}

/// The outcome of a read of a Joy-Con.
#[derive(Debug)]
pub enum ReadOutcome {
    /// Bytes arrived; the whole shared buffer, as it stands after the read.
    Data(Vec<u8>),
    /// Nothing was waiting.
    NoData,
    /// The read failed: the Joy-Con is gone.
    Failed,
}

/// The outcome of a command.
#[derive(Debug)]
pub enum MergerEvent {
    Running(bool),
    Scanned { left: bool, right: bool },
    ScanFailed,
    Slept,
    HidConnected,
    HidFailed,
    Opened,
    OpenFailed,
    VirtualConnected,
    VirtualFailed(String),
    Report(ReadOutcome),
    Pushed,
    PushFailed,
    FrameMeasured { elapsed_nanos: u64 },
    Released,
}

/// The control loop's state: its phase and the latest input of each Joy-Con.
#[derive(Debug, Clone, Copy, PartialEq, Eq, Structural)]
pub struct MergerState {
    pub phase: Phase,
    pub left: JoyConInput,
    pub right: JoyConInput,
}

/// The state the loop starts in.
pub open spec fn initial_state() -> MergerState {
    MergerState { phase: Phase::WaitCheck, left: neutral_input(), right: neutral_input() }
}

/// The command the loop asks for in state `s`.
pub open spec fn command_for(s: MergerState) -> Command {
    match s.phase {
        Phase::WaitCheck => Command::CheckRunning,
        Phase::WaitScan => Command::Scan,
        Phase::WaitPause => Command::Sleep { nanos: SCAN_PAUSE_NANOS },
        Phase::ConnectingHid => Command::ConnectHid,
        Phase::OpeningLeft => Command::Open(Side::Left),
        Phase::OpeningRight => Command::Open(Side::Right),
        Phase::ConnectingVirtual => Command::ConnectVirtual,
        Phase::RetryPause { nanos } => Command::Sleep { nanos },
        Phase::Releasing => Command::Release,
        Phase::PollCheck => Command::CheckRunning,
        Phase::ReadingLeft => Command::Read(Side::Left),
        Phase::ReadingRight => Command::Read(Side::Right),
        Phase::Pushing => Command::Push(merged(s.left, s.right)),
        Phase::Measuring => Command::MeasureFrame,
        Phase::FramePause { nanos } => Command::Sleep { nanos },
        Phase::Finished { ok } => Command::Exit { ok },
    }
}

/// The event is an answer to the command that the phase asks for.
pub open spec fn expects(phase: Phase, e: MergerEvent) -> bool {
    match phase {
        Phase::WaitCheck | Phase::PollCheck => e is Running,
        Phase::WaitScan => e is Scanned || e is ScanFailed,
        Phase::WaitPause | Phase::RetryPause { .. } | Phase::FramePause { .. } => e is Slept,
        Phase::ConnectingHid => e is HidConnected || e is HidFailed,
        Phase::OpeningLeft | Phase::OpeningRight => e is Opened || e is OpenFailed,
        Phase::ConnectingVirtual => e is VirtualConnected || e is VirtualFailed,
        Phase::Releasing => e is Released,
        Phase::ReadingLeft | Phase::ReadingRight => e is Report,
        Phase::Pushing => e is Pushed || e is PushFailed,
        Phase::Measuring => e is FrameMeasured,
        Phase::Finished { .. } => false,
    }
}

pub open spec fn in_phase(s: MergerState, phase: Phase) -> MergerState {
    MergerState { phase, ..s }
}

/// The state after event `e` in state `s`. An event that does not answer the
/// pending command changes nothing.
pub open spec fn next_state(s: MergerState, e: MergerEvent) -> MergerState {
    if !expects(s.phase, e) {
        s
    } else {
        match s.phase {
            Phase::WaitCheck | Phase::PollCheck => match e {
                MergerEvent::Running(run) => if !run {
                    in_phase(s, Phase::Finished { ok: true })
                } else if s.phase is WaitCheck {
                    in_phase(s, Phase::WaitScan)
                } else {
                    in_phase(s, Phase::ReadingLeft)
                },
                _ => s,
            },
            Phase::WaitScan => match e {
                MergerEvent::Scanned { left, right } => if left && right {
                    in_phase(s, Phase::ConnectingHid)
                } else {
                    in_phase(s, Phase::WaitPause)
                },
                _ => in_phase(s, Phase::WaitPause),
            },
            Phase::WaitPause => in_phase(s, Phase::WaitCheck),
            Phase::ConnectingHid => if e is HidConnected {
                in_phase(s, Phase::OpeningLeft)
            } else {
                in_phase(s, Phase::Finished { ok: false })
            },
            Phase::OpeningLeft => if e is Opened {
                in_phase(s, Phase::OpeningRight)
            } else {
                in_phase(s, Phase::RetryPause { nanos: OPEN_RETRY_NANOS })
            },
            Phase::OpeningRight => if e is Opened {
                in_phase(s, Phase::ConnectingVirtual)
            } else {
                in_phase(s, Phase::RetryPause { nanos: OPEN_RETRY_NANOS })
            },
            Phase::ConnectingVirtual => if e is VirtualConnected {
                MergerState { phase: Phase::PollCheck, left: neutral_input(), right: neutral_input() }
            } else {
                in_phase(s, Phase::RetryPause { nanos: VIRTUAL_RETRY_NANOS })
            },
            Phase::RetryPause { .. } => in_phase(s, Phase::Releasing),
            Phase::Releasing => in_phase(s, Phase::WaitCheck),
            Phase::ReadingLeft => match e {
                MergerEvent::Report(ReadOutcome::Data(buf)) => MergerState {
                    phase: Phase::ReadingRight,
                    left: updated_input(s.left, buf@, Side::Left),
                    ..s
                },
                MergerEvent::Report(ReadOutcome::NoData) => in_phase(s, Phase::ReadingRight),
                _ => in_phase(s, Phase::RetryPause { nanos: RECONNECT_PAUSE_NANOS }),
            },
            Phase::ReadingRight => match e {
                MergerEvent::Report(ReadOutcome::Data(buf)) => MergerState {
                    phase: Phase::Pushing,
                    right: updated_input(s.right, buf@, Side::Right),
                    ..s
                },
                MergerEvent::Report(ReadOutcome::NoData) => in_phase(s, Phase::Pushing),
                _ => in_phase(s, Phase::RetryPause { nanos: RECONNECT_PAUSE_NANOS }),
            },
            Phase::Pushing => if e is Pushed {
                in_phase(s, Phase::Measuring)
            } else {
                in_phase(s, Phase::RetryPause { nanos: RECONNECT_PAUSE_NANOS })
            },
            Phase::Measuring => match e {
                MergerEvent::FrameMeasured { elapsed_nanos } => if elapsed_nanos
                    < POLL_INTERVAL_NANOS {
                    in_phase(
                        s,
                        Phase::FramePause { nanos: (POLL_INTERVAL_NANOS - elapsed_nanos) as u64 },
                    )
                } else {
                    in_phase(s, Phase::PollCheck)
                },
                _ => s,
            },
            Phase::FramePause { .. } => in_phase(s, Phase::PollCheck),
            Phase::Finished { .. } => s,
        }
    }
}

/// The status events sent when event `e` arrives in state `s`.
pub open spec fn emitted(s: MergerState, e: MergerEvent) -> Seq<StatusEvent> {
    if !expects(s.phase, e) {
        Seq::empty()
    } else {
        match s.phase {
            Phase::OpeningLeft => if e is Opened {
                seq![StatusEvent::LeftConnected]
            } else {
                Seq::empty()
            },
            Phase::OpeningRight => if e is Opened {
                seq![StatusEvent::RightConnected]
            } else {
                Seq::empty()
            },
            Phase::ConnectingVirtual => match e {
                MergerEvent::VirtualConnected => seq![StatusEvent::VirtualReady],
                MergerEvent::VirtualFailed(msg) => seq![StatusEvent::InputError(msg)],
                _ => Seq::empty(),
            },
            Phase::ReadingLeft => if e matches MergerEvent::Report(ReadOutcome::Failed) {
                seq![StatusEvent::LeftDisconnected, StatusEvent::VirtualDropped]
            } else {
                Seq::empty()
            },
            Phase::ReadingRight => if e matches MergerEvent::Report(ReadOutcome::Failed) {
                seq![StatusEvent::RightDisconnected, StatusEvent::VirtualDropped]
            } else {
                Seq::empty()
            },
            Phase::Pushing => if e is PushFailed {
                seq![StatusEvent::VirtualDropped, StatusEvent::VirtualDropped]
            } else {
                Seq::empty()
            },
            _ => Seq::empty(),
        }
    }
}

impl MergerState {
    /// The loop before it starts: looking for the Joy-Cons, both inputs
    /// neutral.
    pub fn new() -> (s: Self)
        ensures
            s == initial_state(),
    {
        MergerState { phase: Phase::WaitCheck, left: JoyConInput::default(), right: JoyConInput::default() }
    }

    /// The command to perform next.
    pub fn command(&self) -> (c: Command)
        ensures
            c == command_for(*self),
    {
        match self.phase {
            Phase::WaitCheck => Command::CheckRunning,
            Phase::WaitScan => Command::Scan,
            Phase::WaitPause => Command::Sleep { nanos: SCAN_PAUSE_NANOS },
            Phase::ConnectingHid => Command::ConnectHid,
            Phase::OpeningLeft => Command::Open(Side::Left),
            Phase::OpeningRight => Command::Open(Side::Right),
            Phase::ConnectingVirtual => Command::ConnectVirtual,
            Phase::RetryPause { nanos } => Command::Sleep { nanos },
            Phase::Releasing => Command::Release,
            Phase::PollCheck => Command::CheckRunning,
            Phase::ReadingLeft => Command::Read(Side::Left),
            Phase::ReadingRight => Command::Read(Side::Right),
            Phase::Pushing => Command::Push(merge(&self.left, &self.right)),
            Phase::Measuring => Command::MeasureFrame,
            Phase::FramePause { nanos } => Command::Sleep { nanos },
            Phase::Finished { ok } => Command::Exit { ok },
        }
    }

    fn go(&mut self, phase: Phase)
        ensures
            *final(self) == in_phase(*old(self), phase),
    {
        self.phase = phase;
    }

    /// Take the outcome of the pending command; gives the status events to
    /// send, in order.
    pub fn step(&mut self, event: MergerEvent) -> (status: Vec<StatusEvent>)
        ensures
            *final(self) == next_state(*old(self), event),
            status@ == emitted(*old(self), event),
    {
        let mut status: Vec<StatusEvent> = Vec::new();
        match self.phase {
            Phase::WaitCheck => {
                if let MergerEvent::Running(run) = event {
                    if !run {
                        self.go(Phase::Finished { ok: true });
                    } else {
                        self.go(Phase::WaitScan);
                    }
                }
            },
            Phase::PollCheck => {
                if let MergerEvent::Running(run) = event {
                    if !run {
                        self.go(Phase::Finished { ok: true });
                    } else {
                        self.go(Phase::ReadingLeft);
                    }
                }
            },
            Phase::WaitScan => {
                match event {
                    MergerEvent::Scanned { left, right } => {
                        if left && right {
                            self.go(Phase::ConnectingHid);
                        } else {
                            self.go(Phase::WaitPause);
                        }
                    },
                    MergerEvent::ScanFailed => self.go(Phase::WaitPause),
                    _ => {},
                }
            },
            Phase::WaitPause => {
                if let MergerEvent::Slept = event {
                    self.go(Phase::WaitCheck);
                }
            },
            Phase::ConnectingHid => {
                match event {
                    MergerEvent::HidConnected => self.go(Phase::OpeningLeft),
                    MergerEvent::HidFailed => self.go(Phase::Finished { ok: false }),
                    _ => {},
                }
            },
            Phase::OpeningLeft => {
                match event {
                    MergerEvent::Opened => {
                        status.push(StatusEvent::LeftConnected);
                        self.go(Phase::OpeningRight);
                    },
                    MergerEvent::OpenFailed => self.go(Phase::RetryPause { nanos: OPEN_RETRY_NANOS }),
                    _ => {},
                }
            },
            Phase::OpeningRight => {
                match event {
                    MergerEvent::Opened => {
                        status.push(StatusEvent::RightConnected);
                        self.go(Phase::ConnectingVirtual);
                    },
                    MergerEvent::OpenFailed => self.go(Phase::RetryPause { nanos: OPEN_RETRY_NANOS }),
                    _ => {},
                }
            },
            Phase::ConnectingVirtual => {
                match event {
                    MergerEvent::VirtualConnected => {
                        status.push(StatusEvent::VirtualReady);
                        self.phase = Phase::PollCheck;
                        self.left = JoyConInput::default();
                        self.right = JoyConInput::default();
                    },
                    MergerEvent::VirtualFailed(msg) => {
                        status.push(StatusEvent::InputError(msg));
                        self.go(Phase::RetryPause { nanos: VIRTUAL_RETRY_NANOS });
                    },
                    _ => {},
                }
            },
            Phase::RetryPause { .. } => {
                if let MergerEvent::Slept = event {
                    self.go(Phase::Releasing);
                }
            },
            Phase::Releasing => {
                if let MergerEvent::Released = event {
                    self.go(Phase::WaitCheck);
                }
            },
            Phase::ReadingLeft => {
                if let MergerEvent::Report(outcome) = event {
                    match outcome {
                        ReadOutcome::Data(buf) => {
                            self.left = JoyConInput::apply_report(self.left, buf.as_slice(), Side::Left);
                            self.go(Phase::ReadingRight);
                        },
                        ReadOutcome::NoData => self.go(Phase::ReadingRight),
                        ReadOutcome::Failed => {
                            status.push(StatusEvent::LeftDisconnected);
                            status.push(StatusEvent::VirtualDropped);
                            self.go(Phase::RetryPause { nanos: RECONNECT_PAUSE_NANOS });
                        },
                    }
                }
            },
            Phase::ReadingRight => {
                if let MergerEvent::Report(outcome) = event {
                    match outcome {
                        ReadOutcome::Data(buf) => {
                            self.right = JoyConInput::apply_report(self.right, buf.as_slice(), Side::Right);
                            self.go(Phase::Pushing);
                        },
                        ReadOutcome::NoData => self.go(Phase::Pushing),
                        ReadOutcome::Failed => {
                            status.push(StatusEvent::RightDisconnected);
                            status.push(StatusEvent::VirtualDropped);
                            self.go(Phase::RetryPause { nanos: RECONNECT_PAUSE_NANOS });
                        },
                    }
                }
            },
            Phase::Pushing => {
                match event {
                    MergerEvent::Pushed => self.go(Phase::Measuring),
                    MergerEvent::PushFailed => {
                        status.push(StatusEvent::VirtualDropped);
                        status.push(StatusEvent::VirtualDropped);
                        self.go(Phase::RetryPause { nanos: RECONNECT_PAUSE_NANOS });
                    },
                    _ => {},
                }
            },
            Phase::Measuring => {
                if let MergerEvent::FrameMeasured { elapsed_nanos } = event {
                    if elapsed_nanos < POLL_INTERVAL_NANOS {
                        self.go(Phase::FramePause { nanos: POLL_INTERVAL_NANOS - elapsed_nanos });
                    } else {
                        self.go(Phase::PollCheck);
                    }
                }
            },
            Phase::FramePause { .. } => {
                if let MergerEvent::Slept = event {
                    self.go(Phase::PollCheck);
                }
            },
            Phase::Finished { .. } => {},
        }
        proof {
            assert(status@ =~= emitted(*old(self), event));
        }
        status
    }
}

// ── Laws of the control loop ───────────────────────────────────────────────

/// An event that does not answer the pending command changes nothing and
/// sends nothing.
pub proof fn lemma_unexpected_event_ignored(s: MergerState, e: MergerEvent)
    requires
        !expects(s.phase, e),
    ensures
        next_state(s, e) == s,
        emitted(s, e) == Seq::<StatusEvent>::empty(),
{
}

/// Once the loop has ended it stays ended, asks only to exit and sends
/// nothing.
pub proof fn lemma_finished_is_final(s: MergerState, e: MergerEvent, ok: bool)
    requires
        s.phase == (Phase::Finished { ok }),
    ensures
        next_state(s, e) == s,
        emitted(s, e) == Seq::<StatusEvent>::empty(),
        command_for(next_state(s, e)) == (Command::Exit { ok }),
{
}

/// A cleared running flag ends the loop without error, whether it is seen
/// while looking for the Joy-Cons or at the start of a poll frame.
pub proof fn lemma_stops_when_running_cleared(s: MergerState)
    requires
        s.phase == Phase::WaitCheck || s.phase == Phase::PollCheck,
    ensures
        command_for(next_state(s, MergerEvent::Running(false))) == (Command::Exit { ok: true }),
        emitted(s, MergerEvent::Running(false)) == Seq::<StatusEvent>::empty(),
{
}

/// While a Joy-Con is missing the loop waits 500 ms and looks again; only
/// when both are on the bus does it go on to open them.
pub proof fn lemma_waits_for_both(s: MergerState, left: bool, right: bool)
    requires
        s.phase == Phase::WaitScan,
    ensures
        ({
            let s1 = next_state(s, MergerEvent::Scanned { left, right });
            &&& left && right ==> command_for(s1) == Command::ConnectHid
            &&& !(left && right) ==> command_for(s1) == (Command::Sleep { nanos: SCAN_PAUSE_NANOS })
                && command_for(next_state(s1, MergerEvent::Slept)) == Command::CheckRunning
                && next_state(s1, MergerEvent::Slept).phase == Phase::WaitCheck
        }),
{
}

/// Connecting: opening the left Joy-Con, then the right one, then plugging in
/// the virtual pad announces each success and starts polling with both
/// inputs neutral.
pub proof fn lemma_connects_in_order(s: MergerState)
    requires
        s.phase == Phase::OpeningLeft,
    ensures
        ({
            let s1 = next_state(s, MergerEvent::Opened);
            let s2 = next_state(s1, MergerEvent::Opened);
            let s3 = next_state(s2, MergerEvent::VirtualConnected);
            &&& emitted(s, MergerEvent::Opened) == seq![StatusEvent::LeftConnected]
            &&& command_for(s1) == Command::Open(Side::Right)
            &&& emitted(s1, MergerEvent::Opened) == seq![StatusEvent::RightConnected]
            &&& command_for(s2) == Command::ConnectVirtual
            &&& emitted(s2, MergerEvent::VirtualConnected) == seq![StatusEvent::VirtualReady]
            &&& s3 == MergerState {
                phase: Phase::PollCheck,
                left: neutral_input(),
                right: neutral_input(),
            }
        }),
{
}

/// A failure while connecting is followed by a pause (2 s after a Joy-Con
/// failed to open, 5 s after the virtual pad failed, with its message sent on),
/// then by giving up the devices and looking for the Joy-Cons again.
pub proof fn lemma_retries_after_connect_failure(s: MergerState, e: MergerEvent)
    requires
        (s.phase == Phase::OpeningLeft || s.phase == Phase::OpeningRight) && e is OpenFailed
            || s.phase == Phase::ConnectingVirtual && e is VirtualFailed,
    ensures
        ({
            let s1 = next_state(s, e);
            let s2 = next_state(s1, MergerEvent::Slept);
            let s3 = next_state(s2, MergerEvent::Released);
            &&& command_for(s1) == (Command::Sleep {
                nanos: if e is OpenFailed {
                    OPEN_RETRY_NANOS
                } else {
                    VIRTUAL_RETRY_NANOS
                },
            })
            &&& e matches MergerEvent::VirtualFailed(msg) ==> emitted(s, e) == seq![
                StatusEvent::InputError(msg),
            ]
            &&& e is OpenFailed ==> emitted(s, e) == Seq::<StatusEvent>::empty()
            &&& command_for(s2) == Command::Release
            &&& s3.phase == Phase::WaitCheck
        }),
{
}

/// Auto-reconnect: when a Joy-Con read fails the loop reports that Joy-Con
/// and the virtual pad as gone, pauses 1 s, gives up its devices and looks for
/// the Joy-Cons again.
pub proof fn lemma_reconnects_after_lost_joycon(s: MergerState)
    requires
        s.phase == Phase::ReadingLeft || s.phase == Phase::ReadingRight,
    ensures
        ({
            let e = MergerEvent::Report(ReadOutcome::Failed);
            let s1 = next_state(s, e);
            let s2 = next_state(s1, MergerEvent::Slept);
            let s3 = next_state(s2, MergerEvent::Released);
            &&& emitted(s, e) == seq![
                if s.phase == Phase::ReadingLeft {
                    StatusEvent::LeftDisconnected
                } else {
                    StatusEvent::RightDisconnected
                },
                StatusEvent::VirtualDropped,
            ]
            &&& command_for(s1) == (Command::Sleep { nanos: RECONNECT_PAUSE_NANOS })
            &&& command_for(s2) == Command::Release
            &&& s3.phase == Phase::WaitCheck
            &&& command_for(next_state(s3, MergerEvent::Running(true))) == Command::Scan
        }),
{
}

/// When the virtual pad rejects a report the loop reports it dropped, pauses
/// 1 s, gives up its devices and looks for the Joy-Cons again.
pub proof fn lemma_reconnects_after_lost_pad(s: MergerState)
    requires
        s.phase == Phase::Pushing,
    ensures
        ({
            let s1 = next_state(s, MergerEvent::PushFailed);
            let s2 = next_state(s1, MergerEvent::Slept);
            &&& emitted(s, MergerEvent::PushFailed) == seq![
                StatusEvent::VirtualDropped,
                StatusEvent::VirtualDropped,
            ]
            &&& command_for(s1) == (Command::Sleep { nanos: RECONNECT_PAUSE_NANOS })
            &&& next_state(s2, MergerEvent::Released).phase == Phase::WaitCheck
        }),
{
}

/// The stored inputs persist across the loop: the left input changes only
/// when a report with data arrives for the left Joy-Con, the right input only
/// when one arrives for the right Joy-Con, and both are reset to neutral only
/// when a new virtual pad is plugged in. Every other event, including the
/// running check that starts a frame and reads that find no data, keeps them.
pub proof fn lemma_inputs_persist(s: MergerState, e: MergerEvent)
    ensures
        next_state(s, e).left != s.left ==> (s.phase == Phase::ReadingLeft
            && e matches MergerEvent::Report(ReadOutcome::Data(_))) || (s.phase
            == Phase::ConnectingVirtual && e is VirtualConnected),
        next_state(s, e).right != s.right ==> (s.phase == Phase::ReadingRight
            && e matches MergerEvent::Report(ReadOutcome::Data(_))) || (s.phase
            == Phase::ConnectingVirtual && e is VirtualConnected),
        s.phase == Phase::ReadingLeft ==> next_state(s, e).right == s.right,
        s.phase == Phase::ReadingRight ==> next_state(s, e).left == s.left,
        s.phase == Phase::ConnectingVirtual && e is VirtualConnected ==> next_state(s, e).left
            == neutral_input() && next_state(s, e).right == neutral_input(),
{
}

/// A frame whose reads both find no data pushes the merge of the inputs held
/// before the frame: nothing is reset between frames.
pub proof fn lemma_idle_frame_pushes_held_inputs(s: MergerState)
    requires
        s.phase == Phase::PollCheck,
    ensures
        ({
            let s1 = next_state(s, MergerEvent::Running(true));
            let s2 = next_state(s1, MergerEvent::Report(ReadOutcome::NoData));
            let s3 = next_state(s2, MergerEvent::Report(ReadOutcome::NoData));
            &&& s3.left == s.left
            &&& s3.right == s.right
            &&& command_for(s3) == Command::Push(merged(s.left, s.right))
        }),
{
}

/// A frame in which only the left Joy-Con reports pushes the new left input
/// with the right input held from before.
pub proof fn lemma_one_sided_frame_keeps_other_side(s: MergerState, left: Vec<u8>)
    requires
        s.phase == Phase::PollCheck,
    ensures
        ({
            let s1 = next_state(s, MergerEvent::Running(true));
            let s2 = next_state(s1, MergerEvent::Report(ReadOutcome::Data(left)));
            let s3 = next_state(s2, MergerEvent::Report(ReadOutcome::NoData));
            &&& s3.right == s.right
            &&& command_for(s3) == Command::Push(
                merged(updated_input(s.left, left@, Side::Left), s.right),
            )
        }),
{
}

/// One poll frame: the pad report pushed is the merge of the inputs after the
/// left and the right report of the frame, each taken as a full report, else a
/// simple report, else ignored.
pub proof fn lemma_frame_pushes_merged_reports(s: MergerState, left: Vec<u8>, right: Vec<u8>)
    requires
        s.phase == Phase::ReadingLeft,
    ensures
        ({
            let s1 = next_state(s, MergerEvent::Report(ReadOutcome::Data(left)));
            let s2 = next_state(s1, MergerEvent::Report(ReadOutcome::Data(right)));
            command_for(s2) == Command::Push(
                merged(
                    updated_input(s.left, left@, Side::Left),
                    updated_input(s.right, right@, Side::Right),
                ),
            )
        }),
{
}

/// A read that finds nothing keeps that Joy-Con's latest input.
pub proof fn lemma_no_data_keeps_input(s: MergerState)
    requires
        s.phase == Phase::ReadingLeft || s.phase == Phase::ReadingRight,
    ensures
        next_state(s, MergerEvent::Report(ReadOutcome::NoData)).left == s.left,
        next_state(s, MergerEvent::Report(ReadOutcome::NoData)).right == s.right,
{
}

/// Frames are paced to 8 ms: a frame that took less sleeps exactly the rest,
/// a longer one goes straight on to the next frame.
pub proof fn lemma_frame_pacing(s: MergerState, elapsed_nanos: u64)
    requires
        s.phase == Phase::Measuring,
    ensures
        ({
            let s1 = next_state(s, MergerEvent::FrameMeasured { elapsed_nanos });
            &&& elapsed_nanos < POLL_INTERVAL_NANOS ==> command_for(s1) == (Command::Sleep {
                nanos: (POLL_INTERVAL_NANOS - elapsed_nanos) as u64,
            }) && next_state(s1, MergerEvent::Slept).phase == Phase::PollCheck
            &&& elapsed_nanos >= POLL_INTERVAL_NANOS ==> s1.phase == Phase::PollCheck
        }),
{
}

} // verus!
