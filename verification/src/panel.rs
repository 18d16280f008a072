//! The state behind the status panel: which devices are connected and the
//! event log, as the merger's status events update them.

use vstd::prelude::*;

use crate::merger::StatusEvent;

verus! {

/// How many lines the event log keeps; older lines are dropped first.
pub const LOG_CAPACITY: usize = 60;

/// Whether a device is connected.
#[derive(Debug, Clone, Copy, PartialEq, Eq, Structural)]
pub enum ConnState {
    Disconnected,
    Connected,
}

/// How a log line is coloured, by its first character.
#[derive(Debug, Clone, Copy, PartialEq, Eq, Structural)]
pub enum LogTone {
    /// A connection or an active pad (lines starting with ▶ or ●).
    Accent,
    /// A disconnection or a dropped pad (lines starting with ◀ or ○).
    Warning,
    /// An error (lines starting with !).
    Error,
    /// Anything else.
    Muted,
}

/// The log line written for a status event.
pub open spec fn status_message(ev: StatusEvent) -> Seq<char> {
    match ev {
        StatusEvent::LeftConnected => "\u{25B6} Left Joy-Con connected"@,
        StatusEvent::RightConnected => "\u{25B6} Right Joy-Con connected"@,
        StatusEvent::LeftDisconnected => "\u{25C0} Left Joy-Con disconnected"@,
        StatusEvent::RightDisconnected => "\u{25C0} Right Joy-Con disconnected"@,
        StatusEvent::VirtualReady => "\u{25CF} Virtual Xbox controller active"@,
        StatusEvent::VirtualDropped => "\u{25CB} Virtual controller dropped"@,
        StatusEvent::InputError(e) => "! Error: "@ + e@,
    }
}

/// The log after `line` is written: the oldest line goes when the log is
/// full, and `line` comes last.
pub open spec fn log_after(log: Seq<Seq<char>>, line: Seq<char>) -> Seq<Seq<char>> {
    let kept = if log.len() >= LOG_CAPACITY {
        log.drop_first()
    } else {
        log
    };
    kept.push(line)
}

/// The tone of a log line, by its first character.
pub open spec fn tone_of(line: Seq<char>) -> LogTone {
    if line.len() == 0 {
        LogTone::Muted
    } else if line[0] == '\u{25B6}' || line[0] == '\u{25CF}' {
        LogTone::Accent
    } else if line[0] == '\u{25C0}' || line[0] == '\u{25CB}' {
        LogTone::Warning
    } else if line[0] == '!' {
        LogTone::Error
    } else {
        LogTone::Muted
    }
}

/// Each status event's log line takes the tone of its kind: connections and
/// the active pad stand out, disconnections and the dropped pad warn, errors
/// show as errors.
pub proof fn lemma_status_tones(ev: StatusEvent)
    ensures
        tone_of(status_message(ev)) == (match ev {
            StatusEvent::LeftConnected | StatusEvent::RightConnected
            | StatusEvent::VirtualReady => LogTone::Accent,
            StatusEvent::LeftDisconnected | StatusEvent::RightDisconnected
            | StatusEvent::VirtualDropped => LogTone::Warning,
            StatusEvent::InputError(_) => LogTone::Error,
        }),
{
    reveal_strlit("\u{25B6} Left Joy-Con connected");
    reveal_strlit("\u{25B6} Right Joy-Con connected");
    reveal_strlit("\u{25C0} Left Joy-Con disconnected");
    reveal_strlit("\u{25C0} Right Joy-Con disconnected");
    reveal_strlit("\u{25CF} Virtual Xbox controller active");
    reveal_strlit("\u{25CB} Virtual controller dropped");
    reveal_strlit("! Error: ");
    if let StatusEvent::InputError(e) = ev {
        assert(("! Error: "@ + e@)[0] == '!');
    }
}

/// Connection states of both Joy-Cons and the virtual pad, and the event log.
pub struct PanelState {
    left: ConnState,
    right: ConnState,
    virtual_pad: ConnState,
    log: Vec<String>,
}

impl PanelState {
    #[verifier::type_invariant]
    spec fn log_bounded(self) -> bool {
        self.log@.len() <= LOG_CAPACITY
    }

    pub closed spec fn left_state(&self) -> ConnState {
        self.left
    }

    pub closed spec fn right_state(&self) -> ConnState {
        self.right
    }

    pub closed spec fn virtual_state(&self) -> ConnState {
        self.virtual_pad
    }

    /// The log lines, oldest first.
    pub closed spec fn log_lines(&self) -> Seq<Seq<char>> {
        self.log@.map_values(|line: String| line@)
    }

    /// Nothing connected, nothing logged.
    pub fn new() -> (p: Self)
        ensures
            p.left_state() == ConnState::Disconnected,
            p.right_state() == ConnState::Disconnected,
            p.virtual_state() == ConnState::Disconnected,
            p.log_lines() == Seq::<Seq<char>>::empty(),
    {
        let p = PanelState {
            left: ConnState::Disconnected,
            right: ConnState::Disconnected,
            virtual_pad: ConnState::Disconnected,
            log: Vec::new(),
        };
        proof {
            assert(p.log_lines() =~= Seq::<Seq<char>>::empty());
        }
        p
    }

    pub fn left(&self) -> (c: ConnState)
        ensures
            c == self.left_state(),
    {
        self.left
    }

    pub fn right(&self) -> (c: ConnState)
        ensures
            c == self.right_state(),
    {
        self.right
    }

    pub fn virtual_pad(&self) -> (c: ConnState)
        ensures
            c == self.virtual_state(),
    {
        self.virtual_pad
    }

    /// The log lines, oldest first.
    pub fn log(&self) -> (lines: &Vec<String>)
        ensures
            lines@.map_values(|line: String| line@) == self.log_lines(),
            lines@.len() <= LOG_CAPACITY,
    {
        proof {
            use_type_invariant(self);
        }
        &self.log
    }

    /// Write a line to the log, dropping the oldest line when it is full.
    pub fn push_log(&mut self, msg: String)
        ensures
            final(self).log_lines() == log_after(old(self).log_lines(), msg@),
            final(self).left_state() == old(self).left_state(),
            final(self).right_state() == old(self).right_state(),
            final(self).virtual_state() == old(self).virtual_state(),
    {
        proof {
            use_type_invariant(&*self);
        }
        let ghost before = self.log@;
        let mut log: Vec<String> = Vec::new();
        std::mem::swap(&mut log, &mut self.log);
        if log.len() >= LOG_CAPACITY {
            log.remove(0);
        }
        let ghost kept = log@;
        log.push(msg);
        self.log = log;
        proof {
            assert(kept =~= if before.len() >= LOG_CAPACITY {
                before.drop_first()
            } else {
                before
            });
            assert(self.log@ == kept.push(msg));
            assert(self.log_lines() =~= log_after(before.map_values(|line: String| line@), msg@));
        }
    }

    /// Take a status event from the merger: update the state of the device it
    /// concerns and log it.
    pub fn apply(&mut self, ev: StatusEvent)
        ensures
            final(self).log_lines() == log_after(old(self).log_lines(), status_message(ev)),
            final(self).left_state() == (match ev {
                StatusEvent::LeftConnected => ConnState::Connected,
                StatusEvent::LeftDisconnected => ConnState::Disconnected,
                _ => old(self).left_state(),
            }),
            final(self).right_state() == (match ev {
                StatusEvent::RightConnected => ConnState::Connected,
                StatusEvent::RightDisconnected => ConnState::Disconnected,
                _ => old(self).right_state(),
            }),
            final(self).virtual_state() == (match ev {
                StatusEvent::VirtualReady => ConnState::Connected,
                StatusEvent::VirtualDropped => ConnState::Disconnected,
                _ => old(self).virtual_state(),
            }),
    {
        proof {
            use_type_invariant(&*self);
        }
        match ev {
            StatusEvent::LeftConnected => {
                self.left = ConnState::Connected;
                self.push_log(String::from_str("\u{25B6} Left Joy-Con connected"));
            },
            StatusEvent::RightConnected => {
                self.right = ConnState::Connected;
                self.push_log(String::from_str("\u{25B6} Right Joy-Con connected"));
            },
            StatusEvent::LeftDisconnected => {
                self.left = ConnState::Disconnected;
                self.push_log(String::from_str("\u{25C0} Left Joy-Con disconnected"));
            },
            StatusEvent::RightDisconnected => {
                self.right = ConnState::Disconnected;
                self.push_log(String::from_str("\u{25C0} Right Joy-Con disconnected"));
            },
            StatusEvent::VirtualReady => {
                self.virtual_pad = ConnState::Connected;
                self.push_log(String::from_str("\u{25CF} Virtual Xbox controller active"));
            },
            StatusEvent::VirtualDropped => {
                self.virtual_pad = ConnState::Disconnected;
                self.push_log(String::from_str("\u{25CB} Virtual controller dropped"));
            },
            StatusEvent::InputError(e) => {
                let line = String::from_str("! Error: ").concat(e.as_str());
                self.push_log(line);
            },
        }
    }

    /// Both Joy-Cons and the virtual pad are connected.
    pub fn all_active(&self) -> (r: bool)
        ensures
            r == (self.left_state() == ConnState::Connected && self.right_state()
                == ConnState::Connected && self.virtual_state() == ConnState::Connected),
    {
        self.left == ConnState::Connected && self.right == ConnState::Connected && self.virtual_pad
            == ConnState::Connected
    }
}

/// The tone of a log line, by its first character.
pub fn log_tone(line: &str) -> (t: LogTone)
    ensures
        t == tone_of(line@),
{
    if line.unicode_len() == 0 {
        return LogTone::Muted;
    }
    let c = line.get_char(0);
    if c == '\u{25B6}' || c == '\u{25CF}' {
        LogTone::Accent
    } else if c == '\u{25C0}' || c == '\u{25CB}' {
        LogTone::Warning
    } else if c == '!' {
        LogTone::Error
    } else {
        LogTone::Muted
    }
}

/// The first log line to show when `max_lines` fit: the newest lines are
/// shown, so the first `len - max_lines` are skipped when the log is longer.
pub fn visible_log_start(len: usize, max_lines: usize) -> (start: usize)
    ensures
        start == (if len > max_lines {
            len - max_lines
        } else {
            0
        }),
{
    if len > max_lines {
        len - max_lines
    } else {
        0
    }
}

} // verus!
