use joycon_merger::merger::StatusEvent;
use joycon_merger::panel::{log_tone, visible_log_start, ConnState, LogTone, PanelState, LOG_CAPACITY};

#[test]
fn panel_starts_empty() {
    let p = PanelState::new();
    assert_eq!(p.left(), ConnState::Disconnected);
    assert_eq!(p.right(), ConnState::Disconnected);
    assert_eq!(p.virtual_pad(), ConnState::Disconnected);
    assert!(p.log().is_empty());
    assert!(!p.all_active());
}

#[test]
fn panel_applies_status_events() {
    let mut p = PanelState::new();
    p.apply(StatusEvent::LeftConnected);
    p.apply(StatusEvent::RightConnected);
    assert!(!p.all_active());
    p.apply(StatusEvent::VirtualReady);
    assert!(p.all_active());
    p.apply(StatusEvent::RightDisconnected);
    assert_eq!(p.right(), ConnState::Disconnected);
    assert_eq!(p.left(), ConnState::Connected);
    p.apply(StatusEvent::VirtualDropped);
    p.apply(StatusEvent::LeftDisconnected);
    p.apply(StatusEvent::InputError("bus gone".to_string()));
    assert_eq!(
        p.log(),
        &vec![
            "\u{25B6} Left Joy-Con connected".to_string(),
            "\u{25B6} Right Joy-Con connected".to_string(),
            "\u{25CF} Virtual Xbox controller active".to_string(),
            "\u{25C0} Right Joy-Con disconnected".to_string(),
            "\u{25CB} Virtual controller dropped".to_string(),
            "\u{25C0} Left Joy-Con disconnected".to_string(),
            "! Error: bus gone".to_string(),
        ]
    );
    assert_eq!(p.virtual_pad(), ConnState::Disconnected);
}

#[test]
fn log_keeps_newest_sixty_lines() {
    let mut p = PanelState::new();
    for i in 0..75 {
        p.push_log(format!("line {}", i));
        assert!(p.log().len() <= LOG_CAPACITY);
    }
    assert_eq!(p.log().len(), 60);
    assert_eq!(p.log()[0], "line 15");
    assert_eq!(p.log()[59], "line 74");
}

#[test]
fn log_tones_by_first_char() {
    assert_eq!(log_tone("\u{25B6} Left Joy-Con connected"), LogTone::Accent);
    assert_eq!(log_tone("\u{25CF} Virtual Xbox controller active"), LogTone::Accent);
    assert_eq!(log_tone("\u{25C0} Left Joy-Con disconnected"), LogTone::Warning);
    assert_eq!(log_tone("\u{25CB} Virtual controller dropped"), LogTone::Warning);
    assert_eq!(log_tone("! Error: x"), LogTone::Error);
    assert_eq!(log_tone("hello"), LogTone::Muted);
    assert_eq!(log_tone(""), LogTone::Muted);
}

#[test]
fn visible_log_shows_newest() {
    assert_eq!(visible_log_start(10, 25), 0);
    assert_eq!(visible_log_start(60, 25), 35);
    assert_eq!(visible_log_start(25, 25), 0);
}
