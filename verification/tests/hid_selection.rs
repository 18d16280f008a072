use joycon_merger::hid::{
    joycon_pid, report_count, scan_for_joycons, HidDeviceInfo, InterfaceSearch, OpenError,
    JOYCON_L_PID, JOYCON_R_PID, NINTENDO_VID,
};
use joycon_merger::joycon::Side;

fn dev(vendor_id: u16, product_id: u16, usage_page: u16, usage: u16) -> HidDeviceInfo {
    HidDeviceInfo { vendor_id, product_id, usage_page, usage }
}

#[test]
fn pids_per_side() {
    assert_eq!(joycon_pid(Side::Left), 0x2006);
    assert_eq!(joycon_pid(Side::Right), 0x2007);
}

#[test]
fn scan_finds_each_side() {
    let list = vec![
        dev(0x1234, JOYCON_L_PID, 1, 5),
        dev(NINTENDO_VID, 0x2009, 1, 5),
        dev(NINTENDO_VID, JOYCON_R_PID, 0, 0),
    ];
    assert_eq!(scan_for_joycons(&list), (false, true));
    let both = vec![dev(NINTENDO_VID, JOYCON_R_PID, 0, 0), dev(NINTENDO_VID, JOYCON_L_PID, 0, 0)];
    assert_eq!(scan_for_joycons(&both), (true, true));
    assert_eq!(scan_for_joycons(&[]), (false, false));
}

#[test]
fn report_count_zero_is_nothing() {
    assert_eq!(report_count(0), None);
    assert_eq!(report_count(49), Some(49));
}

#[test]
fn search_not_found() {
    let list = vec![dev(NINTENDO_VID, JOYCON_R_PID, 1, 5)];
    assert!(matches!(InterfaceSearch::new(&list, Side::Left), Err(OpenError::NotFound)));
}

#[test]
fn search_prefers_gamepad_interface_and_stops() {
    let list = vec![
        dev(NINTENDO_VID, JOYCON_L_PID, 0xFF00, 1),
        dev(NINTENDO_VID, JOYCON_R_PID, 1, 5),
        dev(NINTENDO_VID, JOYCON_L_PID, 1, 5),
        dev(NINTENDO_VID, JOYCON_L_PID, 1, 5),
    ];
    let mut s = InterfaceSearch::new(&list, Side::Left).unwrap();
    assert_eq!(s.next_candidate(), Some(0));
    assert!(s.record(true)); // first opened interface is kept for now
    assert_eq!(s.next_candidate(), Some(2));
    assert!(s.record(true)); // the gamepad interface replaces it
    assert_eq!(s.next_candidate(), None); // and the search stops
    assert!(!s.record(true));
    assert_eq!(s.finish(), Ok(2));
}

#[test]
fn search_keeps_first_opened_without_gamepad() {
    let list = vec![
        dev(NINTENDO_VID, JOYCON_R_PID, 0, 0),
        dev(NINTENDO_VID, JOYCON_R_PID, 0, 0),
        dev(NINTENDO_VID, JOYCON_R_PID, 0, 0),
    ];
    let mut s = InterfaceSearch::new(&list, Side::Right).unwrap();
    assert_eq!(s.next_candidate(), Some(0));
    assert!(!s.record(false));
    assert_eq!(s.next_candidate(), Some(1));
    assert!(s.record(true));
    assert_eq!(s.next_candidate(), Some(2));
    assert!(!s.record(true));
    assert_eq!(s.next_candidate(), None);
    assert_eq!(s.finish(), Ok(1));
}

#[test]
fn search_gamepad_that_fails_to_open_is_skipped() {
    let list = vec![dev(NINTENDO_VID, JOYCON_L_PID, 1, 5), dev(NINTENDO_VID, JOYCON_L_PID, 0, 0)];
    let mut s = InterfaceSearch::new(&list, Side::Left).unwrap();
    assert!(!s.record(false));
    assert_eq!(s.next_candidate(), Some(1));
    assert!(s.record(true));
    assert_eq!(s.finish(), Ok(1));
}

#[test]
fn search_nothing_opens() {
    let list = vec![dev(NINTENDO_VID, JOYCON_L_PID, 0, 0)];
    let mut s = InterfaceSearch::new(&list, Side::Left).unwrap();
    assert!(!s.record(false));
    assert_eq!(s.next_candidate(), None);
    assert_eq!(s.finish(), Err(OpenError::NoInterface));
}
