use rustbot::record::{Record, RecordService, EDIT_WINDOW_SECS};

#[test]
fn records_remember_replies() {
    let mut rs = RecordService::init();
    rs.push_record(1, 1000);
    rs.push_record(2, 1001);
    assert_eq!(rs.find_reply(1), None);
    rs.set_reply(1, 101);
    rs.set_reply(2, 102);
    assert_eq!(rs.find_reply(1), Some(101));
    assert_eq!(rs.find_reply(2), Some(102));
    rs.remove_reply(1);
    assert_eq!(rs.find_reply(1), None);
    assert_eq!(rs.find_reply(2), Some(102));
    // A message without a record is left alone.
    rs.set_reply(9, 999);
    assert_eq!(rs.find_reply(9), None);
}

#[test]
fn latest_record_wins() {
    let mut rs = RecordService::init();
    rs.push_record(5, 1000);
    rs.set_reply(5, 50);
    rs.push_record(5, 2000);
    // The most recent record for the message is consulted.
    assert_eq!(rs.find_reply(5), None);
    rs.set_reply(5, 51);
    assert_eq!(rs.find_reply(5), Some(51));
}

#[test]
fn old_records_are_dropped() {
    let mut rs = RecordService::from_saved(vec![
        Record { msg: 1, reply: None, date: 100 },
        Record { msg: 2, reply: Some(20), date: 120 },
        Record { msg: 3, reply: None, date: EDIT_WINDOW_SECS + 150 },
    ]);
    rs.clear_old_records(EDIT_WINDOW_SECS + 150);
    // Only the prefix inside the edit window survives; the scan stops at
    // the first record still fresh enough.
    assert_eq!(rs.records.len(), 1);
    assert_eq!(rs.records[0].msg, 3);
    assert_eq!(rs.find_reply(2), None);
}

#[test]
fn clearing_stops_at_first_fresh_record() {
    let mut rs = RecordService::from_saved(vec![
        Record { msg: 1, reply: None, date: 100 },
        Record { msg: 2, reply: None, date: EDIT_WINDOW_SECS + 500 },
        Record { msg: 3, reply: None, date: 150 },
    ]);
    rs.clear_old_records(EDIT_WINDOW_SECS + 200);
    // The stale record behind a fresh one is kept: expiry only trims the
    // front.
    assert_eq!(rs.records.len(), 2);
    assert_eq!(rs.records[0].msg, 2);
    assert_eq!(rs.records[1].msg, 3);
}
