use kodbot::choice::{custom_id, Choice};
use kodbot::purge::{Closing, PurgeAction, PurgeEvent, MEMBER_LIMIT};
use kodbot::sessions::SessionTable;

#[test]
fn a_new_table_is_empty() {
    let table = SessionTable::new();
    assert_eq!(table.len(), 0);
    assert!(!table.is_active(1));
}

#[test]
fn a_correlation_identifier_holds_one_session() {
    let mut table = SessionTable::new();
    assert_eq!(
        table.open(10, 900, 77, MEMBER_LIMIT),
        Some(PurgeAction::Prompt { correlation: 10, role: 77 })
    );
    assert!(table.is_active(10));
    assert_eq!(table.open(10, 900, 77, MEMBER_LIMIT), None);
    assert_eq!(table.len(), 1);
    assert_eq!(
        table.open(11, 900, 77, MEMBER_LIMIT),
        Some(PurgeAction::Prompt { correlation: 11, role: 77 })
    );
    assert_eq!(table.len(), 2);
}

#[test]
fn nothing_is_delivered_to_a_session_that_is_not_there() {
    let mut table = SessionTable::new();
    table.open(10, 900, 77, MEMBER_LIMIT);
    assert_eq!(table.deliver(11, &PurgeEvent::Timeout), None);
    assert_eq!(table.len(), 1);
    assert!(table.is_active(10));
}

#[test]
fn a_session_that_ends_leaves_the_table() {
    let mut table = SessionTable::new();
    table.open(10, 900, 77, MEMBER_LIMIT);
    table.open(11, 900, 77, MEMBER_LIMIT);
    table.open(12, 900, 77, MEMBER_LIMIT);
    assert_eq!(
        table.deliver(11, &PurgeEvent::Timeout),
        Some(PurgeAction::Finish(Closing::ExpiredFirst))
    );
    assert_eq!(table.len(), 2);
    assert!(table.is_active(10));
    assert!(!table.is_active(11));
    assert!(table.is_active(12));
    assert_eq!(
        table.open(11, 900, 77, MEMBER_LIMIT),
        Some(PurgeAction::Prompt { correlation: 11, role: 77 })
    );
    assert_eq!(table.len(), 3);
}

#[test]
fn a_click_reaches_the_session_of_its_button_only() {
    let mut table = SessionTable::new();
    table.open(10, 900, 77, MEMBER_LIMIT);
    table.open(107, 900, 77, MEMBER_LIMIT);
    let button = custom_id(107, Choice::Confirm);
    assert_eq!(table.click(&button), Some((107, PurgeAction::Announce { role: 77 })));
    // The session 10 still waits at its first prompt: it takes its own
    // confirmation now, and would not if the click had reached it before.
    let button = custom_id(10, Choice::Confirm);
    assert_eq!(table.click(&button), Some((10, PurgeAction::Announce { role: 77 })));
    // Both have moved on and take no click now.
    assert_eq!(table.click(&custom_id(10, Choice::Cancel)), Some((10, PurgeAction::Ignore)));
    assert_eq!(table.click(&custom_id(107, Choice::Cancel)), Some((107, PurgeAction::Ignore)));
    assert_eq!(table.len(), 2);
}

#[test]
fn a_cancel_for_one_session_leaves_the_other_waiting() {
    let mut table = SessionTable::new();
    table.open(1, 900, 77, MEMBER_LIMIT);
    table.open(12, 900, 77, MEMBER_LIMIT);
    assert_eq!(
        table.click("12:member_purge_cancel"),
        Some((12, PurgeAction::Finish(Closing::Declined)))
    );
    assert!(table.is_active(1));
    assert!(!table.is_active(12));
    assert_eq!(table.click("1:member_purge_confirm"), Some((1, PurgeAction::Announce { role: 77 })));
}

#[test]
fn clicks_on_other_things_reach_no_session() {
    let mut table = SessionTable::new();
    table.open(10, 900, 77, MEMBER_LIMIT);
    assert_eq!(table.click("10"), None);
    assert_eq!(table.click("10:something_else"), None);
    assert_eq!(table.click("010:member_purge_confirm"), None);
    assert_eq!(table.click("100:member_purge_confirm"), None);
    assert_eq!(table.click("1:member_purge_confirm"), None);
    assert_eq!(table.len(), 1);
    assert_eq!(table.click("10:member_purge_confirm"), Some((10, PurgeAction::Announce { role: 77 })));
}
