use megane::logevents::LogEvents;
use megane::records::LogRecord;

fn get_events(from: usize, to: usize) -> Vec<LogRecord> {
    let mut events = vec![];
    for i in from..to {
        events.push(LogRecord {
            event_id: Some(i.to_string()),
            message: Some(i.to_string()),
            timestamp: None,
        });
    }
    events
}

#[test]
fn test_set_items() {
    let mut log_events = LogEvents::new(get_events(0, 4));
    let expected = LogEvents::new(get_events(3, 6));
    log_events.set_items(get_events(3, 6));
    for (i, val) in log_events.items().iter().enumerate() {
        assert_eq!(expected.items().get(i).unwrap(), val);
    }
}

#[test]
fn test_get_message() {
    let log_events = LogEvents::new(get_events(0, 2));
    let msg1 = log_events.get_message(0);
    let msg2 = log_events.get_message(3);
    assert_eq!(Some(String::from("0")), msg1);
    assert_eq!(None, msg2);
}

#[test]
fn test_clear_items() {
    let mut log_events = LogEvents::new(get_events(0, 2));
    log_events.clear_items();
    let expected: Vec<LogRecord> = vec![];
    assert_eq!(&expected, log_events.items());
}

#[test]
fn test_is_same() {
    // same length
    let log_events = LogEvents::new(get_events(0, 2));
    let same_log_events = LogEvents::new(get_events(0, 2));
    let diff_log_events = LogEvents::new(get_events(1, 3));
    assert!(log_events.is_same(&same_log_events));
    assert!(!log_events.is_same(&diff_log_events));

    // different length
    let diff_log_events = LogEvents::new(get_events(0, 1));
    assert!(!log_events.is_same(&diff_log_events));

    // more items
    let log_events = LogEvents::new(get_events(0, 2));
    let mut more_events = get_events(0, 3);
    more_events.remove(1);
    let diff_log_events = LogEvents::new(more_events);
    assert!(!log_events.is_same(&diff_log_events));
}

#[test]
fn logevents_test_push_items() {
    let mut log_events = LogEvents::new(vec![]);
    let mut events = get_events(1, 2);
    log_events.push_items(&mut events, false);
    let mut events = get_events(2, 4);
    log_events.push_items(&mut events, false);
    let expected = LogEvents::new(get_events(1, 4));
    assert_eq!(expected.items().len(), log_events.items().len());
    for (i, val) in log_events.items().iter().enumerate() {
        assert_eq!(expected.items().get(i).unwrap(), val);
    }

    // has more item
    let mut log_events = LogEvents::new(get_events(0, 2));
    let mut events = get_events(0, 5);
    log_events.push_items(&mut events, false);
    let expected = LogEvents::new(get_events(0, 5));
    assert_eq!(expected.items().len(), log_events.items().len());
    for (i, val) in log_events.items().iter().enumerate() {
        assert_eq!(expected.items().get(i).unwrap(), val);
    }
}

#[test]
fn test_push_items_merge_idempotent() {
    // pushing the same overlapping page twice appends nothing new
    let mut log_events = LogEvents::new(get_events(0, 3));
    let mut page = get_events(1, 5);
    log_events.push_items(&mut page, false);
    assert_eq!(5, log_events.items().len());
    let mut page_again = get_events(1, 5);
    log_events.push_items(&mut page_again, false);
    assert_eq!(5, log_events.items().len());
    for (i, val) in log_events.items().iter().enumerate() {
        assert_eq!(Some(i.to_string()), val.event_id);
    }
}

#[test]
fn test_push_items_no_duplicate_ids() {
    // overlapping continuation pages never make an id appear twice
    let mut log_events = LogEvents::new(vec![]);
    let mut first = get_events(0, 4);
    log_events.push_items(&mut first, false);
    let mut second = get_events(2, 8);
    log_events.push_items(&mut second, false);
    let mut third = get_events(7, 9);
    log_events.push_items(&mut third, false);
    let items = log_events.items();
    assert_eq!(9, items.len());
    for i in 0..items.len() {
        for j in (i + 1)..items.len() {
            assert_ne!(items[i].event_id, items[j].event_id);
        }
    }
}

#[test]
fn test_push_items_open_all() {
    // a page pushed with open_all expands exactly the appended rows
    let mut log_events = LogEvents::new(get_events(0, 2));
    let mut page = get_events(1, 4);
    log_events.push_items(&mut page, true);
    assert_eq!(4, log_events.items().len());
    assert_eq!(&vec![2usize, 3usize], log_events.opened_idx());
}
