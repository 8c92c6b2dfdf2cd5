use megane::logevents::LogEvents;
use megane::logevents_state::LogEventsState;
use megane::records::LogRecord;

fn make_log_events(from: usize, to: usize, timestamp: i64) -> Vec<LogRecord> {
    let mut events = vec![];
    for i in from..=to {
        events.push(LogRecord {
            event_id: Some(i.to_string()),
            message: Some(format!("log_event_{}", i)),
            timestamp: Some(timestamp + (i as i64) * 1000),
        });
    }
    events
}

#[test]
fn logevents_state_test_new() {
    let mut state = LogEventsState::new();
    state.is_fetching = true;
    assert!(state.is_fetching);
}

#[test]
fn test_reset() {
    let mut state = LogEventsState::new();
    let mut events = vec![LogRecord { event_id: None, message: None, timestamp: None }];
    state.events.push_items(&mut events, false);
    let expected = LogEventsState::new();
    assert!(!state.events.is_same(&expected.events));
    state.reset();
    assert!(state.events.is_same(&expected.events));
}

#[test]
fn test_next() {
    let mut state = LogEventsState::new();
    state.next(); // None
    assert!(state.selected.is_none());
    state.events = LogEvents::new(make_log_events(0, 1, 0));
    state.next(); // Some(0)
    assert_eq!(Some(0), state.selected);
    state.next(); // Some(1) means last item's idx
    assert_eq!(Some(1), state.selected);
    state.next(); // Some(2) means 'more ...' item
    assert_eq!(Some(2), state.selected);
    state.next(); // Some(3) means that should fetch more events
    assert_eq!(Some(3), state.selected);
    state.next();
    assert_eq!(Some(3), state.selected);

    // no events
    state.events = LogEvents::new(vec![]);
    state.selected = Some(1);
    state.next();
    assert!(state.selected.is_none());
}

#[test]
fn test_next_by() {
    let mut state = LogEventsState::new();
    state.next_by(5); // None
    assert!(state.selected.is_none());
    state.events = LogEvents::new(make_log_events(0, 9, 0));
    state.next_by(5); // Some(4)
    assert_eq!(Some(4), state.selected);
    state.next_by(5); // Some(9) - last item
    assert_eq!(Some(9), state.selected);
    state.next_by(1); // Some(10) - 'more...' item
    assert_eq!(Some(10), state.selected);
    state.next_by(10); // Some(11) - fetch more items
    assert_eq!(Some(11), state.selected);
    state.next_by(10);
    assert_eq!(Some(11), state.selected);
}

#[test]
fn test_previous() {
    let mut state = LogEventsState::new();
    state.previous();
    assert!(state.selected.is_none());
    state.selected = Some(1);
    state.previous();
    assert_eq!(Some(0), state.selected);
    state.previous();
    assert_eq!(Some(0), state.selected);
}

#[test]
fn test_previous_by() {
    let mut state = LogEventsState::new();
    state.previous_by(10);
    assert!(state.selected.is_none());
    state.selected = Some(4);
    state.previous_by(2);
    assert_eq!(Some(2), state.selected);
    state.previous_by(10);
    assert_eq!(Some(0), state.selected);
}

#[test]
fn test_cursor_first() {
    let mut state = LogEventsState::new();
    state.selected = Some(4);
    state.cursor_first();
    assert_eq!(Some(0), state.selected);
}

#[test]
fn test_need_more_fetching() {
    let mut state = LogEventsState::new();
    assert!(!state.need_more_fetching());
    state.selected = Some(2);
    assert!(!state.need_more_fetching());
    state.events = LogEvents::new(make_log_events(0, 2, 0));
    assert!(!state.need_more_fetching());
    state.selected = Some(4);
    assert!(!state.need_more_fetching());
    state.next_token = Some(String::from("next token"));
    assert!(state.need_more_fetching());
}
