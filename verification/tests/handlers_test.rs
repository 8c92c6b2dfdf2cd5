use megane::handlers::{
    LogEventEventHandler, LogGroupEventHandler, PagedFetchDecision, TailLogEventEventHandler,
};
use megane::logevents_state::LogEventsState;
use megane::loggroups_state::LogGroupsState;
use megane::records::{LogGroupRecord, LogRecord};
use megane::search_state::{SearchMode, SearchState};

fn page(from: usize, to: usize) -> Vec<LogRecord> {
    let mut events = vec![];
    for i in from..=to {
        events.push(LogRecord {
            event_id: Some(i.to_string()),
            message: Some(format!("log_event_{}", i)),
            timestamp: Some((i as i64) * 1000),
        });
    }
    events
}

#[test]
fn logevent_event_handler_test_test_run() {
    // a fetch command with a paged condition fetches and stores one page
    let mut handler = LogEventEventHandler::new();
    let mut state = LogEventsState::new();
    let condition = Some(SearchState::new(String::new(), SearchMode::TwelveHours));
    let decision = handler.on_fetch_command(&mut state, &condition, true);
    assert_eq!(PagedFetchDecision::BeginFetch(false), decision);
    assert!(state.is_fetching);
    let mut fetched = page(1, 5);
    handler.complete_fetch(&mut state, &mut fetched, Some(String::from("token")));
    assert!(!state.is_fetching);
    for i in 0..=4 {
        assert_eq!(
            Some(format!("log_event_{}", i + 1)),
            state.events.items().get(i).unwrap().message
        );
        assert_eq!(
            Some((i + 1).to_string()),
            state.events.items().get(i).unwrap().event_id
        );
    }
    // a tail condition is delegated, not fetched
    let tail_condition = Some(SearchState::new(String::new(), SearchMode::Tail));
    let decision = handler.on_fetch_command(&mut state, &tail_condition, false);
    assert_eq!(PagedFetchDecision::StartTail, decision);
    assert!(handler.is_tail);
    // the next paged condition orders the tail actor to stop first
    let decision = handler.on_fetch_command(&mut state, &condition, false);
    assert_eq!(PagedFetchDecision::BeginFetch(true), decision);
    assert!(!handler.is_tail);
}

#[test]
fn test_run_basis() {
    // start tail mode and fetch some logs
    let mut handler = TailLogEventEventHandler::new();
    let mut state = LogEventsState::new();
    let search_state = Some(SearchState::new(String::default(), SearchMode::TwelveHours));
    handler.on_start(&mut state, "log group name".to_string(), None, search_state);
    assert!(handler.tail_mode);
    let request = handler.on_tick_begin(&mut state);
    let (gname, token) = request.expect("the tick should start a fetch");
    assert_eq!("log group name", gname.as_str());
    assert_eq!(None, token);
    let mut fetched = page(1, 5);
    handler.on_tick_complete(&mut state, &mut fetched, None);
    for i in 0..=4 {
        assert_eq!(
            Some(format!("log_event_{}", i + 1)),
            state.events.items().get(i).unwrap().message
        );
        assert_eq!(
            Some((i + 1).to_string()),
            state.events.items().get(i).unwrap().event_id
        );
    }
    // the cursor follows the tail
    assert_eq!(Some(5), state.selected);
}

#[test]
fn test_run_stop() {
    // fetch some logs but stop tail mode and delete all fetched logs
    let mut handler = TailLogEventEventHandler::new();
    let mut state = LogEventsState::new();
    let search_state = Some(SearchState::new(String::default(), SearchMode::TwelveHours));
    handler.on_start(&mut state, "log group name".to_string(), None, search_state);
    let request = handler.on_tick_begin(&mut state);
    assert!(request.is_some());
    let mut fetched = page(1, 5);
    handler.on_tick_complete(&mut state, &mut fetched, None);
    assert_eq!(5, state.events.items().len());
    handler.on_stop(&mut state);
    assert!(state.events.items().is_empty());
    assert!(!handler.tail_mode);
}

#[test]
fn test_tick_while_fetching_is_dropped() {
    // a tick that lands while a fetch is outstanding starts nothing
    let mut handler = TailLogEventEventHandler::new();
    let mut state = LogEventsState::new();
    let search_state = Some(SearchState::new(String::default(), SearchMode::Tail));
    handler.on_start(&mut state, "group".to_string(), None, search_state);
    let first = handler.on_tick_begin(&mut state);
    assert!(first.is_some());
    assert!(state.is_fetching);
    // the first round trip has not come back yet
    let second = handler.on_tick_begin(&mut state);
    assert!(second.is_none());
    assert!(state.is_fetching);
    assert_eq!(0, state.events.items().len());
}

#[test]
fn loggroup_event_handler_test_test_run() {
    let handler = LogGroupEventHandler::new();
    let mut state = LogGroupsState::new();
    handler.on_fetch_begin(&mut state);
    assert!(state.is_fetching);
    let mut fetched = vec![];
    for i in 1..=3 {
        fetched.push(LogGroupRecord {
            arn: Some(i.to_string()),
            log_group_name: Some(format!("log_group_{}", i)),
        });
    }
    handler.on_fetch_complete(&mut state, &mut fetched);
    assert!(!state.is_fetching);
    assert_eq!(3, state.log_groups.items().len());
    for i in 0..3 {
        assert_eq!(
            Some(format!("log_group_{}", i + 1)),
            state.log_groups.items()[i].log_group_name
        );
    }
}

#[test]
fn test_merge_scenario_with_cursor() {
    // two overlapping pages, the second with a pagination token: the pane
    // ends with the four distinct records and the "more" marker armed
    let handler = LogEventEventHandler::new();
    let mut state = LogEventsState::new();
    let mut first = vec![
        LogRecord { event_id: Some("1".into()), message: None, timestamp: None },
        LogRecord { event_id: Some("2".into()), message: None, timestamp: None },
    ];
    handler.complete_fetch(&mut state, &mut first, None);
    assert!(state.next_token.is_none());
    let mut second = vec![
        LogRecord { event_id: Some("2".into()), message: None, timestamp: None },
        LogRecord { event_id: Some("3".into()), message: None, timestamp: None },
        LogRecord { event_id: Some("4".into()), message: None, timestamp: None },
    ];
    handler.complete_fetch(&mut state, &mut second, Some(String::from("x")));
    let ids: Vec<String> = state
        .events
        .items()
        .iter()
        .map(|r| r.event_id.clone().unwrap())
        .collect();
    assert_eq!(vec!["1", "2", "3", "4"], ids);
    assert_eq!(Some(String::from("x")), state.next_token);
}
