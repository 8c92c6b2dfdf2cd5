use megane::search_state::{SearchMode, SearchState};

#[test]
fn test_get_timestamps() {
    // tail
    let mode = SearchMode::Tail;
    assert_eq!((None, None), mode.get_timestamps());
    // presets, against a fixed clock reading
    let now: i64 = 1_609_426_800_000;
    assert_eq!(
        (Some(now - 60 * 1000), None),
        SearchMode::OneMinute.resolve_range(now)
    );
    assert_eq!(
        (Some(now - 30 * 60 * 1000), None),
        SearchMode::ThirtyMinutes.resolve_range(now)
    );
    assert_eq!(
        (Some(now - 60 * 60 * 1000), None),
        SearchMode::OneHour.resolve_range(now)
    );
    assert_eq!(
        (Some(now - 12 * 60 * 60 * 1000), None),
        SearchMode::TwelveHours.resolve_range(now)
    );
    // presets resolved against the live clock leave the upper bound open
    let (from, to) = SearchMode::OneMinute.get_timestamps();
    assert!(from.is_some());
    assert!(to.is_none());
    // custom
    let to = 1_609_426_800_000i64;
    let from = to - 3 * 24 * 60 * 60 * 1000;
    let mode = SearchMode::FromTo(Some(from), Some(to));
    assert_eq!((Some(from), Some(to)), mode.get_timestamps());
}

#[test]
fn test_one_hour_window() {
    // an hour before now, upper end open
    let now: i64 = 42_000_000_000;
    let (from, to) = SearchMode::OneHour.resolve_range(now);
    assert_eq!(Some(now - 3_600_000), from);
    assert_eq!(None, to);
}

#[test]
fn test_fmt() {
    assert_eq!("Tail", SearchMode::Tail.label().as_str());
    assert_eq!("1 minute", SearchMode::OneMinute.label().as_str());
    assert_eq!("30 minutes", SearchMode::ThirtyMinutes.label().as_str());
    assert_eq!("1 hour", SearchMode::OneHour.label().as_str());
    assert_eq!("12 hours", SearchMode::TwelveHours.label().as_str());
    assert_eq!("~", SearchMode::FromTo(None, None).label().as_str());
    // an explicit bound renders as chrono renders the same timestamp
    let secs: i64 = 1_609_426_800;
    let expected = chrono::DateTime::<chrono::Utc>::from_timestamp(secs, 0)
        .unwrap()
        .naive_utc()
        .to_string();
    let label = SearchMode::FromTo(Some(secs * 1000), None).label();
    assert_eq!(format!("{}~", expected), label);
}

#[test]
fn test_search_state_equality() {
    let a = SearchState::new(String::from("q"), SearchMode::Tail);
    let b = SearchState::new(String::from("q"), SearchMode::Tail);
    let c = SearchState::new(String::from("q"), SearchMode::OneHour);
    assert!(a == b);
    assert!(a != c);
}
