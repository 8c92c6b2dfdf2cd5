use megane::search_info::SearchInfo;
use megane::search_state::{SearchMode, SearchState};

#[test]
fn test_search_info_state() {
    let mut info = SearchInfo::new(SearchState::new(String::from("abc"), SearchMode::Tail));
    assert_eq!("query: [abc], mode: [Tail]", info.get_msg().as_str());
    let other = SearchState::new(String::from("abc"), SearchMode::Tail);
    assert!(info.is_same_state(&other));
    let changed = SearchState::new(String::from("abc"), SearchMode::OneHour);
    assert!(!info.is_same_state(&changed));
    info.set_state(changed);
    assert_eq!("query: [abc], mode: [1 hour]", info.get_msg().as_str());
    assert_eq!(SearchMode::OneHour, info.get_state().mode);
}
