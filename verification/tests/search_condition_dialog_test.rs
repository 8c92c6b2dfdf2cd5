use megane::keymap::KeyCode;
use megane::search_condition_dialog::{
    CustomInputMode, Radio, Radios, SearchConditionDialog,
};
use megane::search_state::{SearchMode, SearchState};

fn default_dialog() -> SearchConditionDialog {
    SearchConditionDialog::new(SearchState::new(String::new(), SearchMode::Tail))
}

fn simulate_input(dialog: &mut SearchConditionDialog, input: &str, is_from: bool) {
    for c in input.chars() {
        assert!(dialog.handle_event(KeyCode::Char(c)));
    }
    if is_from {
        assert_eq!(input.to_string(), dialog.term_from.get_input());
    } else {
        assert_eq!(input.to_string(), dialog.term_to.get_input());
    }
}

#[test]
fn test_radio_select() {
    let mut radio = Radio::new("test_radio", false);
    assert!(!radio.is_selected);
    radio.select();
    assert!(radio.is_selected);
    radio.deselect();
    assert!(!radio.is_selected);
}

#[test]
fn test_radio_fmt() {
    let radio_1 = Radio::new("radio_1", false);
    let radio_2 = Radio::new("radio_2", true);
    assert_eq!(String::from("[ ] radio_1"), radio_1.text());
    assert_eq!(String::from("[*] radio_2"), radio_2.text());
}

#[test]
fn test_radios_select() {
    let mut radios = Radios::new();
    // initial state check
    assert!(radios.tail.is_selected);
    assert!(!radios.one_minute.is_selected);
    assert!(!radios.thirty_minutes.is_selected);
    assert!(!radios.one_hour.is_selected);
    assert!(!radios.twelve_hourse.is_selected);
    assert!(!radios.custom.is_selected);
    // select
    radios.select(&SearchMode::OneMinute);
    assert!(!radios.tail.is_selected);
    assert!(radios.one_minute.is_selected);
    assert!(!radios.thirty_minutes.is_selected);
    assert!(!radios.one_hour.is_selected);
    assert!(!radios.twelve_hourse.is_selected);
    assert!(!radios.custom.is_selected);
    radios.select(&SearchMode::ThirtyMinutes);
    assert!(!radios.tail.is_selected);
    assert!(!radios.one_minute.is_selected);
    assert!(radios.thirty_minutes.is_selected);
    assert!(!radios.one_hour.is_selected);
    assert!(!radios.twelve_hourse.is_selected);
    assert!(!radios.custom.is_selected);
    radios.select(&SearchMode::OneHour);
    assert!(!radios.tail.is_selected);
    assert!(!radios.one_minute.is_selected);
    assert!(!radios.thirty_minutes.is_selected);
    assert!(radios.one_hour.is_selected);
    assert!(!radios.twelve_hourse.is_selected);
    assert!(!radios.custom.is_selected);
    radios.select(&SearchMode::TwelveHours);
    assert!(!radios.tail.is_selected);
    assert!(!radios.one_minute.is_selected);
    assert!(!radios.thirty_minutes.is_selected);
    assert!(!radios.one_hour.is_selected);
    assert!(radios.twelve_hourse.is_selected);
    assert!(!radios.custom.is_selected);
    radios.select(&SearchMode::FromTo(None, None));
    assert!(!radios.tail.is_selected);
    assert!(!radios.one_minute.is_selected);
    assert!(!radios.thirty_minutes.is_selected);
    assert!(!radios.one_hour.is_selected);
    assert!(!radios.twelve_hourse.is_selected);
    assert!(radios.custom.is_selected);
    radios.select(&SearchMode::Tail);
    assert!(radios.tail.is_selected);
    assert!(!radios.one_minute.is_selected);
    assert!(!radios.thirty_minutes.is_selected);
    assert!(!radios.one_hour.is_selected);
    assert!(!radios.twelve_hourse.is_selected);
    assert!(!radios.custom.is_selected);
}

#[test]
fn test_radios_get_radio() {
    let radios = Radios::new();
    assert_eq!("[*] tail".to_string(), radios.get_radio(&SearchMode::Tail));
    assert_eq!(
        "[ ] 1 minute".to_string(),
        radios.get_radio(&SearchMode::OneMinute)
    );
    assert_eq!(
        "[ ] 30 minutes".to_string(),
        radios.get_radio(&SearchMode::ThirtyMinutes)
    );
    assert_eq!(
        "[ ] 1 hour".to_string(),
        radios.get_radio(&SearchMode::OneHour)
    );
    assert_eq!(
        "[ ] 12 hours".to_string(),
        radios.get_radio(&SearchMode::TwelveHours)
    );
    assert_eq!(
        "[ ] custom (from to)".to_string(),
        radios.get_radio(&SearchMode::FromTo(None, None))
    );
}

#[test]
fn test_dialog_get_state() {
    let mut dialog = default_dialog();
    let expected = SearchState::new(String::new(), SearchMode::Tail);
    assert_eq!(expected, dialog.get_state().unwrap());
    // custom term
    let expected = SearchState::new(String::default(), SearchMode::FromTo(None, None));
    dialog.focus = 6;
    dialog.select();
    dialog.radios.select(&SearchMode::FromTo(None, None));
    assert_eq!(expected, dialog.get_state().unwrap());
}

#[test]
fn test_dialog_next() {
    let mut dialog = default_dialog();
    assert_eq!(0, dialog.focus);
    dialog.next();
    assert_eq!(1, dialog.focus);
    dialog.focus = 6;
    dialog.next();
    assert_eq!(6, dialog.focus);
}

#[test]
fn test_dialog_previous() {
    let mut dialog = default_dialog();
    dialog.focus = 6;
    dialog.previous();
    assert_eq!(5, dialog.focus);
    dialog.focus = 0;
    dialog.previous();
    assert_eq!(0, dialog.focus);
}

#[test]
fn test_dialog_select() {
    let mut dialog = default_dialog();
    let expected = default_dialog();
    // no change
    dialog.select();
    assert_eq!(expected.focus, dialog.focus);
    assert_eq!(expected.state, dialog.state);
    // change mode to ThirtyMinutes and select the correct radio
    dialog.focus = 3;
    dialog.select();
    assert_eq!(3, dialog.focus);
    assert_eq!(SearchMode::ThirtyMinutes, dialog.state.mode);
    assert!(dialog.radios.thirty_minutes.is_selected);
}

#[test]
fn test_dialog_toggle_term_mode() {
    let mut dialog = default_dialog();
    dialog.term_mode = CustomInputMode::FromInput;
    dialog.toggle_term_mode();
    assert_eq!(CustomInputMode::ToInput, dialog.term_mode);
    dialog.toggle_term_mode();
    assert_eq!(CustomInputMode::Inactive, dialog.term_mode);
    dialog.toggle_term_mode();
    assert_eq!(CustomInputMode::FromInput, dialog.term_mode);
}

#[test]
fn test_dialog_handle_event_basis() {
    let mut dialog = default_dialog();
    assert_eq!(0, dialog.focus);
    assert_eq!(SearchState::new("".to_string(), SearchMode::Tail), dialog.state);
    // Down
    assert!(dialog.handle_event(KeyCode::Down));
    assert_eq!(1, dialog.focus);
    // Space
    assert!(dialog.handle_event(KeyCode::Down));
    assert!(dialog.handle_event(KeyCode::Char(' ')));
    assert!(dialog.radios.one_minute.is_selected);
    assert_eq!(SearchMode::OneMinute, dialog.state.mode);
    // Up
    assert!(dialog.handle_event(KeyCode::Up));
    assert_eq!(1, dialog.focus);
    // Tab
    dialog.focus = 6;
    assert_eq!(CustomInputMode::Inactive, dialog.term_mode);
    assert!(dialog.handle_event(KeyCode::Tab));
    assert_eq!(CustomInputMode::FromInput, dialog.term_mode);
}

#[test]
fn test_dialog_get_timestamps_error() {
    // a term box whose text is not a datetime refuses the range
    let mut dialog = default_dialog();
    dialog.focus = 6;
    dialog.select();
    assert!(dialog.handle_event(KeyCode::Tab));
    simulate_input(&mut dialog, "not a date", true);
    assert!(dialog.get_timestamps().is_err());
    assert!(dialog.get_state().is_err());
}

#[test]
fn test_dialog_handle_event_input_custom_term() {
    let mut dialog = default_dialog();
    dialog.focus = 6;
    dialog.select();
    // input from
    assert!(dialog.handle_event(KeyCode::Tab));
    assert_eq!(CustomInputMode::FromInput, dialog.term_mode);
    simulate_input(&mut dialog, "2021-01-01 00:00:01", true);
    // input to
    assert!(dialog.handle_event(KeyCode::Tab));
    assert_eq!(CustomInputMode::ToInput, dialog.term_mode);
    simulate_input(&mut dialog, "2021-01-10 00:00:01", false);
    // get the timestamps
    let (from_timestamp, to_timestamp) = dialog.get_timestamps().unwrap();
    let millis_in_nine_days: i64 = 9 * 24 * 60 * 60 * 1000;
    assert_eq!(
        millis_in_nine_days,
        to_timestamp.unwrap() - from_timestamp.unwrap()
    );
}
