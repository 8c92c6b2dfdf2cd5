use megane::status_bar_state::StatusBarState;

#[test]
fn tset_new() {
    let result = StatusBarState::new(String::from("test message"));
    let expect = StatusBarState { message: String::from("test message") };
    assert_eq!(expect.message, result.message);
}
