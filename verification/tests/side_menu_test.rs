use megane::keymap::KeyCode;
use megane::loggroups::LogGroups;
use megane::loggroups_state::LogGroupsState;
use megane::records::LogGroupRecord;
use megane::side_menu::SideMenu;

fn get_log_groups(from: usize, to: usize) -> Vec<LogGroupRecord> {
    let mut groups = vec![];
    for i in from..=to {
        groups.push(LogGroupRecord {
            arn: Some(i.to_string()),
            log_group_name: Some(format!("log_group_{}", i)),
        });
    }
    groups
}

#[test]
fn side_menu_test_handle_event() {
    let mut side_menu = SideMenu::new();
    let mut state = LogGroupsState::new();
    state.log_groups = LogGroups::new(get_log_groups(0, 3));
    state.filtered_log_groups = LogGroups::new(get_log_groups(0, 3));
    state.next();
    assert!(!side_menu.handle_event(KeyCode::Up, &mut state));
    assert!(!side_menu.handle_event(KeyCode::Down, &mut state));
    state.selected = Some(1);
    assert!(!side_menu.handle_event(KeyCode::Enter, &mut state));
    assert_eq!(vec![String::from("log_group_1")], side_menu.selected_log_groups().clone());
    assert!(!side_menu.handle_event(KeyCode::Char('a'), &mut state));
    assert!(!side_menu.handle_event(KeyCode::Char('b'), &mut state));
    assert_eq!(String::from("ab"), side_menu.query_string());
    assert!(!side_menu.handle_event(KeyCode::Backspace, &mut state));
    assert_eq!(String::from("a"), side_menu.query_string());
}
