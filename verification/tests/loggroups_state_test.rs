use megane::loggroups::LogGroups;
use megane::loggroups_state::LogGroupsState;
use megane::records::LogGroupRecord;

fn make_log_groups(from: usize, to: usize) -> Vec<LogGroupRecord> {
    let mut groups = vec![];
    for i in from..=to {
        groups.push(LogGroupRecord {
            arn: Some(i.to_string()),
            log_group_name: Some(format!("log_group_{}", i)),
        });
    }
    groups
}

#[test]
fn loggroups_state_test_new() {
    let mut state = LogGroupsState::new();
    state.is_fetching = true;
    assert!(state.is_fetching);
}

#[test]
fn test_get_list_items() {
    let mut state = LogGroupsState::new();
    state.log_groups = LogGroups::new(make_log_groups(0, 3));
    state.filtered_log_groups = LogGroups::new(make_log_groups(0, 3));
    state.selection = vec![0, 2];
    let exp_item = vec![
        String::from("[X]log_group_0"),
        String::from("[ ]log_group_1"),
        String::from("[X]log_group_2"),
        String::from("[ ]log_group_3"),
    ];
    let (res_item, res_state) = state.get_list_items("", &vec![]);
    assert_eq!(exp_item, res_item);
    assert_eq!(None, res_state);
    let exp_item = vec![String::from("[X]log_group_0")];
    let (res_item, res_state) = state.get_list_items("0", &vec![]);
    assert_eq!(exp_item, res_item);
    assert_eq!(None, res_state);
    let exp_item = vec![String::from("[X]log_group_0"), String::from("[ ]log_group_1")];
    let (res_item, res_state) = state.get_list_items("0", &vec!["log_group_1".to_string()]);
    assert_eq!(exp_item, res_item);
    assert_eq!(None, res_state);
}

#[test]
fn test_select() {
    let mut state = LogGroupsState::new();
    state.selection = vec![0, 2];
    state.select(0);
    state.select(0);
    state.select(1);
    state.select(2);
    state.select(3);
    state.select(4);
    // don't add idx 5 because MAX_LOG_GROUP_SELECTION is 4
    state.select(5);
    let expect = vec![0, 1, 3, 4];
    assert_eq!(expect, state.selection);
}

#[test]
fn test_get_selected_log_group_names() {
    let mut state = LogGroupsState::new();
    state.log_groups = LogGroups::new(make_log_groups(0, 5));
    state.filtered_log_groups = LogGroups::new(make_log_groups(0, 5));
    state.selection = vec![0, 2, 4];
    let result = state.get_selected_log_group_names();
    let expect = vec![
        String::from("log_group_0"),
        String::from("log_group_2"),
        String::from("log_group_4"),
    ];
    assert_eq!(expect, result);
}

#[test]
fn test_state_iterate() {
    let mut state = LogGroupsState::new();
    state.log_groups = LogGroups::new(make_log_groups(0, 2));
    state.filtered_log_groups = LogGroups::new(make_log_groups(0, 2));
    state.next();
    state.next();
    assert_eq!(Some(1), state.selected);
    state.previous();
    assert_eq!(Some(0), state.selected);
    let mut state = LogGroupsState::new();
    state.log_groups = LogGroups::new(make_log_groups(0, 2));
    state.filtered_log_groups = LogGroups::new(make_log_groups(0, 2));
    state.next();
    state.log_groups = LogGroups::new(vec![]);
    state.filtered_log_groups = LogGroups::new(vec![]);
    state.next();
    assert_eq!(None, state.selected);
    state.previous();
    assert_eq!(None, state.selected);
    state.next();
    assert_eq!(None, state.selected);
}

#[test]
fn test_selection_capped_at_four() {
    // a fifth group cannot be selected, so no fifth lane is ever asked for
    let mut state = LogGroupsState::new();
    state.log_groups = LogGroups::new(make_log_groups(0, 5));
    state.filtered_log_groups = LogGroups::new(make_log_groups(0, 5));
    for i in 0..4 {
        state.select(i);
    }
    assert_eq!(vec![0, 1, 2, 3], state.selection);
    state.select(4);
    assert_eq!(vec![0, 1, 2, 3], state.selection);
    assert!(state.get_selected_log_group_names().len() <= 4);
}
