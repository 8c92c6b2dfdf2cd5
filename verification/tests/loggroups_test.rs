use megane::loggroups::LogGroups;
use megane::records::LogGroupRecord;

fn get_log_groups(from: usize, to: usize, has_more: bool) -> Vec<LogGroupRecord> {
    let mut groups = vec![];
    for i in from..=to {
        groups.push(LogGroupRecord {
            arn: Some(i.to_string()),
            log_group_name: Some(format!("log_group_{}", i)),
        });
    }
    if has_more {
        groups.push(LogGroupRecord {
            arn: Some(String::from("more")),
            log_group_name: Some(String::from("More...")),
        });
    }
    groups
}

#[test]
fn test_setter() {
    let mut log_group_list = LogGroups::new(get_log_groups(0, 2, false));
    let expected = LogGroups::new(get_log_groups(98, 100, false));
    log_group_list.set_items(get_log_groups(98, 100, false));
    assert_eq!(expected.get_item(0), log_group_list.get_item(0));
    assert_eq!(expected.get_item(1), log_group_list.get_item(1));
    assert_eq!(expected.get_item(2), log_group_list.get_item(2));
}

#[test]
fn test_getter() {
    let log_groups = LogGroups::new(get_log_groups(0, 4, false));
    let result = log_groups.get_log_group_name(2).unwrap();
    assert_eq!(String::from("log_group_2"), result);
    let result = log_groups.get_log_group_name(10);
    assert!(result.is_none());
}

#[test]
fn test_has_more_item() {
    let log_groups = LogGroups::new(get_log_groups(0, 1, true));
    assert!(log_groups.has_more_items());
    let log_groups = LogGroups::new(get_log_groups(0, 1, false));
    assert_eq!(false, log_groups.has_more_items());
    let log_groups = LogGroups::new(vec![]);
    assert_eq!(false, log_groups.has_more_items());
}

#[test]
fn test_filter_items() {
    let mut log_groups = LogGroups::new(get_log_groups(0, 3, true));
    log_groups.filter_items("log_group_");
    assert_eq!(4, log_groups.items().len());
    // a record without a name never matches
    let mut items = get_log_groups(0, 3, false);
    items[0].log_group_name = None;
    let mut log_groups = LogGroups::new(items);
    log_groups.filter_items("log_group_");
    assert_eq!(3, log_groups.items().len());
}

#[test]
fn loggroups_test_push_items() {
    let mut log_groups = LogGroups::new(get_log_groups(0, 2, true));
    let mut groups = get_log_groups(3, 5, false);
    log_groups.push_items(&mut groups, true);
    let expected = LogGroups::new(get_log_groups(0, 5, true));
    assert_eq!(expected.items(), log_groups.items());

    let mut log_groups = LogGroups::new(get_log_groups(0, 2, true));
    let mut groups = get_log_groups(3, 5, false);
    log_groups.push_items(&mut groups, false);
    let expected = LogGroups::new(get_log_groups(0, 5, false));
    assert_eq!(expected.items(), log_groups.items());
}

#[test]
fn test_sentinel_placement_scenario() {
    // with more pages reported the sentinel stands last and only last;
    // without, no sentinel remains anywhere
    let mut log_groups = LogGroups::new(vec![]);
    let mut page = get_log_groups(0, 2, false);
    log_groups.push_items(&mut page, true);
    assert!(log_groups.has_more_items());
    let items = log_groups.items();
    assert_eq!(4, items.len());
    for i in 0..items.len() - 1 {
        assert_ne!(Some(String::from("more")), items[i].arn);
    }
    let mut page = get_log_groups(3, 5, false);
    log_groups.push_items(&mut page, false);
    assert!(!log_groups.has_more_items());
    for item in log_groups.items() {
        assert_ne!(Some(String::from("more")), item.arn);
    }
}

#[test]
fn test_push_items_keeps_trailing_real_record() {
    // only a trailing sentinel is stripped; a listing ending with a real
    // group keeps it
    let mut log_groups = LogGroups::new(get_log_groups(0, 2, false));
    let mut groups = get_log_groups(3, 5, false);
    log_groups.push_items(&mut groups, false);
    let expected = LogGroups::new(get_log_groups(0, 5, false));
    assert_eq!(expected.items(), log_groups.items());
}

#[test]
fn test_get_all_names() {
    let log_groups = LogGroups::new(vec![
        LogGroupRecord { arn: Some(String::from("0")), log_group_name: Some(String::from("a")) },
        LogGroupRecord { arn: Some(String::from("1")), log_group_name: None },
        LogGroupRecord { arn: Some(String::from("2")), log_group_name: Some(String::from("b")) },
    ]);
    assert_eq!(vec![String::from("a"), String::from("b")], log_groups.get_all_names());
}
