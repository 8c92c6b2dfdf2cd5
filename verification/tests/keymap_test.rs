use megane::keymap::{compare_keys, KeyCode, KeyEventWrapper, KeyMaps, KeyModifier};
use megane::utils::key_maps_stringify;

fn test_case_to_string(code: KeyCode, modifier: KeyModifier, expected: &str) {
    assert_eq!(
        expected.to_string(),
        KeyEventWrapper::new(code, modifier).label(),
    );
}

#[test]
fn test_to_string() {
    test_case_to_string(KeyCode::Char('c'), KeyModifier::Control, "C+Ctrl");
    test_case_to_string(KeyCode::Char(' '), KeyModifier::Plain, "SPC");
    test_case_to_string(KeyCode::Backspace, KeyModifier::Plain, "BackSpace");
}

#[test]
fn test_cmp() {
    // A+Ctrl < B+Ctrl
    let one = KeyEventWrapper::new(KeyCode::Char('a'), KeyModifier::Control);
    let other = KeyEventWrapper::new(KeyCode::Char('b'), KeyModifier::Control);
    assert_eq!(std::cmp::Ordering::Less, compare_keys(&one, &other));
    assert_eq!(std::cmp::Ordering::Greater, compare_keys(&other, &one));
    // Z+Ctrl == Z+Ctrl
    let one = KeyEventWrapper::new(KeyCode::Char('z'), KeyModifier::Control);
    let other = KeyEventWrapper::new(KeyCode::Char('z'), KeyModifier::Control);
    assert_eq!(std::cmp::Ordering::Equal, compare_keys(&one, &other));
    assert_eq!(std::cmp::Ordering::Equal, compare_keys(&other, &one));
    // G+Ctrl > G
    let one = KeyEventWrapper::new(KeyCode::Char('g'), KeyModifier::Control);
    let other = KeyEventWrapper::new(KeyCode::Char('g'), KeyModifier::Plain);
    assert_eq!(std::cmp::Ordering::Greater, compare_keys(&one, &other));
    assert_eq!(std::cmp::Ordering::Less, compare_keys(&other, &one));
}

#[test]
fn test_key_maps_string() {
    let mut input = KeyMaps::new();
    input.insert(
        KeyEventWrapper::new(KeyCode::Char('c'), KeyModifier::Control),
        String::from("test description 1"),
    );
    input.insert(
        KeyEventWrapper::new(KeyCode::Char(' '), KeyModifier::Plain),
        String::from("test description 2"),
    );
    input.insert(
        KeyEventWrapper::new(KeyCode::Backspace, KeyModifier::Plain),
        String::from("test description 3"),
    );
    input.insert(
        KeyEventWrapper::new(KeyCode::Char('c'), KeyModifier::Plain),
        String::from("test description 4"),
    );
    let result = key_maps_stringify(&input);
    let expected = String::from(
        "[BackSpace]test description 3/[C]test description 4/[C+Ctrl]test description 1/[SPC]test description 2",
    );
    assert_eq!(expected, result);
}

#[test]
fn test_key_maps_replace() {
    // a binding filed under an already-present label replaces it
    let mut maps = KeyMaps::new();
    maps.insert(
        KeyEventWrapper::new(KeyCode::Char('x'), KeyModifier::Plain),
        String::from("first"),
    );
    maps.insert(
        KeyEventWrapper::new(KeyCode::Char('x'), KeyModifier::Plain),
        String::from("second"),
    );
    assert_eq!(1, maps.len());
    assert_eq!("[X]second", key_maps_stringify(&maps).as_str());
}
