use megane::keymap::{str_to_chars, KeyCode, KeyEventWrapper, KeyMaps, KeyModifier};
use megane::textbox::TextBox;
use megane::utils::key_maps_stringify;

#[test]
fn textbox_test_handle_event() {
    let mut textbox = TextBox::new(true);
    textbox.input = str_to_chars("input");
    assert_eq!(0, textbox.cursor);
    assert!(textbox.handle_event(KeyCode::Right));
    assert_eq!(1, textbox.cursor);
    assert!(textbox.handle_event(KeyCode::Left));
    assert_eq!(0, textbox.cursor);
    textbox.cursor = 4;
    assert!(textbox.handle_event(KeyCode::Backspace));
    assert_eq!("inpt".to_string(), textbox.get_input());
    assert_eq!(3, textbox.cursor);
}

#[test]
fn test_textbox_typing() {
    let mut textbox = TextBox::new(true);
    for c in "abc".chars() {
        assert!(textbox.handle_event(KeyCode::Char(c)));
    }
    assert_eq!("abc".to_string(), textbox.get_input());
    assert_eq!("abc|".to_string(), textbox.get_text_to_show());
    assert!(textbox.handle_event(KeyCode::Left));
    assert_eq!("ab|c".to_string(), textbox.get_text_to_show());
    // an unselected box ignores keys
    textbox.deselect();
    assert!(!textbox.handle_event(KeyCode::Char('z')));
    assert_eq!("abc".to_string(), textbox.get_input());
}

#[test]
fn test_push_key_maps() {
    // selected
    let textbox = TextBox::new(true);
    let mut maps = KeyMaps::new();
    textbox.push_key_maps(&mut maps);
    let rendered = key_maps_stringify(&maps);
    assert!(rendered.contains("Move cursor"));
    assert!(rendered.contains("[BackSpace]Delete char"));
    // not selected
    let textbox = TextBox::new(false);
    let mut maps = KeyMaps::new();
    textbox.push_key_maps(&mut maps);
    assert_eq!(0, maps.len());
    // the selected bindings are found under their keys
    let textbox = TextBox::new(true);
    let mut maps = KeyMaps::new();
    textbox.push_key_maps(&mut maps);
    let mut found_backspace = false;
    for i in 0..maps.len() {
        let entry = maps.entry(i);
        if entry.0 == KeyEventWrapper::new(KeyCode::Backspace, KeyModifier::Plain) {
            assert_eq!("Delete char", entry.1.as_str());
            found_backspace = true;
        }
    }
    assert!(found_backspace);
}
