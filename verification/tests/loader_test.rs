use megane::loader::Loader;

#[test]
fn test_get_char() {
    let mut loader = Loader::new("01234".to_string());
    assert_eq!('0', loader.get_char());
    assert_eq!('1', loader.get_char());
    assert_eq!('2', loader.get_char());
    assert_eq!('3', loader.get_char());
    assert_eq!('4', loader.get_char());
    assert_eq!('0', loader.get_char());
}
