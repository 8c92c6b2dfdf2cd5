use megane::utils::{get_inner_area, Rect};

#[test]
fn test_get_inner_area() {
    let rect = Rect { width: 100, height: 100, x: 0, y: 0 };
    let expected = Rect { width: 98, height: 98, x: 1, y: 1 };
    assert_eq!(expected, get_inner_area(&rect));
}
