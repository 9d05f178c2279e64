use ytermusic::layout::{rect_contains, relative_pos, split_x, split_y, split_y_start, Rect};

fn r(x: u16, y: u16, width: u16, height: u16) -> Rect {
    Rect { x, y, width, height }
}

#[test]
fn splits() {
    assert_eq!(split_y_start(r(0, 0, 80, 24), 3), [r(0, 0, 80, 3), r(0, 3, 80, 21)]);
    assert_eq!(split_y(r(0, 0, 80, 24), 3), [r(0, 0, 80, 21), r(0, 21, 80, 3)]);
    assert_eq!(split_x(r(2, 1, 80, 24), 10), [r(2, 1, 70, 24), r(72, 1, 10, 24)]);
}

#[test]
fn containment_and_relative_position() {
    let a = r(0, 0, 70, 21);
    assert!(rect_contains(&a, 1, 1, 1));
    assert!(rect_contains(&a, 69, 20, 1));
    assert!(!rect_contains(&a, 0, 5, 1));
    assert!(!rect_contains(&a, 70, 5, 1));
    assert!(!rect_contains(&r(0, 0, 1, 1), 0, 0, 1));
    assert_eq!(relative_pos(&a, 5, 7, 1), (4, 6));
}
