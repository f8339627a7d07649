use text_input::geometry::{calc_client, can_adjust, center_offset, padding_strips, Point, Rect};

fn rect(left: i32, top: i32, right: i32, bottom: i32) -> Rect {
    Rect { left, top, right, bottom }
}

#[test]
fn center_offset_splits_spare_height() {
    assert_eq!(center_offset(rect(0, 0, 100, 25), 16), 0);
    assert_eq!(center_offset(rect(0, 0, 100, 30), 14), 4);
    assert_eq!(center_offset(rect(5, 10, 105, 35), 20), -2);
}

#[test]
fn center_offset_rounds_toward_zero() {
    // 10 - 17 = -7, halved toward zero is -3, less the border is -7.
    assert_eq!(center_offset(rect(0, 0, 50, 10), 17), -7);
    assert_eq!(center_offset(rect(0, 0, 50, 10), 16), -7);
}

#[test]
fn center_is_not_negative_with_room_for_borders() {
    for h in 0..40 {
        let w = rect(0, 0, 80, h + 8);
        assert!(center_offset(w, h) >= 0);
    }
}

#[test]
fn calc_client_shrinks_equally() {
    let w = rect(10, 20, 110, 45);
    let r = calc_client(true, w, w, 13);
    assert_eq!(r, rect(10, 22, 110, 43));
    assert_eq!(r.top - w.top, w.bottom - r.bottom);
}

#[test]
fn calc_client_without_request_is_unchanged() {
    let proposed = rect(3, 4, 50, 60);
    let window = rect(0, 0, 200, 300);
    assert_eq!(calc_client(false, proposed, window, 16), proposed);
}

#[test]
fn can_adjust_detects_overflow() {
    let w = rect(0, 0, 100, 30);
    assert!(can_adjust(w, w, 14));
    let huge = rect(0, i32::MIN, 10, i32::MAX);
    assert!(!can_adjust(rect(0, i32::MAX - 1, 10, i32::MAX), huge, 0));
}

#[test]
fn padding_strips_span_client_width() {
    let client = rect(0, 0, 98, 21);
    let (top, bottom) = padding_strips(client, Point { x: -1, y: -2 }, Point { x: 99, y: 23 });
    assert_eq!(top, rect(0, -2, 98, 0));
    assert_eq!(bottom, rect(0, 21, 98, 23));
}

#[test]
fn painted_strips_cover_reserved_padding() {
    let window = rect(0, 0, 100, 30);
    let area = calc_client(true, window, window, 14);
    assert_eq!(area, rect(0, 4, 100, 26));
    let client = rect(0, 0, area.right - area.left, area.bottom - area.top);
    let tl = Point { x: window.left - area.left, y: window.top - area.top };
    let br = Point { x: window.right - area.left, y: window.bottom - area.top };
    let (top, bottom) = padding_strips(client, tl, br);
    assert_eq!(top.top + area.top, window.top);
    assert_eq!(top.bottom + area.top, area.top);
    assert_eq!(bottom.top + area.top, area.bottom);
    assert_eq!(bottom.bottom + area.top, window.bottom);
    assert_eq!(top.bottom - top.top, 4);
    assert_eq!(bottom.bottom - bottom.top, 4);
}
