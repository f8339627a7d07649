use text_input::hook::{
    classify, rgb, Action, Brush, LayoutHook, Notification, COLOR_WINDOW, FRAME_REFRESH_FLAGS,
    SWP_FRAMECHANGED, SWP_NOMOVE, SWP_NOSIZE, WM_NCCALCSIZE, WM_NCPAINT, WM_SIZE,
};

#[test]
fn rgb_packs_red_low() {
    assert_eq!(rgb(1, 2, 3), 0x030201);
    assert_eq!(rgb(255, 0, 0), 0xFF);
    assert_eq!(rgb(0, 0, 255), 0xFF0000);
}

#[test]
fn no_colour_uses_window_background() {
    let h = LayoutHook::new(None);
    assert_eq!(h.brush, Brush::System(COLOR_WINDOW));
    assert_eq!(h.respond(Notification::Paint), Action::FillPadding(Brush::System(5)));
}

#[test]
fn explicit_colour_is_painted_exactly() {
    let h = LayoutHook::new(Some([0x12, 0x34, 0x56]));
    assert_eq!(h.brush, Brush::Solid(0x563412));
    assert_eq!(h.respond(Notification::Paint), Action::FillPadding(Brush::Solid(0x563412)));
}

#[test]
fn classify_tells_messages_apart() {
    assert_eq!(classify(WM_NCCALCSIZE, 1), Notification::CalcSize { adjust: true });
    assert_eq!(classify(WM_NCCALCSIZE, 0), Notification::CalcSize { adjust: false });
    assert_eq!(classify(WM_NCPAINT, 0), Notification::Paint);
    assert_eq!(classify(WM_SIZE, 0), Notification::Resized);
    assert_eq!(classify(0x000F, 0), Notification::Other);
}

#[test]
fn guard_flag_false_passes_through() {
    let h = LayoutHook::new(None);
    assert_eq!(h.respond(Notification::CalcSize { adjust: false }), Action::PassThrough);
    assert_eq!(h.respond(Notification::CalcSize { adjust: true }), Action::CenterText);
    assert_eq!(h.respond(Notification::Other), Action::PassThrough);
}

#[test]
fn resize_refreshes_frame() {
    let h = LayoutHook::new(Some([1, 2, 3]));
    assert_eq!(h.respond(Notification::Resized), Action::RefreshFrame(0x0223));
    assert_eq!(FRAME_REFRESH_FLAGS & SWP_FRAMECHANGED, SWP_FRAMECHANGED);
    assert_eq!(FRAME_REFRESH_FLAGS & (SWP_NOMOVE | SWP_NOSIZE), SWP_NOMOVE | SWP_NOSIZE);
}

#[test]
fn only_solid_brushes_are_released() {
    assert!(LayoutHook::new(Some([9, 9, 9])).releases_brush());
    assert!(!LayoutHook::new(None).releases_brush());
}
