use text_input::text_input::{
    password_param, ControlHandle, Font, HTextAlign, NwgError, RawEventHandler, TextInput,
    TextInputFlags,
};

fn bound(h: usize) -> TextInput {
    let mut t = TextInput::default();
    t.handle = ControlHandle::Hwnd(h);
    t
}

#[test]
fn builder_defaults() {
    let b = TextInput::builder();
    assert_eq!(b.text, "");
    assert_eq!(b.size, (100, 25));
    assert_eq!(b.position, (0, 0));
    assert!(b.flags.is_none());
    assert_eq!(b.limit, 0);
    assert_eq!(b.password, None);
    assert_eq!(b.align, HTextAlign::Left);
    assert!(!b.readonly);
    assert!(b.font.is_none());
    assert!(b.parent.is_none());
    assert!(b.background_color.is_none());
}

#[test]
fn build_without_parent_fails() {
    let r = TextInput::builder().text("Hello").build();
    assert!(matches!(r, Err(NwgError::NoParent)));
}

#[test]
fn build_with_parent_plans_window() {
    let font = Font { handle: 99 };
    let q = TextInput::builder()
        .text("Hello")
        .size((120, 30))
        .position((5, 6))
        .limit(8)
        .password(Some('*'))
        .readonly(true)
        .font(Some(&font))
        .background_color(Some([1, 2, 3]))
        .parent(ControlHandle::Hwnd(7))
        .build()
        .ok()
        .unwrap();
    assert_eq!(q.class_name, "EDIT");
    assert_eq!(q.forced_flags, 0x00800000 | 0x0080 | 0x40000000);
    assert_eq!(q.flags, 0);
    assert!(q.show);
    assert_eq!(q.size, (120, 30));
    assert_eq!(q.position, (5, 6));
    assert_eq!(q.text, "Hello");
    assert_eq!(q.parent, ControlHandle::Hwnd(7));
    assert_eq!(q.background_color, Some([1, 2, 3]));
    assert_eq!(q.limit, Some(8));
    assert_eq!(q.password, Some('*'));
    assert!(q.readonly);
    assert_eq!(q.font, Some(&font));
}

#[test]
fn build_zero_limit_sets_none() {
    let q = TextInput::builder().parent(ControlHandle::Hwnd(1)).build().ok().unwrap();
    assert_eq!(q.limit, None);
    assert!(!q.readonly);
    assert_eq!(q.password, None);
}

#[test]
fn alignment_styles() {
    let center = TextInput::builder().align(HTextAlign::Center);
    assert_eq!(center.style(), 0x10000001);
    let scrolling = TextInputFlags::visible().union(TextInputFlags::auto_scroll());
    assert_eq!(scrolling.bits(), 0x10000080);
    let left = TextInput::builder().flags(scrolling);
    assert_eq!(left.style(), 0x10000080);
    let right = TextInput::builder().flags(scrolling).align(HTextAlign::Right);
    assert_eq!(right.style(), 0x10000002);
    let number = TextInput::builder().flags(TextInputFlags::number().union(TextInputFlags::disabled()));
    assert_eq!(number.style(), 0x08002000);
}

#[test]
fn control_constants() {
    let t = TextInput::default();
    assert_eq!(t.class_name(), "EDIT");
    assert_eq!(t.flags(), 0x10000000);
    assert_eq!(t.forced_flags(), 0x40800080);
}

#[test]
fn font_of_unbound_control_fails() {
    assert_eq!(TextInput::default().font(5), Err(NwgError::NotBound));
    let mut t = TextInput::default();
    t.handle = ControlHandle::Notice(3, 1);
    assert_eq!(t.font(5), Err(NwgError::BadHandle));
}

#[test]
fn font_of_bound_control() {
    let t = bound(10);
    assert_eq!(t.font(0), Ok(None));
    assert_eq!(t.font(42), Ok(Some(Font { handle: 42 })));
}

#[test]
fn property_replies() {
    let t = bound(10);
    assert_eq!(t.readonly(0x0800 | 0x0080), Ok(true));
    assert_eq!(t.readonly(0x0080), Ok(false));
    assert_eq!(t.modified(1), Ok(true));
    assert_eq!(t.modified(0), Ok(false));
    assert_eq!(t.password_char(0), Ok(None));
    assert_eq!(t.password_char(0x2A), Ok(Some('*')));
    assert_eq!(t.password_char(0xD800), Ok(None));
    assert_eq!(TextInput::default().modified(1), Err(NwgError::NotBound));
}

#[test]
fn password_param_codes() {
    assert_eq!(password_param(Some('*')), 42);
    assert_eq!(password_param(None), 0);
}

#[test]
fn uninstall_twice_is_harmless() {
    let mut t = bound(10);
    let h = RawEventHandler { handle: 10, id: 0 };
    t.install_hook(h);
    assert_eq!(t.uninstall(), Some(h));
    assert_eq!(t.uninstall(), None);
    assert_eq!(t.handle, ControlHandle::Hwnd(10));
    assert!(t.handler0.is_none());
}

#[test]
fn uninstall_never_installed() {
    let mut t = bound(4);
    assert_eq!(t.uninstall(), None);
    assert!(t == bound(4));
}

#[test]
fn build_creates_hidden_and_shows_when_visible() {
    let q = TextInput::builder()
        .align(HTextAlign::Center)
        .parent(ControlHandle::Hwnd(2))
        .build()
        .ok()
        .unwrap();
    assert_eq!(q.flags, 0x00000001);
    assert!(q.show);
    let hidden = TextInput::builder()
        .flags(TextInputFlags::number())
        .parent(ControlHandle::Hwnd(2))
        .build()
        .ok()
        .unwrap();
    assert_eq!(hidden.flags, 0x2000);
    assert!(!hidden.show);
}
