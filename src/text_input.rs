//! The single-line text input control: its handle and hook registration,
//! its style bits, and the builder that decides how it is created.

use vstd::prelude::*;

verus! {

/// Window style: the window is visible.
pub const WS_VISIBLE: u32 = 0x10000000;

/// Window style: the window is disabled.
pub const WS_DISABLED: u32 = 0x08000000;

/// Window style: the window has a thin border.
pub const WS_BORDER: u32 = 0x00800000;

/// Window style: the window is a child window.
pub const WS_CHILD: u32 = 0x40000000;

/// Edit style: left-aligned text.
pub const ES_LEFT: u32 = 0x0000;

/// Edit style: centred text.
pub const ES_CENTER: u32 = 0x0001;

/// Edit style: right-aligned text.
pub const ES_RIGHT: u32 = 0x0002;

/// Edit style: scroll horizontally as the user types.
pub const ES_AUTOHSCROLL: u32 = 0x0080;

/// Edit style: the text cannot be edited.
pub const ES_READONLY: u32 = 0x0800;

/// Edit style: digits only.
pub const ES_NUMBER: u32 = 0x2000;

/// Errors of the control.
#[derive(Clone, Copy, Debug, PartialEq, Eq, Structural)]
pub enum NwgError {
    /// The builder was given no parent.
    NoParent,
    /// The control has no native window yet.
    NotBound,
    /// The control's handle is not a window handle.
    BadHandle,
    /// The native window could not be created.
    ControlCreation,
}

/// A handle to a native resource; window handles are kept as their address.
#[derive(Clone, Copy, Debug, PartialEq, Eq, Structural, Default)]
pub enum ControlHandle {
    /// No native resource yet.
    #[default]
    NoHandle,
    /// A native window.
    Hwnd(usize),
    /// A notice bound to a window, with its id.
    Notice(usize, u32),
}

impl ControlHandle {
    /// Whether no native resource is attached.
    pub fn blank(&self) -> (r: bool)
        ensures
            r == (*self is NoHandle),
    {
        match self {
            ControlHandle::NoHandle => true,
            _ => false,
        }
    }

    /// The window handle, if this is one.
    pub fn hwnd(&self) -> (r: Option<usize>)
        ensures
            r == (match *self {
                ControlHandle::Hwnd(h) => Some(h),
                _ => None::<usize>,
            }),
    {
        match self {
            ControlHandle::Hwnd(h) => Some(*h),
            _ => None,
        }
    }
}

/// A font resource; the handle is its address, never 0.
#[derive(Clone, Copy, Debug, PartialEq, Eq, Structural)]
pub struct Font {
    pub handle: usize,
}

/// Horizontal alignment of the text.
#[derive(Clone, Copy, Debug, PartialEq, Eq, Structural)]
pub enum HTextAlign {
    Left,
    Center,
    Right,
}

/// A registered message handler: the window it is bound to and its id.
#[derive(Clone, Copy, Debug, PartialEq, Eq, Structural)]
pub struct RawEventHandler {
    pub handle: usize,
    pub id: usize,
}

/// A combination of the style flags a text input accepts.
#[derive(Clone, Copy, Debug, PartialEq, Eq, Structural)]
pub struct TextInputFlags {
    pub bits: u32,
}

impl TextInputFlags {
    /// The control is visible.
    pub fn visible() -> (r: TextInputFlags)
        ensures
            r.bits == WS_VISIBLE,
    {
        TextInputFlags { bits: WS_VISIBLE }
    }

    /// The control is disabled.
    pub fn disabled() -> (r: TextInputFlags)
        ensures
            r.bits == WS_DISABLED,
    {
        TextInputFlags { bits: WS_DISABLED }
    }

    /// The control accepts digits only.
    pub fn number() -> (r: TextInputFlags)
        ensures
            r.bits == ES_NUMBER,
    {
        TextInputFlags { bits: ES_NUMBER }
    }

    /// The control scrolls horizontally as the user types.
    pub fn auto_scroll() -> (r: TextInputFlags)
        ensures
            r.bits == ES_AUTOHSCROLL,
    {
        TextInputFlags { bits: ES_AUTOHSCROLL }
    }

    /// The raw style bits.
    pub fn bits(&self) -> (r: u32)
        ensures
            r == self.bits,
    {
        self.bits
    }

    /// The flags of both operands.
    pub fn union(self, other: TextInputFlags) -> (r: TextInputFlags)
        ensures
            r.bits == self.bits | other.bits,
    {
        TextInputFlags { bits: self.bits | other.bits }
    }
}

/// Whether `v` is the code of a character: below the surrogates, or above
/// them and at most `0x10FFFF`.
pub open spec fn is_scalar(v: u32) -> bool {
    v < 0xD800 || (0xE000 <= v && v <= 0x10FFFF)
}

/// Relies on `char::from_u32`: the character of a code, for exactly the
/// codes of characters.
#[verifier::external_body]
fn char_from_u32(v: u32) -> (r: Option<char>)
    ensures
        r is Some <==> is_scalar(v),
        r is Some ==> r->Some_0 as u32 == v,
{
    char::from_u32(v)
}

/// The parameter that sets the password character: its code, or 0 to show
/// the text in clear.
pub fn password_param(c: Option<char>) -> (r: usize)
    ensures
        r == (match c {
            Some(ch) => ch as u32 as usize,
            None => 0usize,
        }),
{
    match c {
        Some(ch) => ch as u32 as usize,
        None => 0,
    }
}

/// The window class of the control.
pub const CLASS_NAME: &'static str = "EDIT";

/// A single-line text input: the native window it is bound to, and the
/// centring hook registered on it, if any.
#[derive(Default)]
pub struct TextInput {
    pub handle: ControlHandle,
    pub handler0: Option<RawEventHandler>,
}

impl PartialEq for TextInput {
    fn eq(&self, other: &TextInput) -> (r: bool) {
        self.handle == other.handle
    }
}

impl vstd::std_specs::cmp::PartialEqSpecImpl for TextInput {
    open spec fn obeys_eq_spec() -> bool {
        true
    }

    open spec fn eq_spec(&self, other: &TextInput) -> bool {
        self.handle == other.handle
    }
}

impl TextInput {
    /// The hook registration the control holds.
    pub open spec fn hook_of(self) -> Option<RawEventHandler> {
        self.handler0
    }

    /// The control once its hook registration is released.
    pub open spec fn without_hook(self) -> TextInput {
        TextInput { handle: self.handle, handler0: None }
    }

    /// A builder with the defaults: no text, 100 by 25 at the origin, the
    /// default flags, no limit, no password character, left-aligned,
    /// editable, the default font, no parent and the default background.
    pub fn builder<'a>() -> (b: TextInputBuilder<'a>)
        ensures
            b.text@ == Seq::<char>::empty(),
            b.size == (100i32, 25i32),
            b.position == (0i32, 0i32),
            b.flags is None,
            b.limit == 0,
            b.password is None,
            b.align == HTextAlign::Left,
            !b.readonly,
            b.font is None,
            b.parent is None,
            b.background_color is None,
    {
        let b = TextInputBuilder {
            text: "",
            size: (100, 25),
            position: (0, 0),
            flags: None,
            limit: 0,
            password: None,
            align: HTextAlign::Left,
            readonly: false,
            font: None,
            parent: None,
            background_color: None,
        };
        proof {
            reveal_strlit("");
        }
        b
    }

    /// The window handle of a control that has one.
    pub fn window(&self) -> (r: Result<usize, NwgError>)
        ensures
            self.handle is NoHandle ==> r == Err::<usize, NwgError>(NwgError::NotBound),
            self.handle is Hwnd ==> r == Ok::<usize, NwgError>(self.handle->Hwnd_0),
            self.handle is Notice ==> r == Err::<usize, NwgError>(NwgError::BadHandle),
    {
        if self.handle.blank() {
            return Err(NwgError::NotBound);
        }
        match self.handle.hwnd() {
            Some(h) => Ok(h),
            None => Err(NwgError::BadHandle),
        }
    }

    /// The control's font, given the raw font handle its window reports
    /// (0 when the window uses the system font).
    pub fn font(&self, window_font: usize) -> (r: Result<Option<Font>, NwgError>)
        ensures
            self.handle is NoHandle ==> r == Err::<Option<Font>, NwgError>(NwgError::NotBound),
            self.handle is Notice ==> r == Err::<Option<Font>, NwgError>(NwgError::BadHandle),
            self.handle is Hwnd ==> r == Ok::<Option<Font>, NwgError>(
                if window_font == 0 {
                    None
                } else {
                    Some(Font { handle: window_font })
                },
            ),
    {
        match self.window() {
            Err(e) => Err(e),
            Ok(_) => if window_font == 0 {
                Ok(None)
            } else {
                Ok(Some(Font { handle: window_font }))
            },
        }
    }

    /// Whether the control is read-only, given its window's style bits.
    pub fn readonly(&self, style: u32) -> (r: Result<bool, NwgError>)
        ensures
            r is Err <==> !(self.handle is Hwnd),
            self.handle is NoHandle ==> r == Err::<bool, NwgError>(NwgError::NotBound),
            self.handle is Notice ==> r == Err::<bool, NwgError>(NwgError::BadHandle),
            self.handle is Hwnd ==> r == Ok::<bool, NwgError>(style & ES_READONLY == ES_READONLY),
    {
        match self.window() {
            Err(e) => Err(e),
            Ok(_) => Ok(style & ES_READONLY == ES_READONLY),
        }
    }

    /// Whether the text was modified since creation, given the window's
    /// answer to the modified-flag query (non-zero when modified).
    pub fn modified(&self, reply: isize) -> (r: Result<bool, NwgError>)
        ensures
            r is Err <==> !(self.handle is Hwnd),
            self.handle is NoHandle ==> r == Err::<bool, NwgError>(NwgError::NotBound),
            self.handle is Notice ==> r == Err::<bool, NwgError>(NwgError::BadHandle),
            self.handle is Hwnd ==> r == Ok::<bool, NwgError>(reply != 0),
    {
        match self.window() {
            Err(e) => Err(e),
            Ok(_) => Ok(reply != 0),
        }
    }

    /// The password character, given the window's answer to the
    /// password-character query: none for 0 or for a value that is no
    /// character, else the character of that code.
    pub fn password_char(&self, reply: u32) -> (r: Result<Option<char>, NwgError>)
        ensures
            r is Err <==> !(self.handle is Hwnd),
            self.handle is NoHandle ==> r == Err::<Option<char>, NwgError>(NwgError::NotBound),
            self.handle is Notice ==> r == Err::<Option<char>, NwgError>(NwgError::BadHandle),
            self.handle is Hwnd ==> r is Ok && (r->Ok_0 is Some <==> reply != 0 && is_scalar(reply)),
            self.handle is Hwnd && r is Ok && r->Ok_0 is Some ==> r->Ok_0->Some_0 as u32 == reply,
    {
        match self.window() {
            Err(e) => Err(e),
            Ok(_) => if reply == 0 {
                Ok(None)
            } else {
                Ok(char_from_u32(reply))
            },
        }
    }

    /// Window class used to create the control.
    pub fn class_name(&self) -> (r: &'static str)
        ensures
            r@ == CLASS_NAME@,
    {
        CLASS_NAME
    }

    /// Base style used to create the control when the builder has no flags.
    pub fn flags(&self) -> (r: u32)
        ensures
            r == WS_VISIBLE,
    {
        WS_VISIBLE
    }

    /// Style bits every text input is created with.
    pub fn forced_flags(&self) -> (r: u32)
        ensures
            r == WS_BORDER | ES_AUTOHSCROLL | WS_CHILD,
    {
        WS_BORDER | ES_AUTOHSCROLL | WS_CHILD
    }

    /// Records the centring hook registered on the control's window.
    pub fn install_hook(&mut self, handler: RawEventHandler)
        ensures
            final(self).handle == old(self).handle,
            final(self).hook_of() == Some(handler),
    {
        self.handler0 = Some(handler);
    }

    /// Releases the hook registration and hands it back, to be unbound; a
    /// control without one is left as it is and gives back nothing.
    pub fn uninstall(&mut self) -> (r: Option<RawEventHandler>)
        ensures
            r == old(self).hook_of(),
            *final(self) == old(self).without_hook(),
            final(self).handle == old(self).handle,
            final(self).hook_of() is None,
    {
        let r = self.handler0;
        self.handler0 = None;
        r
    }
}

/// Uninstall law: releasing the hook registration twice, or on a control that
/// never had one, gives back nothing the second time and changes nothing.
pub proof fn lemma_uninstall_idempotent(t: TextInput)
    ensures
        t.without_hook().hook_of() is None,
        t.without_hook().without_hook() == t.without_hook(),
        t.hook_of() is None ==> t.without_hook() == t,
{
}

/// Builder of a [`TextInput`].
pub struct TextInputBuilder<'a> {
    pub text: &'a str,
    pub size: (i32, i32),
    pub position: (i32, i32),
    pub flags: Option<TextInputFlags>,
    pub limit: usize,
    pub password: Option<char>,
    pub align: HTextAlign,
    pub readonly: bool,
    pub font: Option<&'a Font>,
    pub parent: Option<ControlHandle>,
    pub background_color: Option<[u8; 3]>,
}

/// The style bits a text input is created with: the builder's flags (the
/// control's base style when it has none) with the alignment bit added;
/// right alignment also clears horizontal auto-scroll.
pub open spec fn style_of(flags: Option<TextInputFlags>, align: HTextAlign) -> u32 {
    let base = match flags {
        Some(f) => f.bits,
        None => WS_VISIBLE,
    };
    match align {
        HTextAlign::Left => base | ES_LEFT,
        HTextAlign::Center => base | ES_CENTER,
        HTextAlign::Right => (base | ES_RIGHT) & !ES_AUTOHSCROLL,
    }
}

/// Everything needed to create a text input's window and finish setting it
/// up: the window itself, created hidden; the hook's background; whether to
/// show the window once the hook is installed; and the properties to set
/// afterwards (`None` or `false` where nothing is to be set).
pub struct CreateRequest<'a> {
    pub class_name: &'static str,
    pub forced_flags: u32,
    pub flags: u32,
    pub size: (i32, i32),
    pub position: (i32, i32),
    pub text: &'a str,
    pub parent: ControlHandle,
    pub background_color: Option<[u8; 3]>,
    pub show: bool,
    pub limit: Option<usize>,
    pub password: Option<char>,
    pub readonly: bool,
    pub font: Option<&'a Font>,
}

impl<'a> TextInputBuilder<'a> {
    pub fn flags(self, flags: TextInputFlags) -> (r: TextInputBuilder<'a>)
        ensures
            r == (TextInputBuilder { flags: Some(flags), ..self }),
    {
        TextInputBuilder { flags: Some(flags), ..self }
    }

    pub fn text(self, text: &'a str) -> (r: TextInputBuilder<'a>)
        ensures
            r == (TextInputBuilder { text: text, ..self }),
    {
        TextInputBuilder { text: text, ..self }
    }

    pub fn size(self, size: (i32, i32)) -> (r: TextInputBuilder<'a>)
        ensures
            r == (TextInputBuilder { size: size, ..self }),
    {
        TextInputBuilder { size: size, ..self }
    }

    pub fn position(self, pos: (i32, i32)) -> (r: TextInputBuilder<'a>)
        ensures
            r == (TextInputBuilder { position: pos, ..self }),
    {
        TextInputBuilder { position: pos, ..self }
    }

    pub fn limit(self, limit: usize) -> (r: TextInputBuilder<'a>)
        ensures
            r == (TextInputBuilder { limit: limit, ..self }),
    {
        TextInputBuilder { limit: limit, ..self }
    }

    pub fn password(self, psw: Option<char>) -> (r: TextInputBuilder<'a>)
        ensures
            r == (TextInputBuilder { password: psw, ..self }),
    {
        TextInputBuilder { password: psw, ..self }
    }

    pub fn align(self, align: HTextAlign) -> (r: TextInputBuilder<'a>)
        ensures
            r == (TextInputBuilder { align: align, ..self }),
    {
        TextInputBuilder { align: align, ..self }
    }

    pub fn readonly(self, read: bool) -> (r: TextInputBuilder<'a>)
        ensures
            r == (TextInputBuilder { readonly: read, ..self }),
    {
        TextInputBuilder { readonly: read, ..self }
    }

    pub fn font(self, font: Option<&'a Font>) -> (r: TextInputBuilder<'a>)
        ensures
            r == (TextInputBuilder { font: font, ..self }),
    {
        TextInputBuilder { font: font, ..self }
    }

    pub fn background_color(self, color: Option<[u8; 3]>) -> (r: TextInputBuilder<'a>)
        ensures
            r == (TextInputBuilder { background_color: color, ..self }),
    {
        TextInputBuilder { background_color: color, ..self }
    }

    pub fn parent(self, p: ControlHandle) -> (r: TextInputBuilder<'a>)
        ensures
            r == (TextInputBuilder { parent: Some(p), ..self }),
    {
        TextInputBuilder { parent: Some(p), ..self }
    }

    /// The style bits the control will be created with.
    pub fn style(&self) -> (r: u32)
        ensures
            r == style_of(self.flags, self.align),
    {
        let base = match self.flags {
            Some(f) => f.bits(),
            None => WS_VISIBLE,
        };
        match self.align {
            HTextAlign::Left => base | ES_LEFT,
            HTextAlign::Center => base | ES_CENTER,
            HTextAlign::Right => (base | ES_RIGHT) & !ES_AUTOHSCROLL,
        }
    }

    /// Decides how the control is created: fails with `NoParent` exactly when
    /// no parent was given; otherwise the window gets the edit class, the
    /// forced border/auto-scroll/child style, the builder's style without
    /// the visible bit, geometry, text and parent; it is shown, after the
    /// centring hook is installed, exactly when the builder's style asks for
    /// it; and a positive limit, a password character, read-only mode and a
    /// font are set only when asked for.
    pub fn build(self) -> (r: Result<CreateRequest<'a>, NwgError>)
        ensures
            self.parent is None <==> r is Err,
            r is Err ==> r->Err_0 == NwgError::NoParent,
            r is Ok ==> ({
                let q = r->Ok_0;
                &&& q.class_name@ == CLASS_NAME@
                &&& q.forced_flags == WS_BORDER | ES_AUTOHSCROLL | WS_CHILD
                &&& q.flags == style_of(self.flags, self.align) & !WS_VISIBLE
                &&& q.show == (style_of(self.flags, self.align) & WS_VISIBLE != 0)
                &&& q.size == self.size
                &&& q.position == self.position
                &&& q.text == self.text
                &&& Some(q.parent) == self.parent
                &&& q.background_color == self.background_color
                &&& q.limit == (if self.limit > 0 { Some(self.limit) } else { None })
                &&& q.password == self.password
                &&& q.readonly == self.readonly
                &&& q.font == self.font
            }),
    {
        let style = self.style();
        let parent = match self.parent {
            Some(p) => p,
            None => return Err(NwgError::NoParent),
        };
        Ok(CreateRequest {
            class_name: CLASS_NAME,
            forced_flags: WS_BORDER | ES_AUTOHSCROLL | WS_CHILD,
            flags: style & !WS_VISIBLE,
            size: self.size,
            position: self.position,
            text: self.text,
            parent,
            background_color: self.background_color,
            show: style & WS_VISIBLE != 0,
            limit: if self.limit > 0 {
                Some(self.limit)
            } else {
                None
            },
            password: self.password,
            readonly: self.readonly,
            font: self.font,
        })
    }
}

} // verus!
