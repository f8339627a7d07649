//! The decisions of the centring hook: which host notifications it answers,
//! what it does for each, and with which paint.

use vstd::prelude::*;

verus! {

/// Host notification: the window was resized.
pub const WM_SIZE: u32 = 0x0005;

/// Host notification: compute the client area from the window rectangle.
pub const WM_NCCALCSIZE: u32 = 0x0083;

/// Host notification: paint the non-client area.
pub const WM_NCPAINT: u32 = 0x0085;

/// Window-position flag: keep the size.
pub const SWP_NOSIZE: u32 = 0x0001;

/// Window-position flag: keep the position.
pub const SWP_NOMOVE: u32 = 0x0002;

/// Window-position flag: recompute the frame (re-issues the non-client size
/// calculation and paint).
pub const SWP_FRAMECHANGED: u32 = 0x0020;

/// Window-position flag: keep the owner's place in the z-order.
pub const SWP_NOOWNERZORDER: u32 = 0x0200;

/// The flags of the frame refresh issued after every resize.
pub const FRAME_REFRESH_FLAGS: u32 = SWP_NOOWNERZORDER | SWP_NOSIZE | SWP_NOMOVE | SWP_FRAMECHANGED;

/// System colour index of the default window background.
pub const COLOR_WINDOW: i32 = 5;

/// The packed `0x00bbggrr` colour value of a red, green, blue triple.
pub open spec fn rgb_of(r: u8, g: u8, b: u8) -> u32 {
    (r as int + 256 * (g as int) + 65536 * (b as int)) as u32
}

/// Packs a red, green, blue triple as `0x00bbggrr`.
pub fn rgb(r: u8, g: u8, b: u8) -> (c: u32)
    ensures
        c == rgb_of(r, g, b),
        c as int == r as int + 256 * (g as int) + 65536 * (b as int),
{
    r as u32 + 256 * (g as u32) + 65536 * (b as u32)
}

/// The paint used for the padding strips.
#[derive(Clone, Copy, Debug, PartialEq, Eq, Structural)]
pub enum Brush {
    /// A solid brush of one packed colour.
    Solid(u32),
    /// The platform's brush for a system colour index.
    System(i32),
}

/// The brush a hook installed with `background` paints with: a solid brush of
/// exactly that colour, or the default window background when none is given.
pub open spec fn brush_for(background: Option<[u8; 3]>) -> Brush {
    match background {
        Some(c) => Brush::Solid(rgb_of(c[0], c[1], c[2])),
        None => Brush::System(COLOR_WINDOW),
    }
}

/// One host notification, as far as the hook tells them apart.
#[derive(Clone, Copy, Debug, PartialEq, Eq, Structural)]
pub enum Notification {
    /// The host computes the client area; `adjust` is its request flag.
    CalcSize { adjust: bool },
    /// The non-client area must be painted.
    Paint,
    /// The window was resized.
    Resized,
    /// Anything else; the hook lets it pass.
    Other,
}

/// The notification a raw message code and first parameter stand for.
pub open spec fn notification_of(msg: u32, wparam: usize) -> Notification {
    if msg == WM_NCCALCSIZE {
        Notification::CalcSize { adjust: wparam != 0 }
    } else if msg == WM_NCPAINT {
        Notification::Paint
    } else if msg == WM_SIZE {
        Notification::Resized
    } else {
        Notification::Other
    }
}

/// Tells a raw host message apart.
pub fn classify(msg: u32, wparam: usize) -> (n: Notification)
    ensures
        n == notification_of(msg, wparam),
{
    if msg == WM_NCCALCSIZE {
        Notification::CalcSize { adjust: wparam != 0 }
    } else if msg == WM_NCPAINT {
        Notification::Paint
    } else if msg == WM_SIZE {
        Notification::Resized
    } else {
        Notification::Other
    }
}

/// What the host's side must do for a notification. The host's default
/// processing runs after each of them.
#[derive(Clone, Copy, Debug, PartialEq, Eq, Structural)]
pub enum Action {
    /// Nothing: the host's defaults alone.
    PassThrough,
    /// Measure one line of the control's font and answer the size
    /// calculation with the centred client rectangle.
    CenterText,
    /// Fill the top and bottom padding strips with this brush.
    FillPadding(Brush),
    /// Issue, before returning, a window-position update that neither moves
    /// nor resizes but recomputes the frame, with these flags.
    RefreshFrame(u32),
}

/// The hook's configuration, fixed at installation.
#[derive(Clone, Copy, Debug, PartialEq, Eq, Structural)]
pub struct LayoutHook {
    pub brush: Brush,
}

/// The action the hook takes for a notification.
pub open spec fn action_of(hook: LayoutHook, n: Notification) -> Action {
    match n {
        Notification::CalcSize { adjust } => if adjust {
            Action::CenterText
        } else {
            Action::PassThrough
        },
        Notification::Paint => Action::FillPadding(hook.brush),
        Notification::Resized => Action::RefreshFrame(FRAME_REFRESH_FLAGS),
        Notification::Other => Action::PassThrough,
    }
}

impl LayoutHook {
    /// A hook that paints its padding with `background`, or with the default
    /// window background when none is given.
    pub fn new(background: Option<[u8; 3]>) -> (h: LayoutHook)
        ensures
            h.brush == brush_for(background),
    {
        match background {
            Some(c) => LayoutHook { brush: Brush::Solid(rgb(c[0], c[1], c[2])) },
            None => LayoutHook { brush: Brush::System(COLOR_WINDOW) },
        }
    }

    /// Whether the hook owns its brush, which must then be released when the
    /// hook is uninstalled: a solid brush is created for the hook, a system
    /// colour brush is shared and never released.
    pub fn releases_brush(&self) -> (r: bool)
        ensures
            r == (self.brush is Solid),
    {
        match self.brush {
            Brush::Solid(_) => true,
            Brush::System(_) => false,
        }
    }

    /// What to do for a notification.
    pub fn respond(&self, n: Notification) -> (a: Action)
        ensures
            a == action_of(*self, n),
    {
        match n {
            Notification::CalcSize { adjust } => if adjust {
                Action::CenterText
            } else {
                Action::PassThrough
            },
            Notification::Paint => Action::FillPadding(self.brush),
            Notification::Resized => Action::RefreshFrame(FRAME_REFRESH_FLAGS),
            Notification::Other => Action::PassThrough,
        }
    }
}

/// Resize law: every resize is answered, before the handler returns, by a
/// frame refresh that keeps the window's size, position and z-order and sets
/// the frame-changed flag, which makes the host issue a fresh size
/// calculation (with its request flag set) and a fresh non-client paint.
pub proof fn lemma_resize_refreshes_frame(hook: LayoutHook)
    ensures
        ({
            let a = action_of(hook, Notification::Resized);
            &&& a is RefreshFrame
            &&& a->RefreshFrame_0 & SWP_FRAMECHANGED == SWP_FRAMECHANGED
            &&& a->RefreshFrame_0 & SWP_NOMOVE == SWP_NOMOVE
            &&& a->RefreshFrame_0 & SWP_NOSIZE == SWP_NOSIZE
            &&& a->RefreshFrame_0 & SWP_NOOWNERZORDER == SWP_NOOWNERZORDER
        }),
{
    assert(0x0223u32 & 0x0020u32 == 0x0020u32) by (bit_vector);
    assert(0x0223u32 & 0x0002u32 == 0x0002u32) by (bit_vector);
    assert(0x0223u32 & 0x0001u32 == 0x0001u32) by (bit_vector);
    assert(0x0223u32 & 0x0200u32 == 0x0200u32) by (bit_vector);
    assert(FRAME_REFRESH_FLAGS == 0x0223u32) by (bit_vector);
}

/// Colour law: a hook installed without a colour fills its padding with the
/// default window background; one installed with `[r, g, b]` fills it with a
/// solid brush of exactly that colour.
pub proof fn lemma_padding_colour(background: Option<[u8; 3]>, hook: LayoutHook)
    requires
        hook.brush == brush_for(background),
    ensures
        background is None ==> action_of(hook, Notification::Paint) == Action::FillPadding(
            Brush::System(COLOR_WINDOW),
        ),
        background is Some ==> action_of(hook, Notification::Paint) == Action::FillPadding(
            Brush::Solid(
                rgb_of(background->Some_0[0], background->Some_0[1], background->Some_0[2]),
            ),
        ),
{
}

} // verus!
