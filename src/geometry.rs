//! Rectangle arithmetic behind the vertical centring of a single-line edit
//! control: how much non-client padding to reserve, and which strips to paint.

use vstd::prelude::*;

verus! {

/// A rectangle in device units, edges inclusive at `left`/`top` and exclusive
/// at `right`/`bottom`.
#[derive(Clone, Copy, Debug, PartialEq, Eq, Structural)]
pub struct Rect {
    pub left: i32,
    pub top: i32,
    pub right: i32,
    pub bottom: i32,
}

/// A point in device units.
#[derive(Clone, Copy, Debug, PartialEq, Eq, Structural)]
pub struct Point {
    pub x: i32,
    pub y: i32,
}

/// Width, in device units, of the native border around the default client
/// area of an edit control; subtracted from each padding strip.
pub const BORDER_CORRECTION: i32 = 4;

/// Integer halving that rounds toward zero, as machine division does.
pub open spec fn half_toward_zero(d: int) -> int {
    if d >= 0 {
        d / 2
    } else {
        -((-d) / 2)
    }
}

/// Padding reserved above and below the text: half of the space the window
/// has beyond one line of text, less the native border.
pub open spec fn center_of(window: Rect, text_height: int) -> int {
    half_toward_zero((window.bottom - window.top) - text_height) - BORDER_CORRECTION
}

/// Whether a value fits in an `i32`.
pub open spec fn fits_i32(v: int) -> bool {
    i32::MIN <= v <= i32::MAX
}

/// Whether shrinking `proposed` by the padding for `window` and `text_height`
/// stays within the machine's coordinate range.
pub open spec fn adjustment_fits(proposed: Rect, window: Rect, text_height: int) -> bool {
    &&& fits_i32(center_of(window, text_height))
    &&& fits_i32(proposed.top + center_of(window, text_height))
    &&& fits_i32(proposed.bottom - center_of(window, text_height))
}

/// `proposed` with `center` moved in from the top and from the bottom.
pub open spec fn shrink_vertically(proposed: Rect, center: int) -> Rect {
    Rect {
        left: proposed.left,
        top: (proposed.top + center) as i32,
        right: proposed.right,
        bottom: (proposed.bottom - center) as i32,
    }
}

/// The client rectangle that the size calculation hands back to the host.
pub open spec fn calc_client_rect(adjust: bool, proposed: Rect, window: Rect, text_height: int) -> Rect {
    if adjust {
        shrink_vertically(proposed, center_of(window, text_height))
    } else {
        proposed
    }
}

/// The strip between the top of the window and the top of the client area,
/// in client coordinates; `window_top_left` is the window's top-left corner
/// mapped into client coordinates.
pub open spec fn top_strip_of(client: Rect, window_top_left: Point) -> Rect {
    Rect { left: 0, top: window_top_left.y, right: client.right, bottom: client.top }
}

/// The strip between the bottom of the client area and the bottom of the
/// window, in client coordinates; `window_bottom_right` is the window's
/// bottom-right corner mapped into client coordinates.
pub open spec fn bottom_strip_of(client: Rect, window_bottom_right: Point) -> Rect {
    Rect { left: 0, top: client.bottom, right: client.right, bottom: window_bottom_right.y }
}

/// Truncating halving of a 64-bit value.
fn halve(d: i64) -> (r: i64)
    requires
        d > i64::MIN,
    ensures
        r == half_toward_zero(d as int),
{
    if d >= 0 {
        d / 2
    } else {
        -((-d) / 2)
    }
}

/// The padding to reserve above and below one line of text of height
/// `text_height` in a window whose screen rectangle is `window`.
pub fn center_offset(window: Rect, text_height: i32) -> (r: i64)
    ensures
        r == center_of(window, text_height as int),
{
    let window_height: i64 = window.bottom as i64 - window.top as i64;
    halve(window_height - text_height as i64) - BORDER_CORRECTION as i64
}

/// Whether the size calculation for these values stays in range; the
/// executable form of [`adjustment_fits`].
pub fn can_adjust(proposed: Rect, window: Rect, text_height: i32) -> (r: bool)
    ensures
        r == adjustment_fits(proposed, window, text_height as int),
{
    let center = center_offset(window, text_height);
    let lo = i32::MIN as i64;
    let hi = i32::MAX as i64;
    let top = proposed.top as i64 + center;
    let bottom = proposed.bottom as i64 - center;
    lo <= center && center <= hi && lo <= top && top <= hi && lo <= bottom && bottom <= hi
}

/// Answer to the host's non-client size calculation. When the host asks for
/// an adjustment (`adjust`), the proposed client rectangle loses the centring
/// padding at its top and at its bottom; otherwise it comes back unchanged.
pub fn calc_client(adjust: bool, proposed: Rect, window: Rect, text_height: i32) -> (r: Rect)
    requires
        adjust ==> adjustment_fits(proposed, window, text_height as int),
    ensures
        r == calc_client_rect(adjust, proposed, window, text_height as int),
        !adjust ==> r == proposed,
{
    if !adjust {
        return proposed;
    }
    let center = center_offset(window, text_height);
    Rect {
        left: proposed.left,
        top: (proposed.top as i64 + center) as i32,
        right: proposed.right,
        bottom: (proposed.bottom as i64 - center) as i32,
    }
}

/// The two strips the non-client paint fills: from the window's top to the
/// client's top, and from the client's bottom to the window's bottom, both
/// spanning the client's width, in client coordinates.
pub fn padding_strips(client: Rect, window_top_left: Point, window_bottom_right: Point) -> (r: (
    Rect,
    Rect,
))
    ensures
        r.0 == top_strip_of(client, window_top_left),
        r.1 == bottom_strip_of(client, window_bottom_right),
{
    let top = Rect { left: 0, top: window_top_left.y, right: client.right, bottom: client.top };
    let bottom = Rect {
        left: 0,
        top: client.bottom,
        right: client.right,
        bottom: window_bottom_right.y,
    };
    (top, bottom)
}

/// Rectangle of the client area in its own coordinates, for a client area
/// that occupies `area` on the screen.
pub open spec fn client_rect_of(area: Rect) -> Rect {
    Rect { left: 0, top: 0, right: (area.right - area.left) as i32, bottom: (area.bottom - area.top) as i32 }
}

/// A screen point in the coordinates of a client area that occupies `area`.
pub open spec fn screen_to_client(p: Point, area: Rect) -> Point {
    Point { x: (p.x - area.left) as i32, y: (p.y - area.top) as i32 }
}

/// Whether every coordinate of `window` and `area`, taken relative to the
/// top-left corner of `area`, fits in an `i32`.
pub open spec fn relative_fits(window: Rect, area: Rect) -> bool {
    &&& fits_i32(area.right - area.left)
    &&& fits_i32(area.bottom - area.top)
    &&& fits_i32(window.left - area.left)
    &&& fits_i32(window.top - area.top)
    &&& fits_i32(window.right - area.left)
    &&& fits_i32(window.bottom - area.top)
}

/// Centring law: for a line of height `h` in a window at least `h` tall, the
/// padding is never negative once the window is `h + 8` tall. Whenever the
/// adjusted edges are representable at all, the size calculation removes
/// exactly that padding from the top and from the bottom of the proposed
/// rectangle, so the two reserved strips are equal, and the client area
/// never grows when the padding is not negative.
pub proof fn lemma_centering(proposed: Rect, window: Rect, h: i32)
    requires
        window.bottom - window.top >= h,
    ensures
        window.bottom - window.top >= h + 8 ==> center_of(window, h as int) >= 0,
        adjustment_fits(proposed, window, h as int) ==> ({
            let r = calc_client_rect(true, proposed, window, h as int);
            &&& r.top - proposed.top == center_of(window, h as int)
            &&& proposed.bottom - r.bottom == center_of(window, h as int)
            &&& r.left == proposed.left
            &&& r.right == proposed.right
            &&& (center_of(window, h as int) >= 0 ==> r.top >= proposed.top && r.bottom
                <= proposed.bottom)
        }),
{
}

/// Paint/layout law: when the host proposes the window rectangle itself and
/// then places the client area where the size calculation put it, the strips
/// that the paint fills, taken back to screen coordinates, are exactly the
/// bands that the size calculation cut off: the top strip runs from the
/// window's top to the client's top, the bottom strip from the client's
/// bottom to the window's bottom, both as wide as the client, and together
/// with the client they tile the window's height with no gap and no overlap.
/// It holds for every geometry whose coordinates, and whose coordinates
/// relative to the client area, are representable.
pub proof fn lemma_paint_matches_layout(window: Rect, h: i32)
    ensures
        adjustment_fits(window, window, h as int) && relative_fits(
            window,
            calc_client_rect(true, window, window, h as int),
        ) ==> ({
            let area = calc_client_rect(true, window, window, h as int);
            let client = client_rect_of(area);
            let top = top_strip_of(client, screen_to_client(Point { x: window.left, y: window.top }, area));
            let bottom = bottom_strip_of(
                client,
                screen_to_client(Point { x: window.right, y: window.bottom }, area),
            );
            &&& top.left + area.left == area.left
            &&& top.right + area.left == area.right
            &&& top.top + area.top == window.top
            &&& top.bottom + area.top == area.top
            &&& bottom.left + area.left == area.left
            &&& bottom.right + area.left == area.right
            &&& bottom.top + area.top == area.bottom
            &&& bottom.bottom + area.top == window.bottom
            &&& area.top - window.top == center_of(window, h as int)
            &&& window.bottom - area.bottom == center_of(window, h as int)
        }),
{
}

/// Guard law: when the host does not ask for an adjustment, the size
/// calculation hands the proposed rectangle back unchanged.
pub proof fn lemma_guard_bypass(proposed: Rect, window: Rect, h: i32)
    ensures
        calc_client_rect(false, proposed, window, h as int) == proposed,
{
}

} // verus!
