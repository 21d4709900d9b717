//! Flyout window geometry in whole physical pixels.

use vstd::prelude::*;

verus! {

/// `v / 2` rounded toward zero, as machine division does.
pub open spec fn half_toward_zero(v: int) -> int {
    if v >= 0 {
        v / 2
    } else {
        -((-v) / 2)
    }
}

/// A value representable as `i32`.
pub open spec fn fits_i32(v: int) -> bool {
    i32::MIN <= v <= i32::MAX
}

/// Width and height of the non-client frame: the window rectangle's size
/// minus the client rectangle's size (rectangles are left, top, right,
/// bottom).
pub open spec fn frame_size(window: (i32, i32, i32, i32), client: (i32, i32, i32, i32)) -> (int, int) {
    (
        (window.2 - window.0) - (client.2 - client.0),
        (window.3 - window.1) - (client.3 - client.1),
    )
}

/// All the intermediate pixel values of `frameless_bounds` are
/// representable as `i32`.
pub open spec fn frame_arith_fits(window: (i32, i32, i32, i32), client: (i32, i32, i32, i32)) -> bool {
    let (dx, dy) = frame_size(window, client);
    &&& fits_i32(window.2 - window.0)
    &&& fits_i32(window.3 - window.1)
    &&& fits_i32(client.2 - client.0)
    &&& fits_i32(client.3 - client.1)
    &&& fits_i32(dx)
    &&& fits_i32(dy)
    &&& fits_i32((window.2 - window.0) - dx)
    &&& fits_i32((window.3 - window.1) - dy)
    &&& fits_i32(window.0 + half_toward_zero(dx))
    &&& fits_i32(window.1 + half_toward_zero(dy))
    &&& fits_i32(window.1 + half_toward_zero(dy) - dy)
}

/// Once the flyout's caption and border styles are stripped, the window
/// still carries the old frame's size. When the window rectangle exceeds
/// the client rectangle, the window shrinks by the frame (to the client's
/// size), moving right by half the horizontal frame and up by half the
/// vertical one so the flyout keeps growing upward from the tray. The
/// result is (left, top, width, height); `None` when there is no frame.
pub open spec fn frameless(window: (i32, i32, i32, i32), client: (i32, i32, i32, i32)) -> Option<(int, int, int, int)> {
    let (dx, dy) = frame_size(window, client);
    if dx > 0 || dy > 0 {
        Some((
            window.0 + half_toward_zero(dx),
            window.1 + half_toward_zero(dy) - dy,
            (window.2 - window.0) - dx,
            (window.3 - window.1) - dy,
        ))
    } else {
        None
    }
}

/// Whether `frameless_bounds` can compute in `i32` for these rectangles.
pub fn frame_arith_ok(window: (i32, i32, i32, i32), client: (i32, i32, i32, i32)) -> (r: bool)
    ensures
        r == frame_arith_fits(window, client),
{
    let ww: i64 = window.2 as i64 - window.0 as i64;
    let wh: i64 = window.3 as i64 - window.1 as i64;
    let cw: i64 = client.2 as i64 - client.0 as i64;
    let ch: i64 = client.3 as i64 - client.1 as i64;
    let dx: i64 = ww - cw;
    let dy: i64 = wh - ch;
    let hx: i64 = if dx >= 0 { dx / 2 } else { -((-dx) / 2) };
    let hy: i64 = if dy >= 0 { dy / 2 } else { -((-dy) / 2) };
    in_i32(ww) && in_i32(wh) && in_i32(cw) && in_i32(ch) && in_i32(dx) && in_i32(dy) && in_i32(ww - dx)
        && in_i32(wh - dy) && in_i32(window.0 as i64 + hx) && in_i32(window.1 as i64 + hy)
        && in_i32(window.1 as i64 + hy - dy)
}

/// Whether a value is representable as `i32`.
fn in_i32(v: i64) -> (r: bool)
    ensures
        r == fits_i32(v as int),
{
    -0x8000_0000 <= v && v <= 0x7fff_ffff
}

/// The frameless window bounds (see `frameless`).
pub fn frameless_bounds(window: (i32, i32, i32, i32), client: (i32, i32, i32, i32)) -> (r: Option<(i32, i32, i32, i32)>)
    requires
        frame_arith_fits(window, client),
    ensures
        r matches Some(b) ==> frameless(window, client) == Some((b.0 as int, b.1 as int, b.2 as int, b.3 as int)),
        r is None <==> frameless(window, client) is None,
{
    let w = window.2 - window.0;
    let h = window.3 - window.1;
    let dx = w - (client.2 - client.0);
    let dy = h - (client.3 - client.1);
    if dx > 0 || dy > 0 {
        let new_w = w - dx;
        let new_h = h - dy;
        let new_left = window.0 + (dx / 2);
        let new_top = window.1 + (dy / 2) - dy;
        Some((new_left, new_top, new_w, new_h))
    } else {
        None
    }
}

/// When the window has a frame (it is wider or taller than its client
/// area), the frameless bounds are exactly the client area's size; the left
/// edge moves right by half the horizontal frame (rounded toward zero) and
/// the top edge moves up by the vertical frame less half of it. A window
/// without a frame is left as it is.
pub proof fn law_frameless_matches_client(window: (i32, i32, i32, i32), client: (i32, i32, i32, i32))
    ensures
        ({
            let dx: int = (window.2 - window.0) - (client.2 - client.0);
            let dy: int = (window.3 - window.1) - (client.3 - client.1);
            &&& (dx <= 0 && dy <= 0 <==> frameless(window, client) is None)
            &&& (frameless(window, client) matches Some(b) ==> {
                &&& b.2 == client.2 - client.0
                &&& b.3 == client.3 - client.1
                &&& (dx >= 0 ==> b.0 == window.0 + dx / 2)
                &&& (dy >= 0 ==> b.1 == window.1 - (dy - dy / 2))
            })
        }),
{
}

} // verus!
