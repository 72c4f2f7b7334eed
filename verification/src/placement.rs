//! Popup window placement: the translator window opens next to the mouse
//! cursor, nudged back onto the monitor when it would stick out.

use vstd::prelude::*;

verus! {

/// Offset between the mouse cursor and the popup's corner, in pixels.
pub const POPUP_OFFSET: i64 = 20;

/// Where the popup goes for a mouse position, window size, and monitor
/// geometry (position and size), if one is known: below-right of the cursor,
/// flipped to the other side of the cursor on each axis where the window
/// would leave the monitor.
pub open spec fn spec_popup_position(
    mouse_x: int,
    mouse_y: int,
    win_w: int,
    win_h: int,
    monitor: Option<(int, int, int, int)>,
) -> (int, int) {
    let x = mouse_x + POPUP_OFFSET;
    let y = mouse_y + POPUP_OFFSET;
    match monitor {
        None => (x, y),
        Some((mon_x, mon_y, mon_w, mon_h)) => {
            let fx = if x + win_w > mon_x + mon_w {
                mouse_x - win_w - POPUP_OFFSET
            } else {
                x
            };
            let fy = if y + win_h > mon_y + mon_h {
                mouse_y - win_h - POPUP_OFFSET
            } else {
                y
            };
            (fx, fy)
        },
    }
}

/// The monitor geometry lifted to unbounded integers.
pub open spec fn spec_monitor_view(m: Option<(i32, i32, u32, u32)>) -> Option<(int, int, int, int)> {
    match m {
        None => None,
        Some((a, b, c, d)) => Some((a as int, b as int, c as int, d as int)),
    }
}

/// Computes the popup position for a known mouse position.
pub fn popup_position(
    mouse_x: i32,
    mouse_y: i32,
    win_w: u32,
    win_h: u32,
    monitor: Option<(i32, i32, u32, u32)>,
) -> (r: (i64, i64))
    ensures
        (r.0 as int, r.1 as int) == spec_popup_position(
            mouse_x as int,
            mouse_y as int,
            win_w as int,
            win_h as int,
            spec_monitor_view(monitor),
        ),
{
    let x = mouse_x as i64 + POPUP_OFFSET;
    let y = mouse_y as i64 + POPUP_OFFSET;
    match monitor {
        None => (x, y),
        Some((mon_x, mon_y, mon_w, mon_h)) => {
            let fx = if x + win_w as i64 > mon_x as i64 + mon_w as i64 {
                mouse_x as i64 - win_w as i64 - POPUP_OFFSET
            } else {
                x
            };
            let fy = if y + win_h as i64 > mon_y as i64 + mon_h as i64 {
                mouse_y as i64 - win_h as i64 - POPUP_OFFSET
            } else {
                y
            };
            (fx, fy)
        },
    }
}

} // verus!
