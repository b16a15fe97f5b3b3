//! The press-and-hold quit control: a box that latches pressed while the
//! pointer holds it down and unlatches on release.

use vstd::prelude::*;
use crate::geom::{contains_point, rect_contains, rect_sums_fit, Rect};
use crate::COORD_LIMIT;

verus! {

pub const EXIT_BUTTON_W: i64 = 100;
pub const EXIT_BUTTON_H: i64 = 25;
pub const EXIT_BUTTON_Y: i64 = 10;

/// The quit control. While `is_pressed` holds, the frame driver treats the
/// quit intent as held.
#[derive(Clone, Copy, PartialEq, Eq, Structural, Debug)]
pub struct ExitButton {
    pub rect: Rect,
    pub is_pressed: bool,
}

/// The pressed state after one frame of pointer input: a press inside the
/// box latches it, a release unlatches it, anything else keeps it.
pub open spec fn button_pressed_after(
    b: ExitButton,
    mouse_down: bool,
    mouse_released: bool,
    mx: int,
    my: int,
) -> bool {
    if mouse_down {
        b.is_pressed || rect_contains(b.rect, mx, my)
    } else if mouse_released {
        false
    } else {
        b.is_pressed
    }
}

impl ExitButton {
    /// The control sits past the right edge of the screen, at two and a
    /// half screen widths.
    pub fn new(screen_w: i64) -> (b: ExitButton)
        requires
            0 <= screen_w <= COORD_LIMIT,
        ensures
            b.rect == (Rect {
                x: (screen_w * 5 / 2) as i64,
                y: EXIT_BUTTON_Y,
                w: EXIT_BUTTON_W,
                h: EXIT_BUTTON_H,
            }),
            !b.is_pressed,
    {
        let x: i64 = (((screen_w * 5) as u64) / 2) as i64;
        ExitButton {
            rect: Rect { x, y: EXIT_BUTTON_Y, w: EXIT_BUTTON_W, h: EXIT_BUTTON_H },
            is_pressed: false,
        }
    }

    /// Latch or unlatch from one frame of pointer state.
    pub fn check_for_press(&mut self, mouse_down: bool, mouse_released: bool, mx: i64, my: i64)
        requires
            rect_sums_fit(old(self).rect),
        ensures
            final(self).rect == old(self).rect,
            final(self).is_pressed == button_pressed_after(
                *old(self), mouse_down, mouse_released, mx as int, my as int),
    {
        if mouse_down {
            if contains_point(&self.rect, mx, my) {
                self.is_pressed = true;
            }
        } else if mouse_released {
            self.is_pressed = false;
        }
    }
}

} // verus!
