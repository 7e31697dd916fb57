//! The whole-number ends of the two analog stages.
//!
//! The response curves themselves work on fractional numbers and run in the
//! host. What is decided on whole numbers is decided here: which stick feeds
//! which stage, whether a pixel delta is worth a pointer call, how large an
//! emitted scroll tick is, and the smoothing state that a configuration change
//! throws away.

use crate::pointer::PointerAction;
use vstd::prelude::*;

verus! {

/// Largest rounded scroll strength: the strength is capped at one and a half
/// and at most doubled before it is rounded.
pub const MAX_ROUNDED_STRENGTH: i32 = 3;

/// Largest magnitude of an emitted scroll tick: the largest rounded strength,
/// doubled by the boost for a stick that is pushed nearly all the way.
pub const MAX_SCROLL_AMOUNT: i32 = 6;

/// An analog axis of the two sticks.
#[derive(Clone, Copy, Debug, PartialEq, Eq, Structural)]
pub enum Axis {
    LeftStickX,
    LeftStickY,
    RightStickX,
    RightStickY,
}

/// The horizontal and vertical axis of the stick that moves the pointer.
pub open spec fn pointer_axes_of(use_left_stick_for_mouse: bool) -> (Axis, Axis) {
    if use_left_stick_for_mouse {
        (Axis::LeftStickX, Axis::LeftStickY)
    } else {
        (Axis::RightStickX, Axis::RightStickY)
    }
}

/// The axis that scrolls: the vertical axis of the stick that does not move
/// the pointer.
pub open spec fn scroll_axis_of(use_left_stick_for_mouse: bool) -> Axis {
    if use_left_stick_for_mouse {
        Axis::RightStickY
    } else {
        Axis::LeftStickY
    }
}

/// The horizontal and vertical axis of the stick that moves the pointer.
pub fn pointer_axes(use_left_stick_for_mouse: bool) -> (axes: (Axis, Axis))
    ensures
        axes == pointer_axes_of(use_left_stick_for_mouse),
{
    if use_left_stick_for_mouse {
        (Axis::LeftStickX, Axis::LeftStickY)
    } else {
        (Axis::RightStickX, Axis::RightStickY)
    }
}

/// The axis that scrolls.
pub fn scroll_axis(use_left_stick_for_mouse: bool) -> (axis: Axis)
    ensures
        axis == scroll_axis_of(use_left_stick_for_mouse),
{
    if use_left_stick_for_mouse {
        Axis::RightStickY
    } else {
        Axis::LeftStickY
    }
}

/// The pointer call for one tick's pixel deltas: a relative move when at least
/// one delta is not zero, and no call at all when both are zero.
pub fn move_action(dx: i32, dy: i32) -> (action: Option<PointerAction>)
    ensures
        action == if dx != 0 || dy != 0 {
            Some(PointerAction::MoveRelative { dx, dy })
        } else {
            None::<PointerAction>
        },
{
    if dx != 0 || dy != 0 {
        Some(PointerAction::MoveRelative { dx, dy })
    } else {
        None
    }
}

/// The size of an emitted scroll tick: the rounded strength in the direction of
/// the accumulated pressure, and one notch in that direction where the strength
/// rounded to zero.
pub open spec fn tick_amount(rounded: int, upward: bool) -> int {
    let magnitude = if rounded == 0 {
        1
    } else {
        rounded
    };
    if upward {
        magnitude
    } else {
        -magnitude
    }
}

/// The size of an emitted scroll tick, from the rounded strength and the
/// direction of the accumulated pressure.
pub fn scroll_tick(rounded: i32, upward: bool) -> (amount: i32)
    requires
        0 <= rounded <= MAX_ROUNDED_STRENGTH,
    ensures
        amount == tick_amount(rounded as int, upward),
        amount != 0,
        -MAX_ROUNDED_STRENGTH <= amount <= MAX_ROUNDED_STRENGTH,
{
    let direction: i32 = if upward {
        1
    } else {
        -1
    };
    let amount: i32 = rounded * direction;
    if amount == 0 {
        direction
    } else {
        amount
    }
}

/// The tick after the boost: doubled where the stick is pushed nearly all the
/// way, unchanged otherwise.
pub open spec fn boosted_amount(amount: int, strong_deflection: bool) -> int {
    if strong_deflection {
        2 * amount
    } else {
        amount
    }
}

/// The tick after the boost for a stick that is pushed nearly all the way.
pub fn boost_tick(amount: i32, strong_deflection: bool) -> (boosted: i32)
    requires
        -MAX_ROUNDED_STRENGTH <= amount <= MAX_ROUNDED_STRENGTH,
    ensures
        boosted == boosted_amount(amount as int, strong_deflection),
        -MAX_SCROLL_AMOUNT <= boosted <= MAX_SCROLL_AMOUNT,
        boosted == 0 <==> amount == 0,
{
    if strong_deflection {
        amount * 2
    } else {
        amount
    }
}

/// The pointer call for one tick's scroll amount: a scroll by the negated
/// amount, so that pushing the stick down scrolls down, and no call at all for
/// an amount of zero.
pub fn scroll_action(amount: i32) -> (action: Option<PointerAction>)
    requires
        -MAX_SCROLL_AMOUNT <= amount <= MAX_SCROLL_AMOUNT,
    ensures
        action == if amount != 0 {
            Some(PointerAction::ScrollVertical((-amount) as i32))
        } else {
            None::<PointerAction>
        },
{
    if amount != 0 {
        Some(PointerAction::ScrollVertical(-amount))
    } else {
        None
    }
}

/// Smoothing state of the scroll stage. The three numbers are single-precision
/// bit patterns, which the host's scroll stage reads and writes back; the
/// pattern zero is the number zero.
#[derive(Clone, Copy, Debug, PartialEq, Eq)]
pub struct ScrollState {
    /// Accumulated scroll pressure.
    pub accum: u32,
    /// Smoothed velocity.
    pub momentum: u32,
    /// Seconds since the last emitted tick.
    pub timer: u32,
    /// When the stick last left the dead zone, in milliseconds.
    pub last_time: Option<u64>,
}

impl ScrollState {
    /// The state at rest: no pressure, no momentum, no time counted.
    pub open spec fn zero() -> ScrollState {
        ScrollState { accum: 0, momentum: 0, timer: 0, last_time: None }
    }

    /// A state at rest.
    pub fn new() -> (state: Self)
        ensures
            state == Self::zero(),
    {
        ScrollState { accum: 0, momentum: 0, timer: 0, last_time: None }
    }

    /// Puts the state back to rest.
    pub fn reset(&mut self)
        ensures
            *final(self) == Self::zero(),
    {
        self.accum = 0;
        self.momentum = 0;
        self.timer = 0;
        self.last_time = None;
    }
}

} // verus!
