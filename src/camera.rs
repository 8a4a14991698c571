//! The decisions of the camera controller: which way the held keys move and
//! zoom the view and how fast, what a scroll of the wheel does, and the drag
//! gesture that pans the view with the pointer.
//!
//! The arithmetic on the camera's coordinates is done by the host; these
//! functions decide what it is to do.
use vstd::prelude::*;

verus! {

/// Base pan speed, in screen units per frame at the reference rate.
pub const PAN_SPEED: u32 = 5;

/// Base pan speed while the boost key is held.
pub const BOOST_PAN_SPEED: u32 = 20;

/// How many times faster the zoom keys act while the boost key is held.
pub const BOOST_ZOOM_FACTOR: u32 = 4;

/// How many key-zoom steps one notch of the wheel is worth.
pub const SCROLL_ZOOM_STEPS: u32 = 10;

/// Frame rate that movement speeds are stated for; speeds are scaled by it
/// over the calibrated rate.
pub const REFERENCE_FPS: i32 = 144;

/// The keys held during one frame.
#[derive(Clone, Copy, Debug, PartialEq, Eq, Structural)]
pub struct Keys {
    pub right: bool,
    pub left: bool,
    pub up: bool,
    pub down: bool,
    pub boost: bool,
    pub zoom_in: bool,
    pub zoom_out: bool,
}

/// What the held keys ask of the camera during one frame.
#[derive(Clone, Copy, Debug, PartialEq, Eq, Structural)]
pub struct KeyMotion {
    /// Direction of horizontal pan: 1 towards larger x, -1 towards smaller.
    pub dx: i8,
    /// Direction of vertical pan: 1 towards larger y (down the screen).
    pub dy: i8,
    /// Base pan speed.
    pub pan_speed: u32,
    /// Direction of zoom: 1 in, -1 out.
    pub zoom: i8,
    /// Factor on the zoom step.
    pub zoom_rate: u32,
}

/// One axis of movement from the key that moves along it and the key that
/// moves against it; both together cancel.
pub open spec fn axis(forward: bool, back: bool) -> int {
    (if forward { 1int } else { 0int }) - (if back { 1int } else { 0int })
}

/// The motion that `keys` ask for.
pub open spec fn motion_of(keys: Keys) -> KeyMotion {
    KeyMotion {
        dx: axis(keys.right, keys.left) as i8,
        dy: axis(keys.down, keys.up) as i8,
        pan_speed: if keys.boost {
            BOOST_PAN_SPEED
        } else {
            PAN_SPEED
        },
        zoom: axis(keys.zoom_in, keys.zoom_out) as i8,
        zoom_rate: if keys.boost {
            BOOST_ZOOM_FACTOR
        } else {
            1
        },
    }
}

fn axis_step(forward: bool, back: bool) -> (r: i8)
    ensures
        r as int == axis(forward, back),
{
    if forward && !back {
        1
    } else if back && !forward {
        -1
    } else {
        0
    }
}

/// The pan and zoom that the held keys ask for during one frame.
pub fn key_motion(keys: &Keys) -> (m: KeyMotion)
    ensures
        m == motion_of(*keys),
        -1 <= m.dx <= 1,
        -1 <= m.dy <= 1,
        -1 <= m.zoom <= 1,
{
    KeyMotion {
        dx: axis_step(keys.right, keys.left),
        dy: axis_step(keys.down, keys.up),
        pan_speed: if keys.boost {
            BOOST_PAN_SPEED
        } else {
            PAN_SPEED
        },
        zoom: axis_step(keys.zoom_in, keys.zoom_out),
        zoom_rate: if keys.boost {
            BOOST_ZOOM_FACTOR
        } else {
            1
        },
    }
}

/// What one frame's wheel movement does.
#[derive(Clone, Copy, Debug, PartialEq, Eq, Structural)]
pub enum ScrollZoom {
    /// Zoom in about the pointer.
    In,
    /// Zoom out about the pointer.
    Out,
    /// Leave the zoom alone.
    Hold,
}

/// The wheel moved by `notches` (1 up, -1 down, 0 not at all). A notch up
/// zooms in unless the zoom is at its upper bound; a notch down zooms out
/// unless it is at its lower bound.
pub fn scroll_zoom(notches: i8, below_max: bool, above_min: bool) -> (r: ScrollZoom)
    ensures
        r == ScrollZoom::In <==> notches == 1 && below_max,
        r == ScrollZoom::Out <==> notches == -1 && above_min,
{
    if notches == 1 && below_max {
        ScrollZoom::In
    } else if notches == -1 && above_min {
        ScrollZoom::Out
    } else {
        ScrollZoom::Hold
    }
}

/// The drag gesture. While the pointer button is held the view follows the
/// pointer's total displacement from where the press began, measured against
/// `A`, what the host records when the press begins (the pointer's position
/// and the camera's offsets then).
pub enum Drag<A> {
    /// No button held.
    Idle,
    /// Button held since the moment recorded in the anchor.
    Dragging(A),
}

impl<A: Copy> Drag<A> {
    /// One frame of the gesture, with the button held or not, and `here` the
    /// anchor that a press beginning now would record. Returns the anchor
    /// to pan from when a drag that began on an earlier frame goes on.
    pub fn update(&mut self, button_down: bool, here: A) -> (pan_from: Option<A>)
        ensures
            !button_down ==> *final(self) == Drag::<A>::Idle && pan_from == Option::<A>::None,
            button_down && *old(self) == Drag::<A>::Idle ==> *final(self) == Drag::Dragging(here)
                && pan_from == Option::<A>::None,
            *old(self) matches Drag::Dragging(a) ==> (button_down ==> *final(self) == *old(self)
                && pan_from == Some(a)),
    {
        if !button_down {
            *self = Drag::Idle;
            None
        } else {
            match *self {
                Drag::Idle => {
                    *self = Drag::Dragging(here);
                    None
                },
                Drag::Dragging(a) => Some(a),
            }
        }
    }
}

} // verus!
