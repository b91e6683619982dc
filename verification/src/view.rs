//! The viewer's event-driven state.
//!
//! A single integer accumulator holds the zoom level, a flag records
//! whether a held modifier swaps the scroll axis, and the surface size
//! tracks the window.  Every window event maps to one state update and
//! one action for the surrounding event loop to carry out.

use vstd::prelude::*;
use crate::board::{cell_size, cell_size_spec, image_dim, image_dim_spec};

verus! {

/// The zoom accumulator and the axis-swap flag.
///
/// `level` starts at zero and is moved by the whole-number scroll delta
/// of each scroll event; the display scale is derived from it outside
/// this library as `exp(level / 40)`.  `axis_swapped` is true exactly
/// while the modifier is held, and selects which scroll axis moves
/// `level`.
#[derive(Clone, Copy, PartialEq, Eq, Structural, Debug)]
pub struct ZoomState {
    pub level: i32,
    pub axis_swapped: bool,
}

/// A window event, reduced to the plain values the viewer reads.
#[derive(Clone, Copy, PartialEq, Eq, Structural, Debug)]
pub enum Event {
    /// The window was resized to the given physical size.
    Resized(u32, u32),
    /// The user asked to close the window.
    CloseRequested,
    /// The modifier state changed; the payload is whether the swap
    /// modifier is now held.
    ModifiersChanged(bool),
    /// A scroll-wheel line delta, already rounded toward zero to whole
    /// lines: `(delta_x, delta_y)`.
    Scroll(i32, i32),
    /// A mouse button was pressed.
    MouseButtonPressed,
    /// The window must be painted now.
    RedrawRequested,
    /// The event queue drained; the loop is about to go idle.
    MainEventsCleared,
}

/// What the event loop must do after an event is handled.
#[derive(Clone, Copy, PartialEq, Eq, Structural, Debug)]
pub enum Action {
    /// Nothing: wait for the next event.
    Continue,
    /// Leave the event loop.
    Exit,
    /// Propagate the new physical size to the rendering surface.
    Resize(u32, u32),
    /// Ask the window for a redraw.
    RequestRedraw,
    /// Paint a frame from the current state.
    Redraw,
}

/// The scroll delta that moves the zoom level: the vertical one
/// normally, the horizontal one while the axis swap is held.
pub open spec fn scroll_delta(axis_swapped: bool, dx: int, dy: int) -> int {
    if axis_swapped {
        dx
    } else {
        dy
    }
}

/// The zoom level after one scroll event.
pub open spec fn next_level(level: int, axis_swapped: bool, dx: int, dy: int) -> int {
    level + scroll_delta(axis_swapped, dx, dy)
}

/// The whole state of the viewer.
///
/// The checkerboard image is created once, from the window size at
/// startup, and its dimensions never change afterwards; only the surface
/// dimensions follow the window.
#[derive(Clone, Copy, PartialEq, Eq, Structural, Debug)]
pub struct ViewportRenderer {
    /// Width of the checkerboard image, fixed at startup.
    pub image_width: u32,
    /// Height of the checkerboard image, fixed at startup.
    pub image_height: u32,
    /// Current width of the rendering surface.
    pub surface_width: u32,
    /// Current height of the rendering surface.
    pub surface_height: u32,
    /// The zoom accumulator and axis-swap flag.
    pub zoom: ZoomState,
}

impl ViewportRenderer {
    /// Builds the startup state for a window of the given physical size:
    /// surface at window size, checkerboard image sized from it, zoom at
    /// level zero with no axis swap.
    pub fn new(window_width: u32, window_height: u32) -> (r: ViewportRenderer)
        ensures
            r.surface_width == window_width,
            r.surface_height == window_height,
            r.image_width == image_dim_spec(cell_size_spec(window_width, window_height)),
            r.image_height == image_dim_spec(cell_size_spec(window_width, window_height)),
            r.zoom.level == 0,
            !r.zoom.axis_swapped,
    {
        let g = cell_size(window_width, window_height);
        let d = image_dim(g);
        ViewportRenderer {
            image_width: d,
            image_height: d,
            surface_width: window_width,
            surface_height: window_height,
            zoom: ZoomState { level: 0, axis_swapped: false },
        }
    }

    /// Handles one window event: updates the state and says what the
    /// event loop must do next.
    ///
    /// A resize moves only the surface dimensions and never touches the
    /// checkerboard image.  A scroll moves only the zoom level, by the
    /// delta of the selected axis.  A modifier change moves only the
    /// axis-swap flag.  Every other event leaves the state as it was.
    pub fn handle_event(&mut self, e: Event) -> (a: Action)
        requires
            e matches Event::Scroll(dx, dy) ==> i32::MIN <= next_level(
                old(self).zoom.level as int,
                old(self).zoom.axis_swapped,
                dx as int,
                dy as int,
            ) <= i32::MAX,
        ensures
            ({
                let s0 = *old(self);
                let s1 = *final(self);
                match e {
                    Event::Resized(w, h) => {
                        &&& s1.surface_width == w
                        &&& s1.surface_height == h
                        &&& s1.image_width == s0.image_width
                        &&& s1.image_height == s0.image_height
                        &&& s1.zoom == s0.zoom
                        &&& a == Action::Resize(w, h)
                    },
                    Event::CloseRequested => s1 == s0 && a == Action::Exit,
                    Event::ModifiersChanged(shift_held) => {
                        &&& s1.zoom.axis_swapped == shift_held
                        &&& s1.zoom.level == s0.zoom.level
                        &&& s1.surface_width == s0.surface_width
                        &&& s1.surface_height == s0.surface_height
                        &&& s1.image_width == s0.image_width
                        &&& s1.image_height == s0.image_height
                        &&& a == Action::Continue
                    },
                    Event::Scroll(dx, dy) => {
                        &&& s1.zoom.level == next_level(
                            s0.zoom.level as int,
                            s0.zoom.axis_swapped,
                            dx as int,
                            dy as int,
                        )
                        &&& s1.zoom.axis_swapped == s0.zoom.axis_swapped
                        &&& s1.surface_width == s0.surface_width
                        &&& s1.surface_height == s0.surface_height
                        &&& s1.image_width == s0.image_width
                        &&& s1.image_height == s0.image_height
                        &&& a == Action::Continue
                    },
                    Event::MouseButtonPressed => s1 == s0 && a == Action::Continue,
                    Event::RedrawRequested => s1 == s0 && a == Action::Redraw,
                    Event::MainEventsCleared => s1 == s0 && a == Action::RequestRedraw,
                }
            }),
    {
        match e {
            Event::Resized(w, h) => {
                self.surface_width = w;
                self.surface_height = h;
                Action::Resize(w, h)
            },
            Event::CloseRequested => Action::Exit,
            Event::ModifiersChanged(shift_held) => {
                self.zoom.axis_swapped = shift_held;
                Action::Continue
            },
            Event::Scroll(dx, dy) => {
                let d: i32 = if self.zoom.axis_swapped {
                    dx
                } else {
                    dy
                };
                self.zoom.level = self.zoom.level + d;
                Action::Continue
            },
            Event::MouseButtonPressed => Action::Continue,
            Event::RedrawRequested => Action::Redraw,
            Event::MainEventsCleared => Action::RequestRedraw,
        }
    }
}

/// Scroll deltas accumulate commutatively: two scroll events move the
/// zoom level to the same place in either order.
pub proof fn lemma_scroll_order_irrelevant(
    level: int,
    axis_swapped: bool,
    d1x: int,
    d1y: int,
    d2x: int,
    d2y: int,
)
    ensures
        next_level(next_level(level, axis_swapped, d1x, d1y), axis_swapped, d2x, d2y)
            == next_level(next_level(level, axis_swapped, d2x, d2y), axis_swapped, d1x, d1y),
{
}

/// Without the axis swap only the vertical delta moves the level; with
/// it, only the horizontal one.
pub proof fn lemma_axis_selects_delta(level: int, dx: int, dy: int)
    ensures
        next_level(level, false, dx, dy) == level + dy,
        next_level(level, true, dx, dy) == level + dx,
{
}

} // verus!

