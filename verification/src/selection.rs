//! The interactive selection state machine.
//!
//! Pointer and keyboard events drive a two-state machine: `Idle` (no
//! selection) and `Selecting` (a drag in progress, held as a
//! [`SelectionState`]). The machine is a single exhaustive transition
//! function from state and event to next state and action; the platform
//! shell performs the actions (hiding the overlay, starting an export)
//! and owns the repaint cadence through the `needs_paint` flag.

use vstd::prelude::*;
use crate::geometry::corner_max;
use crate::geometry::corner_min;
use crate::geometry::corners_dimensions;
use crate::geometry::dimensions_from_corners;
use crate::geometry::Dimensions;
use crate::geometry::PixelRect;

verus! {

/// Key code of the escape key, the cancel gesture.
pub const ESCAPE_KEY: u32 = 0x1B;

/// A drag in progress: the first corner is fixed at press time, the second
/// follows the pointer. The derived rectangle is always re-computed from
/// the corners, never cached.
#[derive(Clone, Copy, Debug, PartialEq, Eq)]
pub struct SelectionState {
    pub corner1: (i32, i32),
    pub corner2: Option<(i32, i32)>,
}

impl SelectionState {
    /// The corner the derived rectangle spans to: the second corner when
    /// one has been seen, else the first corner again (a zero-area
    /// rectangle at the press point).
    pub open spec fn effective_corner2(&self) -> (i32, i32) {
        match self.corner2 {
            Some(c) => c,
            None => self.corner1,
        }
    }

    /// The axis-aligned rectangle currently spanned by the drag.
    pub fn dimensions(&self) -> (r: Dimensions)
        ensures
            r.view() == corners_dimensions(self.corner1, self.effective_corner2()),
            r.fits(),
    {
        match self.corner2 {
            Some(c2) => dimensions_from_corners(self.corner1, c2),
            None => dimensions_from_corners(self.corner1, self.corner1),
        }
    }
}

/// An input event routed to the selection machine by the message loop.
#[derive(Clone, Copy, Debug, PartialEq, Eq)]
pub enum InputEvent {
    /// Primary button pressed at a point.
    Press { x: i32, y: i32 },
    /// Primary button released at a point.
    Release { x: i32, y: i32 },
    /// Pointer moved to a point.
    Drag { x: i32, y: i32 },
    /// A key was released.
    KeyUp { key: u32 },
    /// A key was pressed; the machine ignores it.
    KeyDown { key: u32 },
}

/// What the platform shell must do after a transition.
#[derive(Clone, Copy, Debug, PartialEq, Eq)]
pub enum Action {
    /// No outward effect.
    Nothing,
    /// Hide the overlay window (cancel without ever having selected).
    HideOverlay,
    /// Hide the overlay and export the committed rectangle, already
    /// expanded by one pixel on the trailing edges.
    Commit { rect: PixelRect },
}

/// The selection machine together with the presentation flags it owns:
/// `needs_paint` coalesces input into one redraw per paint cycle, and
/// `use_dirty_rects` remembers whether the previous present covered the
/// whole surface (it must be cleared whenever the selection is cleared).
#[derive(Clone, Copy, Debug, PartialEq, Eq)]
pub struct OverlayController {
    pub selection: Option<SelectionState>,
    pub needs_paint: bool,
    pub use_dirty_rects: bool,
}

/// A coordinate that leaves room for the one-pixel trailing-edge
/// expansion of the committed rectangle.
pub open spec fn coord_ok(x: int, y: int) -> bool {
    x < i32::MAX && y < i32::MAX
}

/// The coordinates carried by an event leave room for the trailing-edge
/// expansion; key events carry none.
pub open spec fn event_ok(ev: InputEvent) -> bool {
    match ev {
        InputEvent::Press { x, y } => coord_ok(x as int, y as int),
        InputEvent::Release { x, y } => coord_ok(x as int, y as int),
        InputEvent::Drag { x, y } => coord_ok(x as int, y as int),
        InputEvent::KeyUp { .. } => true,
        InputEvent::KeyDown { .. } => true,
    }
}

/// The committed rectangle for a drag from `c1` to `c2`: the spanned
/// rectangle with its right and bottom edges moved out by one pixel, to
/// cover the inclusive endpoint of the drag.
pub open spec fn committed_rect(c1: (i32, i32), c2: (i32, i32)) -> PixelRect {
    PixelRect {
        left: corner_min(c1.0 as int, c2.0 as int) as i32,
        top: corner_min(c1.1 as int, c2.1 as int) as i32,
        right: (corner_max(c1.0 as int, c2.0 as int) + 1) as i32,
        bottom: (corner_max(c1.1 as int, c2.1 as int) + 1) as i32,
    }
}

impl OverlayController {
    /// Every corner the controller holds leaves room for the
    /// trailing-edge expansion.
    pub open spec fn wf(&self) -> bool {
        match self.selection {
            Some(s) => {
                &&& coord_ok(s.corner1.0 as int, s.corner1.1 as int)
                &&& (s.corner2 matches Some(c) ==> coord_ok(c.0 as int, c.1 as int))
            },
            None => true,
        }
    }

    /// A fresh controller: idle, nothing to paint, full presents.
    pub fn new() -> (r: OverlayController)
        ensures
            r.selection is None,
            !r.needs_paint,
            !r.use_dirty_rects,
            r.wf(),
    {
        OverlayController { selection: None, needs_paint: false, use_dirty_rects: false }
    }
}

/// The single exhaustive transition function of the selection machine.
/// Any pairing of event and state not listed in the match is a no-op.
pub open spec fn transition(pre: OverlayController, ev: InputEvent) -> (OverlayController, Action) {
    match (ev, pre.selection) {
        (InputEvent::Press { x, y }, None) => (
            OverlayController {
                selection: Some(SelectionState { corner1: (x, y), corner2: None }),
                needs_paint: true,
                use_dirty_rects: pre.use_dirty_rects,
            },
            Action::Nothing,
        ),
        (InputEvent::Release { x, y }, Some(s)) => (
            OverlayController {
                selection: None,
                needs_paint: pre.needs_paint,
                use_dirty_rects: false,
            },
            Action::Commit { rect: committed_rect(s.corner1, (x, y)) },
        ),
        (InputEvent::Drag { x, y }, Some(s)) => (
            OverlayController {
                selection: Some(SelectionState { corner1: s.corner1, corner2: Some((x, y)) }),
                needs_paint: true,
                use_dirty_rects: pre.use_dirty_rects,
            },
            Action::Nothing,
        ),
        (InputEvent::KeyUp { key }, Some(_)) => if key == ESCAPE_KEY {
            (
                OverlayController {
                    selection: None,
                    needs_paint: true,
                    use_dirty_rects: false,
                },
                Action::Nothing,
            )
        } else {
            (pre, Action::Nothing)
        },
        (InputEvent::KeyUp { key }, None) => if key == ESCAPE_KEY {
            (
                OverlayController {
                    selection: None,
                    needs_paint: pre.needs_paint,
                    use_dirty_rects: false,
                },
                Action::HideOverlay,
            )
        } else {
            (pre, Action::Nothing)
        },
        _ => (pre, Action::Nothing),
    }
}

impl OverlayController {
    /// Feed one event through the machine; the controller moves to the
    /// next state and the returned action tells the shell what to do.
    pub fn process_input(&mut self, ev: InputEvent) -> (a: Action)
        requires
            old(self).wf(),
            event_ok(ev),
        ensures
            (*final(self), a) == transition(*old(self), ev),
            final(self).wf(),
    {
        match ev {
            InputEvent::Press { x, y } => {
                if self.selection.is_none() {
                    self.selection = Some(
                        SelectionState { corner1: (x, y), corner2: None },
                    );
                    self.needs_paint = true;
                }
                Action::Nothing
            },
            InputEvent::Release { x, y } => {
                match self.selection {
                    Some(s) => {
                        let ended = SelectionState { corner1: s.corner1, corner2: Some((x, y)) };
                        let base = ended.dimensions().to_rect();
                        let rect = PixelRect {
                            left: base.left,
                            top: base.top,
                            right: base.right + 1,
                            bottom: base.bottom + 1,
                        };
                        self.selection = None;
                        self.use_dirty_rects = false;
                        Action::Commit { rect }
                    },
                    None => Action::Nothing,
                }
            },
            InputEvent::Drag { x, y } => {
                match self.selection {
                    Some(s) => {
                        self.selection = Some(
                            SelectionState { corner1: s.corner1, corner2: Some((x, y)) },
                        );
                        self.needs_paint = true;
                        Action::Nothing
                    },
                    None => Action::Nothing,
                }
            },
            InputEvent::KeyUp { key } => {
                if key == ESCAPE_KEY {
                    if self.selection.is_some() {
                        self.selection = None;
                        self.use_dirty_rects = false;
                        self.needs_paint = true;
                    } else {
                        self.selection = None;
                        self.use_dirty_rects = false;
                        return Action::HideOverlay;
                    }
                }
                Action::Nothing
            },
            InputEvent::KeyDown { .. } => Action::Nothing,
        }
    }
}

/// Sending the same drag event twice in a row changes nothing after the
/// first application: the second corner is overwritten, never
/// accumulated, so the state after the second application equals the
/// state after the first.
pub proof fn lemma_drag_idempotent(pre: OverlayController, x: i32, y: i32)
    ensures
        ({
            let (s1, _) = transition(pre, InputEvent::Drag { x, y });
            let (s2, _) = transition(s1, InputEvent::Drag { x, y });
            s2 == s1
        }),
{
}

} // verus!
