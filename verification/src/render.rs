//! Per-paint decisions of the preview renderer.
//!
//! Every paint writes the current selection, normalised to the screen,
//! into the shader's per-frame parameter and then presents. When the
//! previous present already covered the full surface and the current
//! selection has positive area, only the selection's bounding rectangle
//! needs presenting (a dirty-rect hint); otherwise the whole surface is
//! presented and the optimisation is re-armed for the next paint. The
//! flag is cleared whenever the selection is cleared, so a newly hidden
//! overlay always repaints in full.

use vstd::prelude::*;
use crate::geometry::corner_max;
use crate::geometry::corner_min;
use crate::geometry::normalised;
use crate::geometry::NormalisedRect;
use crate::geometry::PixelRect;
use crate::selection::OverlayController;
use crate::selection::SelectionState;

verus! {

/// The scope of one present call.
#[derive(Clone, Copy, Debug, PartialEq, Eq)]
pub enum PresentMode {
    /// Present the whole surface.
    Full,
    /// Present only the given sub-rectangle of the surface.
    DirtyRect { rect: PixelRect },
}

/// Everything one paint needs: the shader parameter and the present
/// scope.
#[derive(Clone, Copy, Debug, PartialEq, Eq)]
pub struct PaintPlan {
    pub param: NormalisedRect,
    pub mode: PresentMode,
}

/// The rectangle a selection currently spans, by its edges.
pub open spec fn selection_rect(s: SelectionState) -> PixelRect {
    PixelRect {
        left: corner_min(s.corner1.0 as int, s.effective_corner2().0 as int) as i32,
        top: corner_min(s.corner1.1 as int, s.effective_corner2().1 as int) as i32,
        right: corner_max(s.corner1.0 as int, s.effective_corner2().0 as int) as i32,
        bottom: corner_max(s.corner1.1 as int, s.effective_corner2().1 as int) as i32,
    }
}

/// Whether a selection currently spans at least one pixel.
pub open spec fn selection_has_area(s: SelectionState) -> bool {
    &&& s.corner1.0 != s.effective_corner2().0
    &&& s.corner1.1 != s.effective_corner2().1
}

/// The shader parameter for a paint: the active selection normalised to
/// the screen, or the all-zero parameter when none is active.
pub open spec fn paint_param(
    selection: Option<SelectionState>,
    screen_width: u32,
    screen_height: u32,
) -> NormalisedRect {
    match selection {
        Some(s) => normalised(selection_rect(s), screen_width, screen_height),
        None => NormalisedRect {
            left_num: 0,
            top_num: 0,
            right_num: 0,
            bottom_num: 0,
            screen_width: 1,
            screen_height: 1,
        },
    }
}

/// The present scope for a paint: the selection's bounding rectangle
/// when the previous present covered the full surface and the selection
/// has positive area, else the full surface.
pub open spec fn paint_mode(pre: OverlayController) -> PresentMode {
    match pre.selection {
        Some(s) => if pre.use_dirty_rects && selection_has_area(s) {
            PresentMode::DirtyRect { rect: selection_rect(s) }
        } else {
            PresentMode::Full
        },
        None => PresentMode::Full,
    }
}

impl OverlayController {
    /// Decide one paint: build the shader parameter and the present
    /// scope, consume the pending-repaint flag, and re-arm the
    /// dirty-rect optimisation after a full present.
    pub fn paint_plan(&mut self, screen_width: u32, screen_height: u32) -> (p: PaintPlan)
        requires
            old(self).wf(),
            screen_width > 0,
            screen_height > 0,
        ensures
            p.param == paint_param(old(self).selection, screen_width, screen_height),
            p.mode == paint_mode(*old(self)),
            final(self).selection == old(self).selection,
            final(self).use_dirty_rects,
            !final(self).needs_paint,
            final(self).wf(),
    {
        let plan = match self.selection {
            Some(s) => {
                let dims = s.dimensions();
                let rect = dims.to_rect();
                let param = NormalisedRect::new(rect, screen_width, screen_height);
                if self.use_dirty_rects && dims.has_area() {
                    PaintPlan { param, mode: PresentMode::DirtyRect { rect } }
                } else {
                    PaintPlan { param, mode: PresentMode::Full }
                }
            },
            None => PaintPlan { param: Default::default(), mode: PresentMode::Full },
        };
        self.use_dirty_rects = true;
        self.needs_paint = false;
        plan
    }
}

} // verus!
