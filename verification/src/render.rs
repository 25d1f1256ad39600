//! The renderer's verified half: walking the scene in draw order and
//! resolving each entry's effective paint into a concrete draw command.
//!
//! The plan computed here is everything the rasterization backend needs:
//! for each scene entry, in draw order, the shape to trace and the fully
//! resolved paint (translation of the shape's centre, source colour, fill
//! or stroke). Executing the plan — building the paths, a circle as a
//! full-revolution arc, a rectangle from its centred corners, and finally
//! encoding the pixel buffer — is float work for the backend and stays
//! outside the library.

use vstd::prelude::*;

use crate::scene::Entry;
use crate::scene::Scene;
use crate::scene::SceneView;
use crate::types::Geometry;
use crate::types::Paint;
use crate::types::default_paint;

verus! {

/// One draw command: trace `shape`, centred on `paint.translation`, and
/// fill or stroke it with `paint.color` according to `paint.fill`.
#[derive(Clone, Copy, Debug, PartialEq, Eq, Structural)]
pub struct DrawCall {
    pub shape: Geometry,
    pub paint: Paint,
}

/// The effective paint of the entry at position `i`: the bound paint if
/// one was assigned, else the default paint.
pub open spec fn resolved_paint(s: SceneView, i: int) -> Paint {
    match s.entries[i].paint {
        Some(h) => s.paints[h.id()],
        None => default_paint(),
    }
}

/// The draw command for the entry at position `i`.
pub open spec fn draw_call_at(s: SceneView, i: int) -> DrawCall {
    DrawCall { shape: s.entries[i].geometry, paint: resolved_paint(s, i) }
}

/// The whole draw plan of a scene: one command per entry, in draw order,
/// which is registration order.
pub open spec fn draw_plan(s: SceneView) -> Seq<DrawCall> {
    Seq::new(s.entries.len(), |i: int| draw_call_at(s, i))
}

impl Scene {
    /// Computes the draw plan: one command per scene entry, in draw
    /// order. Entry 0 comes first, so later entries visually occlude
    /// earlier ones where they overlap. The scene is not changed, so the
    /// plan may be recomputed at will and is the same each time.
    pub fn render_plan(&self) -> (plan: Vec<DrawCall>)
        ensures
            plan@ == draw_plan(self@),
    {
        proof {
            use_type_invariant(&*self);
        }
        let n = self.geometry_count();
        let mut plan: Vec<DrawCall> = Vec::new();
        let mut i: usize = 0;
        while i < n
            invariant
                n == self@.entries.len(),
                self@.wf(),
                i <= n,
                plan@ == draw_plan(self@).take(i as int),
            decreases n - i,
        {
            let entry = self.entry_at(i);
            proof {
                assert(entry.paint is Some ==> self@.entries[i as int].paint->Some_0.id()
                    < self@.paints.len());
            }
            let paint = match entry.paint {
                Some(h) => self.paint_at(h),
                None => Paint::default(),
            };
            plan.push(DrawCall { shape: entry.geometry, paint });
            proof {
                assert(plan@ =~= draw_plan(self@).take(i as int + 1));
            }
            i = i + 1;
        }
        proof {
            assert(plan@ =~= draw_plan(self@));
        }
        plan
    }
}

} // verus!
