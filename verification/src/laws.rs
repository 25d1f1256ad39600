//! The laws of the scene model, stated and proved once and for all: how
//! registration order, paint assignment and the draw plan relate.

use vstd::prelude::*;

use crate::render::DrawCall;
use crate::render::draw_plan;
use crate::scene::Entry;
use crate::scene::PaintHandle;
use crate::scene::SceneView;
use crate::types::Geometry;
use crate::types::default_paint;

verus! {

/// Law: the draw order equals the registration order. The draw plan has
/// one command per scene entry, and command `i` traces exactly the
/// geometry of entry `i` — the entry registered `i`-th.
pub proof fn lemma_draw_order_matches_registration(s: SceneView)
    ensures
        draw_plan(s).len() == s.entries.len(),
        forall|i: int|
            0 <= i < s.entries.len() ==> #[trigger] draw_plan(s)[i].shape
                == s.entries[i].geometry,
{
}

/// Law: registering one more geometry extends the draw plan by exactly
/// one command, drawn last, tracing that geometry with the default paint
/// (no paint is assigned yet); the commands for the earlier entries are
/// unchanged. Applied call by call, this is why the draw order of any
/// sequence of `add_geometry` calls is the call order.
pub proof fn lemma_add_geometry_appends_to_plan(s: SceneView, geometry: Geometry)
    ensures
        draw_plan(
            SceneView {
                entries: s.entries.push(Entry { geometry, paint: None }),
                paints: s.paints,
            },
        ) == draw_plan(s).push(DrawCall { shape: geometry, paint: default_paint() }),
{
    let extended = SceneView {
        entries: s.entries.push(Entry { geometry, paint: None }),
        paints: s.paints,
    };
    assert(draw_plan(extended) =~= draw_plan(s).push(
        DrawCall { shape: geometry, paint: default_paint() },
    ));
}

/// Law: a scene entry with no assigned paint renders with exactly the
/// default paint — opaque black, stroke mode, origin translation.
pub proof fn lemma_unassigned_entry_uses_default_paint(s: SceneView, i: int)
    requires
        0 <= i < s.entries.len(),
        s.entries[i].paint is None,
    ensures
        draw_plan(s)[i].paint == default_paint(),
{
}

/// Law: assigning a paint to an entry overwrites any earlier assignment:
/// after two assignments to the same entry, the scene is in the state the
/// second assignment alone would have produced, so the second paint is
/// the one used at render time.
pub proof fn lemma_assign_overwrites(s: SceneView, g: int, p1: PaintHandle, p2: PaintHandle)
    requires
        0 <= g < s.entries.len(),
    ensures
        s.assign(g, p1).assign(g, p2) == s.assign(g, p2),
        draw_plan(s.assign(g, p1).assign(g, p2)) == draw_plan(s.assign(g, p2)),
{
    assert(s.assign(g, p1).assign(g, p2).entries =~= s.assign(g, p2).entries);
    assert(s.assign(g, p1).assign(g, p2) =~= s.assign(g, p2));
}

/// Law: assignment is idempotent — repeating an assignment with the same
/// arguments leaves the scene in the same state.
pub proof fn lemma_assign_idempotent(s: SceneView, g: int, p: PaintHandle)
    requires
        0 <= g < s.entries.len(),
    ensures
        s.assign(g, p).assign(g, p) == s.assign(g, p),
{
    lemma_assign_overwrites(s, g, p, p);
}

/// Law: a stored paint is reproduced exactly by a render pass. After
/// assigning the paint at table position `p.id()` to entry `g`, the draw
/// plan's command for `g` carries that paint — translation, colour and
/// fill, bit for bit, with no defaulting.
pub proof fn lemma_paint_round_trip(s: SceneView, g: int, p: PaintHandle)
    requires
        0 <= g < s.entries.len(),
        0 <= p.id() < s.paints.len(),
    ensures
        draw_plan(s.assign(g, p))[g].paint == s.paints[p.id()],
        draw_plan(s.assign(g, p))[g].shape == s.entries[g].geometry,
{
}

} // verus!
