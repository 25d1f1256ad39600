//! The scene graph: handle-indexed, append-only tables for geometry and
//! paint, and the association of entries with paints.

use vstd::prelude::*;

use crate::types::Error;
use crate::types::Geometry;
use crate::types::Paint;

verus! {

/// A marker naming the geometry store, so that geometry handles and paint
/// handles are distinct types.
#[derive(Clone, Copy, Debug)]
pub struct GeometryStore;

/// A marker naming the paint store.
#[derive(Clone, Copy, Debug)]
pub struct PaintStore;

/// An opaque reference to a slot in one of the two stores: an index plus,
/// in the type, the identity of the store it was issued from. A handle is
/// valid only for the scene that issued it; a handle carried over from
/// another scene is structurally indistinguishable from a valid one and
/// is caught only where it lies outside the store it is used on.
#[derive(Clone, Copy, Debug)]
pub struct Handle<S> {
    idx: usize,
    store: S,
}

/// A handle issued by `add_geometry`, naming a scene entry.
pub type GeometryHandle = Handle<GeometryStore>;

/// A handle issued by `add_paint`, naming a stored paint.
pub type PaintHandle = Handle<PaintStore>;

impl<S> Handle<S> {
    /// The slot this handle names, as an index into its store's table.
    pub closed spec fn id(self) -> int {
        self.idx as int
    }
}

/// One scene entry: a geometry, fixed at creation, and the handle of the
/// paint assigned to it, if any. The position of the entry in the scene's
/// table is its draw-order position.
#[derive(Clone, Copy, Debug)]
pub struct Entry {
    pub geometry: Geometry,
    pub paint: Option<PaintHandle>,
}

/// The mathematical view of a scene: the sequence of entries in
/// registration (= draw) order, and the table of registered paints.
#[verifier::ext_equal]
pub ghost struct SceneView {
    pub entries: Seq<Entry>,
    pub paints: Seq<Paint>,
}

impl SceneView {
    /// Every paint handle stored in an entry indexes an existing paint.
    /// The scene maintains this at all times: `assign_paint` only stores
    /// handles it has checked, and the paint table only grows.
    pub open spec fn wf(self) -> bool {
        forall|i: int|
            0 <= i < self.entries.len() && self.entries[i].paint is Some
                ==> #[trigger] self.entries[i].paint->Some_0.id() < self.paints.len()
    }

    /// The view after a successful `assign_paint(g, p)`: entry `g` keeps
    /// its geometry and now carries paint `p`; everything else is as it
    /// was.
    pub open spec fn assign(self, g: int, p: PaintHandle) -> SceneView {
        SceneView {
            entries: self.entries.update(
                g,
                Entry { geometry: self.entries[g].geometry, paint: Some(p) },
            ),
            paints: self.paints,
        }
    }
}

/// The scene graph: the geometry and paint stores and the bindings
/// between them. Both stores are append-only; handles are never
/// invalidated or recycled.
pub struct Scene {
    geometries: Vec<Entry>,
    paints: Vec<Paint>,
}

impl View for Scene {
    type V = SceneView;

    closed spec fn view(&self) -> SceneView {
        SceneView { entries: self.geometries@, paints: self.paints@ }
    }
}

impl Scene {
    #[verifier::type_invariant]
    pub(crate) open spec fn inv(self) -> bool {
        self@.wf()
    }

    /// An empty scene: no entries, no paints.
    pub fn new() -> (s: Scene)
        ensures
            s@.entries == Seq::<Entry>::empty(),
            s@.paints == Seq::<Paint>::empty(),
    {
        Scene { geometries: Vec::new(), paints: Vec::new() }
    }

    /// Appends a scene entry for `geometry`, with no paint assigned yet,
    /// and returns its handle. The sequence of `add_geometry` calls
    /// defines the draw order: the new entry is drawn after every entry
    /// already present.
    pub fn add_geometry(&mut self, geometry: Geometry) -> (h: GeometryHandle)
        ensures
            final(self)@.entries == old(self)@.entries.push(
                Entry { geometry, paint: None },
            ),
            final(self)@.paints == old(self)@.paints,
            h.id() == old(self)@.entries.len(),
    {
        proof {
            use_type_invariant(&*self);
        }
        let mut geometries: Vec<Entry> = Vec::new();
        std::mem::swap(&mut geometries, &mut self.geometries);
        let idx = geometries.len();
        geometries.push(Entry { geometry, paint: None });
        self.geometries = geometries;
        Handle { idx, store: GeometryStore }
    }

    /// Registers `paint` in the paint store and returns its handle. The
    /// paint is stored as given, never validated, and never changes.
    pub fn add_paint(&mut self, paint: Paint) -> (h: PaintHandle)
        ensures
            final(self)@.paints == old(self)@.paints.push(paint),
            final(self)@.entries == old(self)@.entries,
            h.id() == old(self)@.paints.len(),
    {
        proof {
            use_type_invariant(&*self);
        }
        // While the entry table is swapped out, the invariant holds of any
        // paint table, so the push cannot break it.
        let mut geometries: Vec<Entry> = Vec::new();
        std::mem::swap(&mut geometries, &mut self.geometries);
        let mut paints: Vec<Paint> = Vec::new();
        std::mem::swap(&mut paints, &mut self.paints);
        let idx = paints.len();
        paints.push(paint);
        self.paints = paints;
        self.geometries = geometries;
        Handle { idx, store: PaintStore }
    }

    /// Binds paint `p` to the scene entry named by `g`, overwriting any
    /// earlier binding of that entry. Fails with `Error::InvalidHandle`,
    /// and leaves the scene unchanged, exactly when either handle does
    /// not index an existing slot of its store — as a handle issued by
    /// another scene may not.
    pub fn assign_paint(&mut self, g: GeometryHandle, p: PaintHandle) -> (r: Result<(), Error>)
        ensures
            r is Ok <==> (0 <= g.id() < old(self)@.entries.len() && 0 <= p.id() < old(
                self,
            )@.paints.len()),
            r is Ok ==> final(self)@ == old(self)@.assign(g.id(), p),
            r is Err ==> final(self)@ == old(self)@ && r == Err::<(), Error>(Error::InvalidHandle),
    {
        proof {
            use_type_invariant(&*self);
        }
        if g.idx < self.geometries.len() && p.idx < self.paints.len() {
            let mut geometries: Vec<Entry> = Vec::new();
            std::mem::swap(&mut geometries, &mut self.geometries);
            let geometry = geometries[g.idx].geometry;
            geometries[g.idx] = Entry { geometry, paint: Some(p) };
            self.geometries = geometries;
            Ok(())
        } else {
            Err(Error::InvalidHandle)
        }
    }

    /// Internal lookup for the renderer: the entry at draw-order
    /// position `i`.
    pub(crate) fn entry_at(&self, i: usize) -> (e: Entry)
        requires
            i < self@.entries.len(),
        ensures
            e == self@.entries[i as int],
    {
        self.geometries[i]
    }

    /// Internal lookup for the renderer: the paint a handle names.
    pub(crate) fn paint_at(&self, h: PaintHandle) -> (p: Paint)
        requires
            h.id() < self@.paints.len(),
        ensures
            p == self@.paints[h.id()],
    {
        self.paints[h.idx]
    }

    /// How many scene entries (geometries) have been registered.
    pub fn geometry_count(&self) -> (n: usize)
        ensures
            n == self@.entries.len(),
    {
        self.geometries.len()
    }

    /// How many paints have been registered.
    pub fn paint_count(&self) -> (n: usize)
        ensures
            n == self@.paints.len(),
    {
        self.paints.len()
    }
}

} // verus!
