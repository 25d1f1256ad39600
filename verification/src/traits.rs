//! The client-facing renderer abstraction: what any backend offers.

use vstd::prelude::*;

use crate::types::Geometry;
use crate::types::Paint;

verus! {

/// A retained-mode renderer: geometry and paints are registered and
/// associated, then a single render pass draws every entry in
/// registration order and writes the image out. The verified [`Scene`]
/// model carries the contracts; a backend implementing this trait is
/// expected to keep a `Scene` and to draw its plan, as its registration
/// and association steps cannot fail.
///
/// [`Scene`]: crate::Scene
pub trait Renderer {
    type Error;

    type GeometryHandle;

    type PaintHandle;

    /// Adds a piece of geometry; it will be drawn after everything added
    /// before it.
    fn add_geometry(&mut self, geometry: Geometry) -> Result<Self::GeometryHandle, Self::Error>;

    /// Registers a paint for later assignment.
    fn add_paint(&mut self, paint: Paint) -> Result<Self::PaintHandle, Self::Error>;

    /// Associates a paint with a piece of geometry, replacing any earlier
    /// association.
    fn set_paint(
        &mut self,
        geometry_h: Self::GeometryHandle,
        paint_h: Self::PaintHandle,
    ) -> Result<(), Self::Error>;

    /// Renders all geometry added to the renderer and writes the image
    /// to the output.
    fn render(&mut self) -> Result<(), Self::Error>;
}

} // verus!
