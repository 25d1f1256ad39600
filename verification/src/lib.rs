//! A minimal retained-mode 2D scene description library.
//!
//! A client registers shapes ([`Geometry`]) and visual styles ([`Paint`]),
//! associates them, and asks for a draw plan: the ordered sequence of
//! fill/stroke commands that a rasterization backend must execute to
//! produce the image. Registration order is draw order; an entry with no
//! assigned paint is drawn with the default paint (opaque black, stroke
//! mode, origin translation).
//!
//! The actual rasterization (path construction, pixel work, image
//! encoding) is the business of an outside 2D graphics backend; this
//! library confines itself to the scene storage model, the handle and
//! association rules, and the computation of the draw plan, all of which
//! are verified.

mod laws;
mod render;
mod scene;
mod traits;
mod types;

pub use laws::lemma_add_geometry_appends_to_plan;
pub use laws::lemma_assign_idempotent;
pub use laws::lemma_assign_overwrites;
pub use laws::lemma_draw_order_matches_registration;
pub use laws::lemma_paint_round_trip;
pub use laws::lemma_unassigned_entry_uses_default_paint;
pub use render::DrawCall;
pub use render::draw_call_at;
pub use render::draw_plan;
pub use render::resolved_paint;
pub use scene::Entry;
pub use scene::GeometryHandle;
pub use scene::GeometryStore;
pub use scene::Handle;
pub use scene::PaintHandle;
pub use scene::PaintStore;
pub use scene::Scene;
pub use scene::SceneView;
pub use traits::Renderer;
pub use types::Error;
pub use types::Geometry;
pub use types::Paint;
pub use types::Rgba;
pub use types::Scalar;
pub use types::Vec2;
pub use types::SCALAR_ONE;
pub use types::SCALAR_ZERO;
pub use types::default_paint;
