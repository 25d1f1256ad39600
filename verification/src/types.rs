//! The data model: scalars, shapes, paints and the error type.

use vstd::prelude::*;

verus! {

/// A scalar quantity of the scene: a width, a coordinate or a colour
/// component. It is carried opaquely as the 64 bits of a double-precision
/// value; the scene logic never interprets it, it only stores it and hands
/// it to the rasterization backend, which turns the bits back into a
/// number when it draws. Carrying the raw bits keeps the library free of
/// floating point and makes the round trip from registration to draw plan
/// exact, bit for bit.
pub type Scalar = u64;

/// The `Scalar` carrying the value zero: the bit pattern of `0.0`.
pub const SCALAR_ZERO: Scalar = 0;

/// The `Scalar` carrying the value one: the bit pattern of `1.0`. The
/// default paint uses it for its alpha component.
pub const SCALAR_ONE: Scalar = 0x3FF0_0000_0000_0000;

/// A 2D translation: where a shape's geometric centre is placed.
#[derive(Clone, Copy, Debug, PartialEq, Eq, Structural)]
pub struct Vec2 {
    pub x: Scalar,
    pub y: Scalar,
}

/// An RGBA colour. Each component is intended to lie in `[0, 1]` but is
/// not validated; out-of-range components are handed to the backend as
/// they are.
#[derive(Clone, Copy, Debug, PartialEq, Eq, Structural)]
pub struct Rgba {
    pub red: Scalar,
    pub green: Scalar,
    pub blue: Scalar,
    pub alpha: Scalar,
}

/// A shape description: dimensions only, no position and no style. A
/// rectangle is axis-aligned, `width` being its x-extent and `height` its
/// y-extent. Dimensions are not validated; a negative width or radius is
/// stored as given and its rasterization is backend-defined.
#[derive(Clone, Copy, Debug, PartialEq, Eq, Structural)]
pub enum Geometry {
    Rect { width: Scalar, height: Scalar },
    Circle { radius: Scalar },
}

/// A visual style: a 2D translation (the drawn shape is centred on it),
/// an RGBA source colour, and a flag choosing a fill (`true`) or a stroke
/// (`false`) operation.
#[derive(Clone, Copy, Debug, PartialEq, Eq, Structural)]
pub struct Paint {
    pub translation: Vec2,
    pub color: Rgba,
    pub fill: bool,
}

/// The default paint: origin translation, opaque black, stroke mode. A
/// scene entry with no assigned paint is drawn with exactly this paint.
pub open spec fn default_paint() -> Paint {
    Paint {
        translation: Vec2 { x: SCALAR_ZERO, y: SCALAR_ZERO },
        color: Rgba {
            red: SCALAR_ZERO,
            green: SCALAR_ZERO,
            blue: SCALAR_ZERO,
            alpha: SCALAR_ONE,
        },
        fill: false,
    }
}

impl Default for Paint {
    /// Returns the default paint.
    fn default() -> (p: Paint)
        ensures
            p == default_paint(),
    {
        Paint {
            translation: Vec2 { x: SCALAR_ZERO, y: SCALAR_ZERO },
            color: Rgba {
                red: SCALAR_ZERO,
                green: SCALAR_ZERO,
                blue: SCALAR_ZERO,
                alpha: SCALAR_ONE,
            },
            fill: false,
        }
    }
}

/// What can go wrong inside the scene model itself. Backend and output
/// failures arise outside the library, in the code that drives the
/// rasterization backend, and are reported there.
#[derive(Clone, Copy, Debug, PartialEq, Eq, Structural)]
pub enum Error {
    /// A handle does not index an existing entry of the store it claims
    /// to point into — it was issued by another scene or never issued.
    InvalidHandle,
}

} // verus!
