//! Tests of the renderer's draw plan: draw order, the default paint, and
//! the exact reproduction of stored paints.

use draw2d_sketch::DrawCall;
use draw2d_sketch::Geometry;
use draw2d_sketch::Paint;
use draw2d_sketch::Rgba;
use draw2d_sketch::Scene;
use draw2d_sketch::Vec2;
use draw2d_sketch::SCALAR_ONE;
use draw2d_sketch::SCALAR_ZERO;

fn bits(value: f64) -> u64 {
    value.to_bits()
}

fn paint(tx: f64, ty: f64, color: [f64; 4], fill: bool) -> Paint {
    Paint {
        translation: Vec2 { x: bits(tx), y: bits(ty) },
        color: Rgba {
            red: bits(color[0]),
            green: bits(color[1]),
            blue: bits(color[2]),
            alpha: bits(color[3]),
        },
        fill,
    }
}

fn default_paint_value() -> Paint {
    Paint {
        translation: Vec2 { x: SCALAR_ZERO, y: SCALAR_ZERO },
        color: Rgba {
            red: SCALAR_ZERO,
            green: SCALAR_ZERO,
            blue: SCALAR_ZERO,
            alpha: SCALAR_ONE,
        },
        fill: false,
    }
}

#[test]
fn scalar_constants_carry_zero_and_one() {
    assert_eq!(f64::from_bits(SCALAR_ZERO), 0.0);
    assert_eq!(f64::from_bits(SCALAR_ONE), 1.0);
}

#[test]
fn default_paint_is_black_opaque_stroke_at_origin() {
    let p = Paint::default();
    assert_eq!(p, default_paint_value());
    assert_eq!(f64::from_bits(p.translation.x), 0.0);
    assert_eq!(f64::from_bits(p.translation.y), 0.0);
    assert_eq!(f64::from_bits(p.color.red), 0.0);
    assert_eq!(f64::from_bits(p.color.green), 0.0);
    assert_eq!(f64::from_bits(p.color.blue), 0.0);
    assert_eq!(f64::from_bits(p.color.alpha), 1.0);
    assert!(!p.fill);
}

#[test]
fn draw_order_is_registration_order() {
    let mut scene = Scene::new();
    let shapes = [
        Geometry::Rect { width: bits(1.0), height: bits(2.0) },
        Geometry::Circle { radius: bits(3.0) },
        Geometry::Rect { width: bits(4.0), height: bits(5.0) },
        Geometry::Circle { radius: bits(6.0) },
    ];
    for shape in shapes {
        scene.add_geometry(shape);
    }
    let plan = scene.render_plan();
    assert_eq!(plan.len(), shapes.len());
    for (call, shape) in plan.iter().zip(shapes) {
        assert_eq!(call.shape, shape);
    }
}

#[test]
fn unassigned_entry_renders_with_the_default_paint() {
    let mut scene = Scene::new();
    scene.add_geometry(Geometry::Rect { width: bits(7.0), height: bits(8.0) });
    // A registered but never assigned paint changes nothing.
    scene.add_paint(paint(9.0, 9.0, [1.0, 1.0, 0.0, 1.0], true));
    let plan = scene.render_plan();
    assert_eq!(plan.len(), 1);
    assert_eq!(plan[0].paint, default_paint_value());
}

#[test]
fn two_rects_scenario() {
    // A 50x50 rectangle at the default paint, then a 100x100 rectangle
    // with a red stroke paint translated to (100, 100): two draw calls in
    // that order, the second red, stroked and centred at (100, 100).
    let mut scene = Scene::new();
    let g1 = scene.add_geometry(Geometry::Rect { width: bits(50.0), height: bits(50.0) });
    let g2 = scene.add_geometry(Geometry::Rect { width: bits(100.0), height: bits(100.0) });
    let red = scene.add_paint(paint(100.0, 100.0, [1.0, 0.0, 0.0, 1.0], false));
    let default = scene.add_paint(Paint::default());
    scene.assign_paint(g1, default).unwrap();
    scene.assign_paint(g2, red).unwrap();

    let plan = scene.render_plan();
    assert_eq!(plan.len(), 2);
    assert_eq!(
        plan[0],
        DrawCall {
            shape: Geometry::Rect { width: bits(50.0), height: bits(50.0) },
            paint: default_paint_value(),
        }
    );
    let second = plan[1];
    assert_eq!(second.shape, Geometry::Rect { width: bits(100.0), height: bits(100.0) });
    assert_eq!(f64::from_bits(second.paint.translation.x), 100.0);
    assert_eq!(f64::from_bits(second.paint.translation.y), 100.0);
    assert_eq!(f64::from_bits(second.paint.color.red), 1.0);
    assert_eq!(f64::from_bits(second.paint.color.green), 0.0);
    assert_eq!(f64::from_bits(second.paint.color.blue), 0.0);
    assert_eq!(f64::from_bits(second.paint.color.alpha), 1.0);
    assert!(!second.paint.fill);
}

#[test]
fn lone_circle_scenario() {
    // A circle of radius 50 with no assigned paint: one draw call, black,
    // stroked, centred at the origin.
    let mut scene = Scene::new();
    scene.add_geometry(Geometry::Circle { radius: bits(50.0) });
    let plan = scene.render_plan();
    assert_eq!(plan.len(), 1);
    assert_eq!(plan[0].shape, Geometry::Circle { radius: bits(50.0) });
    assert_eq!(plan[0].paint, default_paint_value());
    assert!(!plan[0].paint.fill);
    assert_eq!(f64::from_bits(plan[0].paint.translation.x), 0.0);
    assert_eq!(f64::from_bits(plan[0].paint.translation.y), 0.0);
}

#[test]
fn stored_paint_round_trips_exactly() {
    // Translation (-40, 0), colour (0, 1, 0, 1), fill: the draw command
    // reproduces every component bit for bit, with no defaulting.
    let stored = paint(-40.0, 0.0, [0.0, 1.0, 0.0, 1.0], true);
    let mut scene = Scene::new();
    let g = scene.add_geometry(Geometry::Rect { width: bits(100.0), height: bits(200.0) });
    let p = scene.add_paint(stored);
    scene.assign_paint(g, p).unwrap();

    let plan = scene.render_plan();
    assert_eq!(plan.len(), 1);
    let got = plan[0].paint;
    assert_eq!(got, stored);
    assert_eq!(got.translation.x, bits(-40.0));
    assert_eq!(f64::from_bits(got.translation.x), -40.0);
    assert_eq!(f64::from_bits(got.translation.y), 0.0);
    assert_eq!(f64::from_bits(got.color.green), 1.0);
    assert!(got.fill);
}

#[test]
fn render_plan_is_repeatable() {
    // Computing the plan does not change the scene: the plan is the same
    // every time it is asked for.
    let mut scene = Scene::new();
    let g = scene.add_geometry(Geometry::Circle { radius: bits(2.5) });
    let p = scene.add_paint(paint(1.0, -1.0, [0.25, 0.5, 0.75, 1.0], true));
    scene.assign_paint(g, p).unwrap();
    assert_eq!(scene.render_plan(), scene.render_plan());
}
