use rendercore::brush::{brush_pipeline_desc, Brush, BrushUniform};
use rendercore::geometry::Point3;

fn origin() -> Point3<i64> {
    Point3 { x: 0, y: 0, z: 0 }
}

#[test]
fn radius_update_rejects_zero_and_negative() {
    let mut brush = Brush::new(origin(), 5);
    brush.update_radius(0);
    assert_eq!(brush.radius, 5);
    assert_eq!(brush.uniform.radius, 5);
    brush.update_radius(-5);
    assert_eq!(brush.radius, 5);
    assert_eq!(brush.uniform.radius, 5);
}

#[test]
fn radius_then_position_updates_mirror_into_uniform() {
    let mut brush = Brush::new(origin(), 5);
    brush.update_radius(3);
    brush.update_position(Point3 { x: 1, y: 2, z: 3 });
    assert_eq!(
        brush.uniform,
        BrushUniform { position: Point3 { x: 1, y: 2, z: 3 }, radius: 3 }
    );
}

#[test]
fn position_update_is_unconditional() {
    let mut brush = Brush::new(Point3 { x: 4, y: 4, z: 4 }, 2);
    brush.update_position(origin());
    assert_eq!(brush.position, origin());
    assert_eq!(brush.uniform.position, origin());
    assert_eq!(brush.radius, 2);
}

#[test]
fn positive_radius_update_is_applied() {
    let mut brush = Brush::new(origin(), 5);
    brush.update_radius(6);
    assert_eq!(brush.radius, 6);
    assert_eq!(brush.uniform.radius, 6);
    assert_eq!(brush.position, origin());
}

#[test]
fn uniform_updates_touch_one_field() {
    let mut uniform = BrushUniform::new(origin(), 5);
    uniform.update_radius(7);
    assert_eq!(uniform.radius, 7);
    assert_eq!(uniform.position, origin());
    uniform.update_position(Point3 { x: 9, y: 8, z: 7 });
    assert_eq!(uniform.position, Point3 { x: 9, y: 8, z: 7 });
    assert_eq!(uniform.radius, 7);
}

#[test]
fn brush_pipeline_is_isolated_and_blended() {
    let desc = brush_pipeline_desc();
    assert_eq!(desc.uniform_binding, 0);
    assert!(desc.fragment_only_visibility);
    assert!(desc.premultiplied_alpha);
    assert!(!desc.depth_test);
    assert!(desc.cull_back_faces);
    assert_eq!(desc.sample_count, 1);
}
