use lumenpyx::draw_all;
use lumenpyx::generate_shape;
use lumenpyx::Camera;
use lumenpyx::LumenpyxProgram;
use lumenpyx::Transform;

#[test]
fn transform_stores_position_exactly() {
    let t = Transform::new([1500, -250, 0]);
    assert_eq!(t.position, [1500, -250, 0]);
}

#[test]
fn set_position_replaces_translation() {
    let mut t = Transform::new([0, 0, 0]);
    t.set_position(-1, 2, 3);
    assert_eq!(t.position, [-1, 2, 3]);
}

#[test]
fn camera_stores_position_exactly() {
    let c = Camera::new([10, 20, 30]);
    assert_eq!(c.position, [10, 20, 30]);
}

#[test]
fn quad_at_extreme_sizes_stays_exact() {
    // A sprite larger than the output overflows the screen proportionally;
    // the rational extents stay exact even at the extremes of u32.
    let shape = generate_shape([1, u32::MAX], [u32::MAX, 1]);
    for v in &shape {
        assert_eq!(v.position[0].num.abs(), u32::MAX as i64);
        assert_eq!(v.position[0].den, 1);
        assert_eq!(v.position[1].num.abs(), 1);
        assert_eq!(v.position[1].den, u32::MAX);
    }
}

#[test]
fn empty_frame_composites_cleanly() {
    // No drawables and no lights: empty geometry records, an empty
    // accumulation, and nothing cached.
    let mut program = LumenpyxProgram::new([64, 64]);
    let camera = Camera::new([0, 0, 0]);
    let frame = draw_all(&vec![], &vec![], &mut program, &camera);
    assert_eq!(frame.geometry.albedo.draws.len(), 0);
    assert_eq!(frame.geometry.normal.draws.len(), 0);
    assert_eq!(frame.accumulation.passes.len(), 0);
    assert_eq!(program.shader_cache.len(), 0);
}
