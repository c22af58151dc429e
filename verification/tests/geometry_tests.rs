use lumenpyx::generate_shape;

#[test]
fn quad_has_six_vertices() {
    let shape = generate_shape([128, 128], [32, 32]);
    assert_eq!(shape.len(), 6);
}

#[test]
fn quad_extents_are_exact_ratios() {
    // A 32x32 sprite at 128x128 output: every x extent is exactly +-(32/128),
    // every y extent exactly +-(32/128), as exact rationals.
    let shape = generate_shape([128, 128], [32, 32]);
    for v in &shape {
        assert_eq!(v.position[0].den, 128);
        assert_eq!(v.position[1].den, 128);
        assert!(v.position[0].num == 32 || v.position[0].num == -32);
        assert!(v.position[1].num == 32 || v.position[1].num == -32);
    }
    // Both extremes of each axis are attained: the quad is centered.
    assert!(shape.iter().any(|v| v.position[0].num == 32));
    assert!(shape.iter().any(|v| v.position[0].num == -32));
    assert!(shape.iter().any(|v| v.position[1].num == 32));
    assert!(shape.iter().any(|v| v.position[1].num == -32));
}

#[test]
fn quad_corner_layout_and_tex_coords() {
    // Triangle order: bottom-left, bottom-right, top-right; top-right,
    // top-left, bottom-left.  Texture coordinates span the full image.
    let shape = generate_shape([100, 50], [10, 20]);
    let expect = [
        (-10, -20, 0, 0),
        (10, -20, 1, 0),
        (10, 20, 1, 1),
        (10, 20, 1, 1),
        (-10, 20, 0, 1),
        (-10, -20, 0, 0),
    ];
    for (v, (x, y, u, t)) in shape.iter().zip(expect.iter()) {
        assert_eq!(v.position[0].num, *x);
        assert_eq!(v.position[0].den, 100);
        assert_eq!(v.position[1].num, *y);
        assert_eq!(v.position[1].den, 50);
        assert_eq!(v.tex_coords[0], *u);
        assert_eq!(v.tex_coords[1], *t);
    }
}

#[test]
fn quad_aspect_ratio_non_square() {
    // A wide sprite at a non-square resolution keeps each axis independent:
    // x extent 64/256, y extent 16/240.
    let shape = generate_shape([256, 240], [64, 16]);
    for v in &shape {
        assert_eq!(v.position[0].num.abs(), 64);
        assert_eq!(v.position[0].den, 256);
        assert_eq!(v.position[1].num.abs(), 16);
        assert_eq!(v.position[1].den, 240);
    }
}

#[test]
fn quad_for_zero_sized_sprite_collapses() {
    // A zero-pixel sprite yields a degenerate quad at the origin, exactly.
    let shape = generate_shape([128, 128], [0, 0]);
    for v in &shape {
        assert_eq!(v.position[0].num, 0);
        assert_eq!(v.position[1].num, 0);
    }
}
