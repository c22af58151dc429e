use lumenpyx::draw_all;
use lumenpyx::Camera;
use lumenpyx::DirectionalLight;
use lumenpyx::Drawable;
use lumenpyx::LightDrawable;
use lumenpyx::LumenpyxProgram;
use lumenpyx::Sprite;
use lumenpyx::TextureDesc;
use lumenpyx::TextureFormat;
use lumenpyx::Transform;
use lumenpyx::FX_ONE;

fn sprite_with_size(w: u32, h: u32) -> Sprite {
    let color = TextureDesc { width: w, height: h, format: TextureFormat::Rgba8 };
    let mask = TextureDesc { width: w, height: h, format: TextureFormat::R8 };
    Sprite::new(color, mask, mask, Transform::new([0, 0, 0]))
}

fn one_light() -> LightDrawable {
    LightDrawable::Directional(DirectionalLight::new(
        [0, 0, FX_ONE],
        [FX_ONE; 3],
        [FX_ONE; 3],
        2 * FX_ONE,
        1,
        10,
    ))
}

#[test]
fn sprite_normal_map_matches_albedo_dimensions() {
    // Synthesized at construction: the normal texture's size equals the
    // albedo texture's size, whatever the height field's size.
    let color = TextureDesc { width: 32, height: 48, format: TextureFormat::Rgba8 };
    let tall = TextureDesc { width: 7, height: 200, format: TextureFormat::R8 };
    let sprite = Sprite::new(color, tall, tall, Transform::new([0, 0, 0]));
    assert_eq!(sprite.normal_texture.width, 32);
    assert_eq!(sprite.normal_texture.height, 48);
    assert_eq!(sprite.normal_texture.format, TextureFormat::Rgba8);
    assert_eq!(sprite.height_texture, tall);
}

#[test]
fn synthesize_normal_dimension_equality() {
    // For any valid non-zero image size the equality holds exactly.
    for (w, h) in [(1u32, 1u32), (32, 32), (640, 480), (1, 4096)] {
        let albedo = TextureDesc { width: w, height: h, format: TextureFormat::Rgba8 };
        let height = TextureDesc { width: 16, height: 16, format: TextureFormat::R8 };
        let normal = lumenpyx::texture::synthesize_normal(&height, &albedo);
        assert_eq!(normal.width, w);
        assert_eq!(normal.height, h);
    }
}

#[test]
fn draw_all_records_one_draw_per_drawable_in_order() {
    let mut program = LumenpyxProgram::new([128, 128]);
    let drawables = vec![
        Drawable::Sprite(sprite_with_size(32, 32)),
        Drawable::Sprite(sprite_with_size(16, 8)),
    ];
    let lights = vec![one_light()];
    let camera = Camera::new([0, 0, 0]);

    let frame = draw_all(&lights, &drawables, &mut program, &camera);

    for target in [
        &frame.geometry.albedo,
        &frame.geometry.height,
        &frame.geometry.roughness,
        &frame.geometry.normal,
    ] {
        assert_eq!(target.width, 128);
        assert_eq!(target.height, 128);
        assert_eq!(target.draws.len(), 2);
        // Caller order is compositing order.
        assert_eq!(target.draws[0].shape[1].position[0].num, 32);
        assert_eq!(target.draws[1].shape[1].position[0].num, 16);
        assert_eq!(target.draws[1].shape[2].position[1].num, 8);
    }
    // Each target samples its own channel's source texture.
    assert_eq!(frame.geometry.albedo.draws[0].source.format, TextureFormat::Rgba8);
    assert_eq!(frame.geometry.height.draws[0].source.format, TextureFormat::R8);
    assert_eq!(frame.geometry.normal.draws[0].source.format, TextureFormat::Rgba8);
    assert_eq!(frame.accumulation.passes.len(), 1);
    assert_eq!(frame.camera.position, [0, 0, 0]);
    // Both shader variants used this frame are cached, once each.
    assert_eq!(program.shader_cache.len(), 2);
}

#[test]
fn frame_isolation_no_ghosting() {
    // Frame N draws two sprites; frame N+1 re-draws only one.  The new
    // geometry buffers reflect frame N+1's content alone: one draw, no
    // stale quad from frame N.
    let mut program = LumenpyxProgram::new([128, 128]);
    let camera = Camera::new([0, 0, 0]);
    let lights = vec![one_light()];

    let frame_n = draw_all(
        &lights,
        &vec![
            Drawable::Sprite(sprite_with_size(32, 32)),
            Drawable::Sprite(sprite_with_size(64, 64)),
        ],
        &mut program,
        &camera,
    );
    assert_eq!(frame_n.geometry.albedo.draws.len(), 2);

    let frame_n1 = draw_all(
        &lights,
        &vec![Drawable::Sprite(sprite_with_size(32, 32))],
        &mut program,
        &camera,
    );
    assert_eq!(frame_n1.geometry.albedo.draws.len(), 1);
    assert_eq!(frame_n1.geometry.albedo.draws[0].shape[1].position[0].num, 32);
    assert_eq!(frame_n1.accumulation.passes.len(), 1);
}

#[test]
fn frames_with_equal_inputs_record_equal_geometry() {
    // Two programs with different histories (one has a warm shader cache)
    // compose the same drawables at the same resolution: the recorded
    // geometry is identical draw for draw.
    let camera = Camera::new([0, 0, 0]);
    let lights = vec![one_light()];
    let drawables = vec![Drawable::Sprite(sprite_with_size(32, 32))];

    let mut fresh = LumenpyxProgram::new([128, 128]);
    let mut warm = LumenpyxProgram::new([128, 128]);
    let _ = draw_all(&lights, &drawables, &mut warm, &camera);

    let f1 = draw_all(&lights, &drawables, &mut fresh, &camera);
    let f2 = draw_all(&lights, &drawables, &mut warm, &camera);
    assert_eq!(f1.geometry.albedo.draws.len(), f2.geometry.albedo.draws.len());
    for (a, b) in f1.geometry.albedo.draws.iter().zip(f2.geometry.albedo.draws.iter()) {
        assert_eq!(a.source, b.source);
        assert_eq!(a.transform.position, b.transform.position);
        assert_eq!(a.shape.len(), b.shape.len());
        for (va, vb) in a.shape.iter().zip(b.shape.iter()) {
            assert_eq!(va.position, vb.position);
            assert_eq!(va.tex_coords, vb.tex_coords);
        }
    }
}

#[test]
fn end_to_end_scene_lights_the_accumulation_target() {
    // One 32x32 sprite at the origin, 128x128 output, one straight-on
    // directional light: the frame records the sprite quad at extents
    // +-(32/128) and one light pass whose accumulated value at a flat
    // fragment is strictly brighter than ambient alone.
    let mut program = LumenpyxProgram::new([128, 128]);
    let camera = Camera::new([0, 0, 0]);
    let drawables = vec![Drawable::Sprite(sprite_with_size(32, 32))];
    let lights = vec![one_light()];

    let frame = draw_all(&lights, &drawables, &mut program, &camera);

    let quad = &frame.geometry.albedo.draws[0].shape;
    assert!(quad.iter().all(|v| v.position[0].num.abs() == 32 && v.position[0].den == 128));

    let frag = lumenpyx::GeomFragment {
        albedo: [FX_ONE; 3],
        height: 0,
        roughness: 0,
        normal: lumenpyx::texture::normal_from_gradient(0, 0, FX_ONE),
    };
    let value = frame.accumulation.value_at(&frag);
    let ambient_only = FX_ONE as i128;
    for c in 0..3 {
        assert!(value[c] > ambient_only);
    }
    assert_eq!(value, [2980, 2980, 2980]);
    // Blitted through the committed tonemap policy the channel saturates.
    assert_eq!(lumenpyx::lights::tonemap(value[0]), FX_ONE);
    assert_eq!(frame.lit_value_at(&frag), [FX_ONE, FX_ONE, FX_ONE]);
}
