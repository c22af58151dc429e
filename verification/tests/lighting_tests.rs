use lumenpyx::lights::accumulate;
use lumenpyx::lights::tonemap;
use lumenpyx::texture::normal_from_gradient;
use lumenpyx::DirectionalLight;
use lumenpyx::GeomFragment;
use lumenpyx::LightDrawable;
use lumenpyx::FX_ONE;

fn flat_fragment() -> GeomFragment {
    // A fragment of a flat height field: zero gradient, so the synthesized
    // normal points straight out of the screen.
    GeomFragment {
        albedo: [FX_ONE, FX_ONE, FX_ONE],
        height: 0,
        roughness: 0,
        normal: normal_from_gradient(0, 0, FX_ONE),
    }
}

fn light_with_direction(direction: [i64; 3]) -> DirectionalLight {
    DirectionalLight::new(
        direction,
        [FX_ONE, FX_ONE, FX_ONE],  // diffuse
        [FX_ONE, FX_ONE, FX_ONE],  // ambient
        2 * FX_ONE,                // intensity 2.0
        1,                         // falloff 0.001
        10,                        // bias 0.01
    )
}

#[test]
fn flat_height_gives_straight_normal() {
    let n = normal_from_gradient(0, 0, FX_ONE);
    assert_eq!(n, [0, 0, FX_ONE]);
}

#[test]
fn straight_on_light_beats_raking_light() {
    // One 32x32 sprite with a flat (zero-gradient) height map: under a
    // straight-on directional light (0,0,1) the fragment is strictly
    // brighter than under a raking light (1,0,0), ambient and diffuse held
    // equal — the Lambertian term responds to direction.
    let frag = flat_fragment();
    let straight = light_with_direction([0, 0, FX_ONE]);
    let raking = light_with_direction([FX_ONE, 0, 0]);

    let lit_straight = straight.shade(&frag);
    let lit_raking = raking.shade(&frag);
    for c in 0..3 {
        assert!(lit_straight[c] > lit_raking[c]);
    }
    // Exact values: straight on, lambert is 1.0, the height attenuation is
    // 1.0 - 0 - 0.01 = 0.99, so each channel is 1.0 + 1.0*2.0*1.0*0.99.
    assert_eq!(lit_straight, [2980, 2980, 2980]);
    // Raking light on a straight normal: no Lambertian term, ambient only.
    assert_eq!(lit_raking, [FX_ONE, FX_ONE, FX_ONE]);
}

#[test]
fn raking_light_constant_across_flat_normals() {
    // Degenerate case stated explicitly: on a flat normal map the raking
    // light's contribution is the same everywhere — the ambient term.
    let frag_a = flat_fragment();
    let mut frag_b = flat_fragment();
    frag_b.albedo = [0, 0, 0];
    let raking = light_with_direction([FX_ONE, 0, 0]);
    assert_eq!(raking.shade(&frag_a), raking.shade(&frag_b));
}

#[test]
fn two_lights_accumulate_to_sum_of_isolated_contributions() {
    // Additive accumulation: accumulating two lights equals the sum of each
    // light's contribution computed in isolation — exactly, channel for
    // channel, because the model is fixed point.
    let frag = flat_fragment();
    let l1 = LightDrawable::Directional(light_with_direction([0, 0, FX_ONE]));
    let l2 = LightDrawable::Directional(DirectionalLight::new(
        [200, -300, 800],
        [500, 250, 1000],
        [100, 0, 50],
        1500,
        3,
        7,
    ));

    let both = accumulate(&vec![l1, l2], &frag);
    let only_1 = accumulate(&vec![l1], &frag);
    let only_2 = accumulate(&vec![l2], &frag);
    for c in 0..3 {
        assert_eq!(both[c], only_1[c] + only_2[c]);
    }
    // Order does not change the accumulated sum.
    let swapped = accumulate(&vec![l2, l1], &frag);
    assert_eq!(both, swapped);
}

#[test]
fn intensities_add_for_otherwise_identical_lights() {
    // Two lights with intensities I1 and I2 and otherwise identical
    // parameters accumulate to each one's isolated contribution summed.
    let frag = flat_fragment();
    let mut a = light_with_direction([0, 0, FX_ONE]);
    let mut b = light_with_direction([0, 0, FX_ONE]);
    a.intensity = 700;
    b.intensity = 1300;
    let la = LightDrawable::Directional(a);
    let lb = LightDrawable::Directional(b);
    let both = accumulate(&vec![la, lb], &frag);
    let alone_a = accumulate(&vec![la], &frag);
    let alone_b = accumulate(&vec![lb], &frag);
    for c in 0..3 {
        assert_eq!(both[c], alone_a[c] + alone_b[c]);
    }
}

#[test]
fn empty_accumulation_is_dark() {
    let frag = flat_fragment();
    let none = accumulate(&vec![], &frag);
    assert_eq!(none, [0, 0, 0]);
}

#[test]
fn height_attenuation_dims_the_lit_term() {
    // A raised fragment under a falloff-bearing light is dimmer than a
    // ground-level one; ambient light is unaffected.
    let mut low = flat_fragment();
    low.height = 0;
    let mut high = flat_fragment();
    high.height = FX_ONE;
    let mut light = light_with_direction([0, 0, FX_ONE]);
    light.falloff = 500; // 0.5: full height halves the lit term
    light.bias = 0;
    let lit_low = light.shade(&low);
    let lit_high = light.shade(&high);
    for c in 0..3 {
        assert!(lit_high[c] < lit_low[c]);
        assert!(lit_high[c] >= light.ambient_color[c]);
    }
    // Exactly: 1.0 + 2.0 * (1.0 - 0.5) versus 1.0 + 2.0.
    assert_eq!(lit_low[0], 3000);
    assert_eq!(lit_high[0], 2000);
}

#[test]
fn set_direction_changes_nothing_else() {
    let mut light = light_with_direction([0, 0, FX_ONE]);
    light.set_direction(250, -250, 500);
    assert_eq!(light.direction, [250, -250, 500]);
    assert_eq!(light.diffuse_color, [FX_ONE, FX_ONE, FX_ONE]);
    assert_eq!(light.ambient_color, [FX_ONE, FX_ONE, FX_ONE]);
    assert_eq!(light.intensity, 2 * FX_ONE);
    assert_eq!(light.falloff, 1);
    assert_eq!(light.bias, 10);
}

#[test]
fn tonemap_clamps_to_unit_range() {
    // The committed blit policy: plain saturation to [0, 1].
    assert_eq!(tonemap(-5), 0);
    assert_eq!(tonemap(0), 0);
    assert_eq!(tonemap(650), 650);
    assert_eq!(tonemap(FX_ONE as i128), FX_ONE);
    assert_eq!(tonemap(2980), FX_ONE);
}
