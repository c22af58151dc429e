//! Lights and the per-fragment shading contract.
//!
//! A light reads the four composited geometry buffers and writes its own
//! contribution into the accumulation target, additively.  The analytic
//! shading model is fixed point (scale [`FX_ONE`](crate::transform::FX_ONE)):
//! a Lambertian term from the synthesized normal and the light direction,
//! modulated by diffuse color and intensity, attenuated by a height-driven
//! falloff/bias pair, plus the ambient color.  Directions are consumed as
//! stored — normalization is the lighting shader's job, so callers may set
//! non-unit vectors and the model treats them proportionally.
//!
//! Contributions are never clamped per light; clamping happens once, at the
//! final blit ([`tonemap`]), so accumulating two lights equals the sum of
//! their isolated contributions exactly.

use crate::shaders::cache_insert;
use crate::shaders::LumenpyxProgram;
use crate::shaders::ShaderName;
use crate::shaders::ShaderProgram;
use crate::transform::FX_ONE;
use vstd::prelude::*;

verus! {

/// Magnitude cap on every light parameter and fragment channel the shading
/// math consumes (a fixed-point value of 1000.0): with it, every intermediate
/// product fits the machine integers.
pub const MAX_LIGHT_PARAM: i64 = 1_000_000;

/// Largest value one shaded channel can take under [`MAX_LIGHT_PARAM`] and a
/// well-formed fragment.
pub const MAX_SHADE: i64 = 3_000_001_000_000;

/// A directional light: parallel rays of one direction, a diffuse and an
/// ambient color, an intensity, and the height falloff/bias pair that lets
/// the height channel attenuate the lit term.  All values are fixed point at
/// scale [`FX_ONE`]; all are mutable between frames by the caller.
#[derive(Clone, Copy, Debug)]
pub struct DirectionalLight {
    /// Light direction; need not be unit length, the shader renormalizes.
    pub direction: [i64; 3],
    pub diffuse_color: [i64; 3],
    pub ambient_color: [i64; 3],
    pub intensity: i64,
    /// How strongly the height channel attenuates the lit term.
    pub falloff: i64,
    /// Constant attenuation subtracted from the lit term.
    pub bias: i64,
}

/// One fragment of the composited geometry buffers, as the lighting pass
/// reads it: color channels and height/roughness in `[0, FX_ONE]`, the
/// synthesized normal with components in `[-FX_ONE, FX_ONE]`.
#[derive(Clone, Copy, Debug)]
pub struct GeomFragment {
    pub albedo: [i64; 3],
    pub height: i64,
    pub roughness: i64,
    pub normal: [i64; 3],
}

impl GeomFragment {
    /// Channel ranges a decoded geometry fragment always satisfies.
    pub open spec fn wf(self) -> bool {
        &&& forall|c: int| 0 <= c < 3 ==> 0 <= #[trigger] self.albedo[c] <= FX_ONE
        &&& 0 <= self.height <= FX_ONE
        &&& 0 <= self.roughness <= FX_ONE
        &&& forall|c: int| 0 <= c < 3 ==> -FX_ONE <= #[trigger] self.normal[c] <= FX_ONE
    }
}

impl DirectionalLight {
    /// Parameter bounds under which the shading arithmetic is exact on the
    /// machine integers.
    pub open spec fn wf(self) -> bool {
        &&& forall|c: int|
            0 <= c < 3 ==> -MAX_LIGHT_PARAM <= #[trigger] self.direction[c] <= MAX_LIGHT_PARAM
        &&& forall|c: int| 0 <= c < 3 ==> 0 <= #[trigger] self.diffuse_color[c] <= MAX_LIGHT_PARAM
        &&& forall|c: int| 0 <= c < 3 ==> 0 <= #[trigger] self.ambient_color[c] <= MAX_LIGHT_PARAM
        &&& 0 <= self.intensity <= MAX_LIGHT_PARAM
        &&& 0 <= self.falloff <= MAX_LIGHT_PARAM
        &&& 0 <= self.bias <= MAX_LIGHT_PARAM
    }

    /// A directional light with the given parameters, stored exactly.
    pub fn new(
        direction: [i64; 3],
        diffuse_color: [i64; 3],
        ambient_color: [i64; 3],
        intensity: i64,
        falloff: i64,
        bias: i64,
    ) -> (l: DirectionalLight)
        ensures
            l.direction == direction,
            l.diffuse_color == diffuse_color,
            l.ambient_color == ambient_color,
            l.intensity == intensity,
            l.falloff == falloff,
            l.bias == bias,
    {
        DirectionalLight { direction, diffuse_color, ambient_color, intensity, falloff, bias }
    }

    /// Stores a new direction vector as given — no early rejection and no
    /// normalization, which stays the shader's responsibility.  Nothing else
    /// of the light changes.
    pub fn set_direction(&mut self, x: i64, y: i64, z: i64)
        ensures
            final(self).direction[0] == x,
            final(self).direction[1] == y,
            final(self).direction[2] == z,
            final(self).diffuse_color == old(self).diffuse_color,
            final(self).ambient_color == old(self).ambient_color,
            final(self).intensity == old(self).intensity,
            final(self).falloff == old(self).falloff,
            final(self).bias == old(self).bias,
    {
        self.direction = [x, y, z];
    }

    /// Ensures the directional-light shader is cached, compiling it only on
    /// the first call of the process: a single lookup on every later frame.
    pub fn try_load_shaders(&self, program: &mut LumenpyxProgram)
        requires
            old(program).wf(),
        ensures
            final(program).wf(),
            final(program).dimensions == old(program).dimensions,
            final(program).shader_cache@ == cache_insert(
                old(program).shader_cache@,
                ShaderName::DirectionalLight,
                ShaderProgram { name: ShaderName::DirectionalLight },
            ),
    {
        if program.get_shader(ShaderName::DirectionalLight).is_none() {
            program.add_shader(
                ShaderProgram { name: ShaderName::DirectionalLight },
                ShaderName::DirectionalLight,
            );
        }
    }
}

/// The dot product of two fixed-point vectors.
pub open spec fn dot3(a: [i64; 3], b: [i64; 3]) -> int {
    a[0] * b[0] + a[1] * b[1] + a[2] * b[2]
}

/// The Lambertian numerator: the normal/direction dot product, clamped at
/// zero so back-facing fragments receive no directional term.
pub open spec fn lambert_spec(normal: [i64; 3], direction: [i64; 3]) -> int {
    if dot3(normal, direction) < 0 {
        0
    } else {
        dot3(normal, direction)
    }
}

/// The height attenuation term: one, minus the height channel scaled by the
/// light's falloff, minus its bias; clamped at zero.
pub open spec fn atten_spec(height: int, falloff: int, bias: int) -> int {
    let raw = FX_ONE - height * falloff / (FX_ONE as int) - bias;
    if raw < 0 {
        0
    } else {
        raw
    }
}

/// One shaded channel: ambient plus diffuse times intensity times the
/// Lambertian term times the height attenuation, each product brought back
/// to fixed-point scale.
pub open spec fn shade_channel_spec(
    ambient: int,
    diffuse: int,
    intensity: int,
    lambert: int,
    atten: int,
) -> int {
    let t1 = diffuse * intensity / (FX_ONE as int);
    let lu = lambert / (FX_ONE as int);
    let t2 = t1 * lu / (FX_ONE as int);
    let t3 = t2 * atten / (FX_ONE as int);
    ambient + t3
}

/// The full contribution of `light` to channel `c` of a fragment.
pub open spec fn shade_spec(light: DirectionalLight, frag: GeomFragment, c: int) -> int
    recommends
        0 <= c < 3,
{
    shade_channel_spec(
        light.ambient_color[c] as int,
        light.diffuse_color[c] as int,
        light.intensity as int,
        lambert_spec(frag.normal, light.direction),
        atten_spec(frag.height as int, light.falloff as int, light.bias as int),
    )
}

proof fn lemma_signed_mul_bound(a: int, b: int, ma: int, mb: int) by (nonlinear_arith)
    requires
        -ma <= a <= ma,
        -mb <= b <= mb,
        0 <= ma,
        0 <= mb,
    ensures
        -(ma * mb) <= a * b <= ma * mb,
{
}

/// One channel of the shading model on the machine integers; exactly
/// [`shade_channel_spec`].
fn shade_channel(ambient: i64, diffuse: i64, intensity: i64, lambert: u64, atten: u64) -> (r: i64)
    requires
        0 <= ambient <= MAX_LIGHT_PARAM,
        0 <= diffuse <= MAX_LIGHT_PARAM,
        0 <= intensity <= MAX_LIGHT_PARAM,
        lambert <= 3_000_000_000,
        atten <= 1000,
    ensures
        r == shade_channel_spec(
            ambient as int,
            diffuse as int,
            intensity as int,
            lambert as int,
            atten as int,
        ),
        0 <= r <= MAX_SHADE,
{
    proof {
        vstd::arithmetic::mul::lemma_mul_upper_bound(
            diffuse as int,
            1000000,
            intensity as int,
            1000000,
        );
    }
    let t1: u64 = (diffuse as u64) * (intensity as u64) / 1000;
    let lu: u64 = lambert / 1000;
    proof {
        vstd::arithmetic::mul::lemma_mul_upper_bound(t1 as int, 1_000_000_000, lu as int, 3_000_000);
    }
    let t2: u64 = t1 * lu / 1000;
    proof {
        vstd::arithmetic::mul::lemma_mul_upper_bound(t2 as int, 3_000_000_000_000, atten as int, 1000);
    }
    let t3: u64 = t2 * atten / 1000;
    let r: u64 = (ambient as u64) + t3;
    r as i64
}

impl DirectionalLight {
    /// This light's contribution to one geometry fragment, all three
    /// channels, exactly [`shade_spec`].  The result is not clamped — see
    /// [`tonemap`] for the final-blit policy.
    pub fn shade(&self, frag: &GeomFragment) -> (r: [i64; 3])
        requires
            self.wf(),
            frag.wf(),
        ensures
            forall|c: int| 0 <= c < 3 ==> #[trigger] r[c] == shade_spec(*self, *frag, c),
            forall|c: int| 0 <= c < 3 ==> 0 <= #[trigger] r[c] <= MAX_SHADE,
    {
        proof {
            lemma_signed_mul_bound(frag.normal[0] as int, self.direction[0] as int, 1000, 1000000);
            lemma_signed_mul_bound(frag.normal[1] as int, self.direction[1] as int, 1000, 1000000);
            lemma_signed_mul_bound(frag.normal[2] as int, self.direction[2] as int, 1000, 1000000);
        }
        let dot: i64 = frag.normal[0] * self.direction[0] + frag.normal[1] * self.direction[1]
            + frag.normal[2] * self.direction[2];
        let lambert: u64 = if dot < 0 {
            0
        } else {
            dot as u64
        };
        proof {
            vstd::arithmetic::mul::lemma_mul_upper_bound(
                frag.height as int,
                1000,
                self.falloff as int,
                1000000,
            );
        }
        let hf: i64 = ((frag.height as u64 * self.falloff as u64) / 1000) as i64;
        let raw: i64 = FX_ONE - hf - self.bias;
        let atten: u64 = if raw < 0 {
            0
        } else {
            raw as u64
        };
        let r = [
            shade_channel(self.ambient_color[0], self.diffuse_color[0], self.intensity, lambert, atten),
            shade_channel(self.ambient_color[1], self.diffuse_color[1], self.intensity, lambert, atten),
            shade_channel(self.ambient_color[2], self.diffuse_color[2], self.intensity, lambert, atten),
        ];
        r
    }
}

/// The sealed set of light variants the compositor accepts.  Today that is
/// the directional light; further variants extend this enum.
#[derive(Clone, Copy, Debug)]
pub enum LightDrawable {
    Directional(DirectionalLight),
}

impl LightDrawable {
    /// The logical shader name of this light variant.
    pub open spec fn shader_name(self) -> ShaderName {
        match self {
            LightDrawable::Directional(_) => ShaderName::DirectionalLight,
        }
    }

    /// Parameter bounds of the underlying light.
    pub open spec fn wf(self) -> bool {
        match self {
            LightDrawable::Directional(l) => l.wf(),
        }
    }

    /// Ensures this variant's shader is cached; idempotent across frames.
    pub fn try_load_shaders(&self, program: &mut LumenpyxProgram)
        requires
            old(program).wf(),
        ensures
            final(program).wf(),
            final(program).dimensions == old(program).dimensions,
            final(program).shader_cache@ == cache_insert(
                old(program).shader_cache@,
                self.shader_name(),
                ShaderProgram { name: self.shader_name() },
            ),
    {
        match self {
            LightDrawable::Directional(l) => l.try_load_shaders(program),
        }
    }

    /// This light's contribution to one fragment; see
    /// [`DirectionalLight::shade`].
    pub fn shade(&self, frag: &GeomFragment) -> (r: [i64; 3])
        requires
            self.wf(),
            frag.wf(),
        ensures
            forall|c: int| 0 <= c < 3 ==> #[trigger] r[c] == shade_light_spec(*self, *frag, c),
            forall|c: int| 0 <= c < 3 ==> 0 <= #[trigger] r[c] <= MAX_SHADE,
    {
        match self {
            LightDrawable::Directional(l) => l.shade(frag),
        }
    }
}

/// The contribution of one light variant to channel `c` of a fragment.
pub open spec fn shade_light_spec(light: LightDrawable, frag: GeomFragment, c: int) -> int {
    match light {
        LightDrawable::Directional(l) => shade_spec(l, frag, c),
    }
}

/// The accumulated value of channel `c` after every light in `lights` has
/// added its contribution: the exact sum of the per-light terms.
pub open spec fn accum_spec(lights: Seq<LightDrawable>, frag: GeomFragment, c: int) -> int
    decreases lights.len(),
{
    if lights.len() == 0 {
        0
    } else {
        shade_light_spec(lights[0], frag, c) + accum_spec(lights.drop_first(), frag, c)
    }
}

proof fn lemma_accum_snoc(lights: Seq<LightDrawable>, l: LightDrawable, frag: GeomFragment, c: int)
    ensures
        accum_spec(lights.push(l), frag, c) == accum_spec(lights, frag, c) + shade_light_spec(
            l,
            frag,
            c,
        ),
    decreases lights.len(),
{
    assert(lights.push(l).len() == lights.len() + 1);
    assert(accum_spec(lights.push(l), frag, c) == shade_light_spec(lights.push(l)[0], frag, c)
        + accum_spec(lights.push(l).drop_first(), frag, c));
    if lights.len() == 0 {
        assert(lights.push(l)[0] == l);
        assert(lights.push(l).drop_first() =~= Seq::<LightDrawable>::empty());
        assert(accum_spec(Seq::<LightDrawable>::empty(), frag, c) == 0);
        assert(accum_spec(lights, frag, c) == 0);
    } else {
        assert(lights.push(l)[0] == lights[0]);
        assert(lights.push(l).drop_first() =~= lights.drop_first().push(l));
        lemma_accum_snoc(lights.drop_first(), l, frag, c);
        assert(accum_spec(lights, frag, c) == shade_light_spec(lights[0], frag, c) + accum_spec(
            lights.drop_first(),
            frag,
            c,
        ));
    }
}

/// Runs every light over one fragment and sums the contributions, in input
/// order: channel `c` of the result is exactly the sum of the per-light
/// shaded values, with no clamping and no loss.
pub fn accumulate(lights: &Vec<LightDrawable>, frag: &GeomFragment) -> (r: [i128; 3])
    requires
        forall|i: int| 0 <= i < lights@.len() ==> (#[trigger] lights@[i]).wf(),
        frag.wf(),
    ensures
        forall|c: int| 0 <= c < 3 ==> #[trigger] r[c] == accum_spec(lights@, *frag, c),
{
    let mut acc: [i128; 3] = [0, 0, 0];
    let n = lights.len();
    let mut i: usize = 0;
    while i < n
        invariant
            n == lights@.len(),
            0 <= i <= n,
            forall|j: int| 0 <= j < lights@.len() ==> (#[trigger] lights@[j]).wf(),
            frag.wf(),
            forall|c: int| 0 <= c < 3 ==> #[trigger] acc[c] == accum_spec(lights@.take(i as int), *frag, c),
            forall|c: int| 0 <= c < 3 ==> 0 <= #[trigger] acc[c] <= (i as int) * MAX_SHADE,
        decreases n - i,
    {
        let contribution = lights[i].shade(frag);
        proof {
            assert(lights@.take(i as int).push(lights@[i as int]) =~= lights@.take(i as int + 1));
            lemma_accum_snoc(lights@.take(i as int), lights@[i as int], *frag, 0);
            lemma_accum_snoc(lights@.take(i as int), lights@[i as int], *frag, 1);
            lemma_accum_snoc(lights@.take(i as int), lights@[i as int], *frag, 2);
            assert((i as int) * MAX_SHADE + MAX_SHADE == (i as int + 1) * MAX_SHADE) by (nonlinear_arith);
            assert((i as int + 1) * MAX_SHADE <= 0x1_0000_0000_0000_0000 * MAX_SHADE) by (nonlinear_arith)
                requires
                    0 <= i as int + 1 <= 0x1_0000_0000_0000_0000;
        }
        acc = [
            acc[0] + contribution[0] as i128,
            acc[1] + contribution[1] as i128,
            acc[2] + contribution[2] as i128,
        ];
        i = i + 1;
    }
    proof {
        assert(lights@.take(n as int) =~= lights@);
    }
    acc
}

/// Additive light accumulation, in general: accumulating one run of lights
/// after another contributes exactly the sum of what each run contributes in
/// isolation, channel for channel.
pub proof fn lemma_accumulation_additive(
    s1: Seq<LightDrawable>,
    s2: Seq<LightDrawable>,
    frag: GeomFragment,
    c: int,
)
    ensures
        accum_spec(s1 + s2, frag, c) == accum_spec(s1, frag, c) + accum_spec(s2, frag, c),
    decreases s1.len(),
{
    if s1.len() == 0 {
        assert(s1 + s2 =~= s2);
    } else {
        assert((s1 + s2).drop_first() =~= s1.drop_first() + s2);
        lemma_accumulation_additive(s1.drop_first(), s2, frag, c);
    }
}

/// Additive light accumulation for a pair: the accumulated contribution of
/// two lights at a fragment equals the sum of each light's contribution
/// computed in isolation — exactly, since the model's arithmetic is fixed
/// point rather than floating point.
pub proof fn lemma_two_lights_accumulate(
    l1: LightDrawable,
    l2: LightDrawable,
    frag: GeomFragment,
    c: int,
)
    ensures
        accum_spec(seq![l1, l2], frag, c) == accum_spec(seq![l1], frag, c) + accum_spec(
            seq![l2],
            frag,
            c,
        ),
{
    assert(seq![l1] + seq![l2] =~= seq![l1, l2]);
    lemma_accumulation_additive(seq![l1], seq![l2], frag, c);
}

/// Light order is immaterial to the accumulated result: two lights written
/// in either order accumulate to the same exact value, because accumulation
/// is integer addition (floating-point summation order, a GPU concern, has
/// no counterpart here).
pub proof fn lemma_light_order_irrelevant(
    l1: LightDrawable,
    l2: LightDrawable,
    frag: GeomFragment,
    c: int,
)
    ensures
        accum_spec(seq![l1, l2], frag, c) == accum_spec(seq![l2, l1], frag, c),
{
    lemma_two_lights_accumulate(l1, l2, frag, c);
    lemma_two_lights_accumulate(l2, l1, frag, c);
}

/// The final-blit clamp policy this pipeline commits to: each accumulated
/// channel is clamped to `[0, FX_ONE]` — plain saturation, no curve — when
/// the accumulation target is blitted to the visible surface.
/// The clamp itself, as a value: what the blit makes of an accumulated
/// channel.
pub open spec fn tonemap_spec(v: int) -> int {
    if v < 0 {
        0
    } else if v > FX_ONE {
        FX_ONE as int
    } else {
        v
    }
}

pub fn tonemap(v: i128) -> (r: i64)
    ensures
        r == tonemap_spec(v as int),
        0 <= r <= FX_ONE,
{
    if v < 0 {
        0
    } else if v > FX_ONE as i128 {
        FX_ONE
    } else {
        v as i64
    }
}

} // verus!
