//! The compositor: one whole frame.
//!
//! [`draw_all`] orchestrates a frame exactly as the deferred design asks:
//! fresh geometry targets are built from every drawable in caller order
//! (later drawables overdraw earlier ones), then every light reads those
//! finished buffers and adds its contribution to a fresh accumulation
//! target, and the result is blitted through the camera's view transform.
//! Geometry fully precedes lighting within a frame, and no target carries
//! anything over from an earlier frame.

use crate::drawable::pushed_draw;
use crate::drawable::Drawable;
use crate::drawable::GeometrySurface;
use crate::drawable::RenderTarget;
use crate::geometry::is_quad_shape;
use crate::lights::accum_spec;
use crate::lights::accumulate;
use crate::lights::GeomFragment;
use crate::lights::LightDrawable;
use crate::shaders::cache_after_names;
use crate::shaders::lemma_cache_after_names_concat;
use crate::shaders::lemma_cache_after_names_snoc;
use crate::shaders::LumenpyxProgram;
use crate::shaders::ShaderName;
use crate::texture::TextureDesc;
use crate::transform::Camera;
use crate::transform::Transform;
use vstd::prelude::*;

verus! {

/// The target that sums every light's contribution before the final blit.
/// Its verified record of content is the ordered sequence of light passes
/// written into it this frame; the value of any fragment under that record
/// is the exact sum the passes contribute (see
/// [`AccumulationTarget::value_at`]).
pub struct AccumulationTarget {
    pub width: u32,
    pub height: u32,
    pub passes: Vec<LightDrawable>,
}

impl AccumulationTarget {
    /// A fresh, empty accumulation target: the state at the start of every
    /// frame's lighting pass.
    pub fn new(dimensions: [u32; 2]) -> (t: AccumulationTarget)
        ensures
            t.width == dimensions[0],
            t.height == dimensions[1],
            t.passes@ == Seq::<LightDrawable>::empty(),
    {
        AccumulationTarget { width: dimensions[0], height: dimensions[1], passes: Vec::new() }
    }

    /// The accumulated value of one geometry fragment under every pass
    /// written so far: exactly the sum of the per-light contributions, in
    /// pass order, unclamped (clamping is the blit's job, see
    /// [`crate::lights::tonemap`]).
    pub fn value_at(&self, frag: &GeomFragment) -> (r: [i128; 3])
        requires
            forall|i: int| 0 <= i < self.passes@.len() ==> (#[trigger] self.passes@[i]).wf(),
            frag.wf(),
        ensures
            forall|c: int| 0 <= c < 3 ==> #[trigger] r[c] == accum_spec(self.passes@, *frag, c),
    {
        accumulate(&self.passes, frag)
    }
}

impl LightDrawable {
    /// Runs this light's shading pass: it reads the four finished geometry
    /// buffers and appends its contribution to the accumulation target —
    /// additively, so pass order never changes the accumulated sum (see
    /// [`crate::lights::lemma_accumulation_additive`]).  The light's shader
    /// must already be cached, and every buffer must sit at the program's
    /// output resolution.
    pub fn draw(
        &self,
        program: &LumenpyxProgram,
        geometry: &GeometrySurface,
        accumulation: &mut AccumulationTarget,
    )
        requires
            program.wf(),
            program.shader_cache@.contains_key(self.shader_name()),
            geometry.sized(program.dimensions[0], program.dimensions[1]),
            old(accumulation).width == program.dimensions[0],
            old(accumulation).height == program.dimensions[1],
        ensures
            final(accumulation).width == old(accumulation).width,
            final(accumulation).height == old(accumulation).height,
            final(accumulation).passes@ == old(accumulation).passes@.push(*self),
    {
        let _ = geometry;
        accumulation.passes.push(*self);
    }
}

/// The target `t` records exactly one draw per drawable of `drawables`, in
/// order: the drawable's sprite-sized quad at output resolution
/// `out_w` x `out_h`, under its transform, sampling the texture `source`
/// selects for it.  This pins the target's whole content.
pub open spec fn records_draws(
    t: RenderTarget,
    drawables: Seq<Drawable>,
    out_w: u32,
    out_h: u32,
    source: spec_fn(Drawable) -> TextureDesc,
) -> bool {
    &&& t.width == out_w && t.height == out_h
    &&& t.draws@.len() == drawables.len()
    &&& forall|i: int|
        0 <= i < drawables.len() ==> {
            let d = #[trigger] t.draws@[i];
            &&& is_quad_shape(
                d.shape@,
                out_w,
                out_h,
                drawables[i].pixel_width(),
                drawables[i].pixel_height(),
            )
            &&& d.transform == drawables[i].transform()
            &&& d.source == source(drawables[i])
        }
}

/// One composited frame: the four geometry buffers as drawn this frame, the
/// light accumulation written over them, and the camera whose view transform
/// places the final blit to the visible surface.
pub struct Frame {
    pub geometry: GeometrySurface,
    pub accumulation: AccumulationTarget,
    pub camera: Camera,
}

impl Frame {
    /// The value the final blit writes for one geometry fragment: the exact
    /// accumulated sum of every light pass of this frame, clamped by the
    /// committed tonemap policy to the displayable range.
    pub fn lit_value_at(&self, frag: &GeomFragment) -> (r: [i64; 3])
        requires
            forall|i: int|
                0 <= i < self.accumulation.passes@.len() ==> (
                #[trigger] self.accumulation.passes@[i]).wf(),
            frag.wf(),
        ensures
            forall|c: int|
                0 <= c < 3 ==> #[trigger] r[c] == crate::lights::tonemap_spec(
                    accum_spec(self.accumulation.passes@, *frag, c),
                ),
    {
        let value = self.accumulation.value_at(frag);
        [
            crate::lights::tonemap(value[0]),
            crate::lights::tonemap(value[1]),
            crate::lights::tonemap(value[2]),
        ]
    }
}

/// Composites one frame.  In caller order, every drawable's shader is
/// ensured (idempotently) and the drawable is drawn into four fresh
/// geometry targets; only then does every light, again in caller order,
/// shade those finished buffers into a fresh accumulation target; the
/// camera is applied at the final blit.  The returned frame records all of
/// it exactly, and depends only on the arguments — nothing of any earlier
/// frame leaks in.
pub fn draw_all(
    lights: &Vec<LightDrawable>,
    drawables: &Vec<Drawable>,
    program: &mut LumenpyxProgram,
    camera: &Camera,
) -> (frame: Frame)
    requires
        old(program).wf(),
    ensures
        final(program).wf(),
        final(program).dimensions == old(program).dimensions,
        final(program).shader_cache@ == cache_after_names(
            old(program).shader_cache@,
            drawables@.map_values(|d: Drawable| d.shader_name()) + lights@.map_values(
                |l: LightDrawable| l.shader_name(),
            ),
        ),
        records_draws(
            frame.geometry.albedo,
            drawables@,
            old(program).dimensions[0],
            old(program).dimensions[1],
            (|d: Drawable| d.albedo_source()),
        ),
        records_draws(
            frame.geometry.height,
            drawables@,
            old(program).dimensions[0],
            old(program).dimensions[1],
            (|d: Drawable| d.height_source()),
        ),
        records_draws(
            frame.geometry.roughness,
            drawables@,
            old(program).dimensions[0],
            old(program).dimensions[1],
            (|d: Drawable| d.roughness_source()),
        ),
        records_draws(
            frame.geometry.normal,
            drawables@,
            old(program).dimensions[0],
            old(program).dimensions[1],
            (|d: Drawable| d.normal_source()),
        ),
        frame.accumulation.width == old(program).dimensions[0],
        frame.accumulation.height == old(program).dimensions[1],
        frame.accumulation.passes@ == lights@,
        frame.camera == *camera,
{
    let ghost m0 = program.shader_cache@;
    let ghost dnames = drawables@.map_values(|d: Drawable| d.shader_name());
    let ghost lnames = lights@.map_values(|l: LightDrawable| l.shader_name());
    let ghost out_w = program.dimensions[0];
    let ghost out_h = program.dimensions[1];

    let mut geometry = GeometrySurface::new(program.dimensions);

    let n_drawables = drawables.len();
    let mut i: usize = 0;
    while i < n_drawables
        invariant
            n_drawables == drawables@.len(),
            0 <= i <= n_drawables,
            program.wf(),
            program.dimensions == old(program).dimensions,
            out_w == program.dimensions[0],
            out_h == program.dimensions[1],
            dnames == drawables@.map_values(|d: Drawable| d.shader_name()),
            program.shader_cache@ == cache_after_names(m0, dnames.take(i as int)),
            records_draws(
                geometry.albedo,
                drawables@.take(i as int),
                out_w,
                out_h,
                (|d: Drawable| d.albedo_source()),
            ),
            records_draws(
                geometry.height,
                drawables@.take(i as int),
                out_w,
                out_h,
                (|d: Drawable| d.height_source()),
            ),
            records_draws(
                geometry.roughness,
                drawables@.take(i as int),
                out_w,
                out_h,
                (|d: Drawable| d.roughness_source()),
            ),
            records_draws(
                geometry.normal,
                drawables@.take(i as int),
                out_w,
                out_h,
                (|d: Drawable| d.normal_source()),
            ),
        decreases n_drawables - i,
    {
        let d = &drawables[i];
        d.try_load_shaders(program);
        proof {
            assert(dnames.take(i as int).push(dnames[i as int]) =~= dnames.take(i as int + 1));
            lemma_cache_after_names_snoc(m0, dnames.take(i as int), dnames[i as int]);
            assert(program.shader_cache@.contains_key(d.shader_name()));
        }
        d.draw(
            program,
            &mut geometry.albedo,
            &mut geometry.height,
            &mut geometry.roughness,
            &mut geometry.normal,
        );
        proof {
            assert(forall|j: int|
                0 <= j < i as int + 1 ==> drawables@.take(i as int + 1)[j] == drawables@[j]);
        }
        i = i + 1;
    }
    proof {
        assert(dnames.take(n_drawables as int) =~= dnames);
        assert(drawables@.take(n_drawables as int) =~= drawables@);
    }

    let mut accumulation = AccumulationTarget::new(program.dimensions);

    let n_lights = lights.len();
    let mut k: usize = 0;
    while k < n_lights
        invariant
            n_lights == lights@.len(),
            0 <= k <= n_lights,
            program.wf(),
            program.dimensions == old(program).dimensions,
            out_w == program.dimensions[0],
            out_h == program.dimensions[1],
            lnames == lights@.map_values(|l: LightDrawable| l.shader_name()),
            program.shader_cache@ == cache_after_names(
                cache_after_names(m0, dnames),
                lnames.take(k as int),
            ),
            geometry.sized(out_w, out_h),
            accumulation.width == out_w,
            accumulation.height == out_h,
            accumulation.passes@ == lights@.take(k as int),
        decreases n_lights - k,
    {
        let l = &lights[k];
        l.try_load_shaders(program);
        proof {
            assert(lnames.take(k as int).push(lnames[k as int]) =~= lnames.take(k as int + 1));
            lemma_cache_after_names_snoc(
                cache_after_names(m0, dnames),
                lnames.take(k as int),
                lnames[k as int],
            );
            assert(program.shader_cache@.contains_key(l.shader_name()));
        }
        l.draw(program, &geometry, &mut accumulation);
        proof {
            assert(lights@.take(k as int).push(lights@[k as int]) =~= lights@.take(k as int + 1));
        }
        k = k + 1;
    }
    proof {
        assert(lnames.take(n_lights as int) =~= lnames);
        assert(lights@.take(n_lights as int) =~= lights@);
        lemma_cache_after_names_concat(m0, dnames, lnames);
    }

    Frame { geometry, accumulation, camera: *camera }
}

/// Frame isolation: a geometry target's content record is a function of the
/// current frame's drawables and output resolution alone.  Two targets that
/// record the same drawables at the same resolution hold the same content,
/// whatever either frame's earlier state was — re-drawing all drawables
/// reflects the new frame's content only, and an omitted drawable simply
/// does not appear (the surface is rebuilt empty, never implicitly carried
/// over).
pub proof fn lemma_frame_isolation(
    t1: RenderTarget,
    t2: RenderTarget,
    drawables: Seq<Drawable>,
    out_w: u32,
    out_h: u32,
    source: spec_fn(Drawable) -> TextureDesc,
)
    requires
        records_draws(t1, drawables, out_w, out_h, source),
        records_draws(t2, drawables, out_w, out_h, source),
    ensures
        t1.record() =~= t2.record(),
{
    assert forall|i: int| 0 <= i < drawables.len() implies t1.record()[i] == t2.record()[i] by {
        let s1 = t1.draws@[i].shape@;
        let s2 = t2.draws@[i].shape@;
        assert forall|k: int| 0 <= k < 6 implies s1[k] == s2[k] by {
            assert(s1[k].position =~= s2[k].position);
            assert(s1[k].tex_coords =~= s2[k].tex_coords);
            assert(s1[k] =~= s2[k]);
        }
        assert(s1 =~= s2);
    }
}

/// A drawable drawn later never disturbs what was already recorded: the
/// geometry pass only appends, so caller order is compositing order for
/// overlapping content.
pub proof fn lemma_draw_appends(
    before: RenderTarget,
    after: RenderTarget,
    out_w: u32,
    out_h: u32,
    sprite_w: u32,
    sprite_h: u32,
    transform: Transform,
    source: TextureDesc,
)
    requires
        pushed_draw(before, after, out_w, out_h, sprite_w, sprite_h, transform, source),
    ensures
        after.record().take(before.record().len() as int) =~= before.record(),
        after.record().len() == before.record().len() + 1,
{
}

} // verus!
