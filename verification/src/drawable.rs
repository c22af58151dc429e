//! Drawables and the geometry pass.
//!
//! A drawable owns four source textures (albedo, height, roughness, and the
//! normal map synthesized at construction) and a transform, and knows how to
//! render itself once into each of the four shared geometry targets.  A
//! render target here records the draw calls issued against it, in order:
//! that ordered record is precisely what determines the pixels the GPU
//! produces, so contracts about the record are contracts about the frame.
//! Later draws land after earlier ones — caller order is compositing order.

use crate::geometry::generate_shape;
use crate::geometry::is_quad_shape;
use crate::geometry::Vertex;
use crate::shaders::cache_insert;
use crate::shaders::LumenpyxProgram;
use crate::shaders::ShaderName;
use crate::shaders::ShaderProgram;
use crate::texture::normal_desc_of;
use crate::texture::synthesize_normal;
use crate::texture::TextureDesc;
use crate::transform::Transform;
use vstd::prelude::*;

verus! {

/// One draw call recorded against a render target: the quad issued, the
/// model transform, and the source texture sampled across it.
#[verifier::ext_equal]
pub struct DrawCall {
    pub shape: Vec<Vertex>,
    pub transform: Transform,
    pub source: TextureDesc,
}

/// An offscreen 2D render target.  Its pixel storage lives on the GPU; the
/// verified record of its content is the ordered sequence of draw calls
/// issued against it since it was created, which is what determines every
/// pixel of it.
pub struct RenderTarget {
    pub width: u32,
    pub height: u32,
    pub draws: Vec<DrawCall>,
}

impl RenderTarget {
    /// The target's content record: for each draw, in order, the quad, the
    /// transform and the source texture.
    pub open spec fn record(self) -> Seq<(Seq<Vertex>, Transform, TextureDesc)> {
        self.draws@.map_values(|d: DrawCall| (d.shape@, d.transform, d.source))
    }

    /// A freshly allocated target: sized, and with nothing drawn into it.
    pub fn new(width: u32, height: u32) -> (t: RenderTarget)
        ensures
            t.width == width,
            t.height == height,
            t.draws@ == Seq::<DrawCall>::empty(),
    {
        RenderTarget { width, height, draws: Vec::new() }
    }
}

/// The per-frame set of four geometry render targets — albedo, height,
/// roughness, normal — all at the program's output resolution.  Allocated
/// (or cleared) anew each frame, so no content survives from the previous
/// one.
pub struct GeometrySurface {
    pub albedo: RenderTarget,
    pub height: RenderTarget,
    pub roughness: RenderTarget,
    pub normal: RenderTarget,
}

impl GeometrySurface {
    /// All four targets are sized to `w` by `h`.
    pub open spec fn sized(self, w: u32, h: u32) -> bool {
        &&& self.albedo.width == w && self.albedo.height == h
        &&& self.height.width == w && self.height.height == h
        &&& self.roughness.width == w && self.roughness.height == h
        &&& self.normal.width == w && self.normal.height == h
    }

    /// Four empty targets at the given output resolution: the state of the
    /// geometry buffers at the start of every frame, whatever any earlier
    /// frame drew.
    pub fn new(dimensions: [u32; 2]) -> (s: GeometrySurface)
        ensures
            s.sized(dimensions[0], dimensions[1]),
            s.albedo.draws@ == Seq::<DrawCall>::empty(),
            s.height.draws@ == Seq::<DrawCall>::empty(),
            s.roughness.draws@ == Seq::<DrawCall>::empty(),
            s.normal.draws@ == Seq::<DrawCall>::empty(),
    {
        GeometrySurface {
            albedo: RenderTarget::new(dimensions[0], dimensions[1]),
            height: RenderTarget::new(dimensions[0], dimensions[1]),
            roughness: RenderTarget::new(dimensions[0], dimensions[1]),
            normal: RenderTarget::new(dimensions[0], dimensions[1]),
        }
    }
}

/// The draw `target` gained on top of `before`: one new call whose quad is
/// the sprite-sized quad at the output resolution, under the sprite's
/// transform, sampling `source`; everything earlier untouched, size kept.
pub open spec fn pushed_draw(
    before: RenderTarget,
    target: RenderTarget,
    out_w: u32,
    out_h: u32,
    sprite_w: u32,
    sprite_h: u32,
    transform: Transform,
    source: TextureDesc,
) -> bool {
    &&& target.width == before.width && target.height == before.height
    &&& target.draws@.len() == before.draws@.len() + 1
    &&& forall|i: int|
        0 <= i < before.draws@.len() ==> #[trigger] target.draws@[i] == before.draws@[i]
    &&& is_quad_shape(target.draws@.last().shape@, out_w, out_h, sprite_w, sprite_h)
    &&& target.draws@.last().transform == transform
    &&& target.draws@.last().source == source
}

/// A sprite: four source textures and a transform.  The normal texture is
/// synthesized from the height and albedo images exactly once, here at
/// construction, and is sized like the albedo texture; it is not re-derived
/// per frame, so later changes to the source pixels leave it stale by
/// design.
#[derive(Clone, Copy, Debug)]
pub struct Sprite {
    pub albedo_texture: TextureDesc,
    pub height_texture: TextureDesc,
    pub roughness_texture: TextureDesc,
    pub normal_texture: TextureDesc,
    pub transform: Transform,
}

impl Sprite {
    /// The construction invariant: the normal map is the synthesized one,
    /// sized exactly like the albedo texture.
    pub open spec fn wf(self) -> bool {
        self.normal_texture == normal_desc_of(self.albedo_texture)
    }

    /// Builds a sprite from its three loaded source textures and placement,
    /// synthesizing its normal map once.  The GPU layer loads the images and
    /// uploads them before calling this — a missing or corrupt asset fails
    /// there, loudly, and never reaches a sprite.
    pub fn new(
        albedo_texture: TextureDesc,
        height_texture: TextureDesc,
        roughness_texture: TextureDesc,
        transform: Transform,
    ) -> (s: Sprite)
        ensures
            s.albedo_texture == albedo_texture,
            s.height_texture == height_texture,
            s.roughness_texture == roughness_texture,
            s.transform == transform,
            s.normal_texture == normal_desc_of(albedo_texture),
            s.wf(),
    {
        let normal_texture = synthesize_normal(&height_texture, &albedo_texture);
        Sprite { albedo_texture, height_texture, roughness_texture, normal_texture, transform }
    }

    /// Ensures the sprite shader is cached: a single lookup when it already
    /// is — the expected case every frame after the first — and one
    /// compilation otherwise.
    pub fn try_load_shaders(&self, program: &mut LumenpyxProgram)
        requires
            old(program).wf(),
        ensures
            final(program).wf(),
            final(program).dimensions == old(program).dimensions,
            final(program).shader_cache@ == cache_insert(
                old(program).shader_cache@,
                ShaderName::SpriteAhr,
                ShaderProgram { name: ShaderName::SpriteAhr },
            ),
    {
        if program.get_shader(ShaderName::SpriteAhr).is_none() {
            program.add_shader(
                ShaderProgram { name: ShaderName::SpriteAhr },
                ShaderName::SpriteAhr,
            );
        }
    }

    /// Renders this sprite once into each of the four geometry targets: the
    /// same sprite-sized quad and transform four times, sampling the
    /// matching source texture into each target.  The sprite shader must
    /// already be cached (call [`Sprite::try_load_shaders`] first).  The
    /// sprite itself is untouched.
    pub fn draw(
        &self,
        program: &LumenpyxProgram,
        albedo_framebuffer: &mut RenderTarget,
        height_framebuffer: &mut RenderTarget,
        roughness_framebuffer: &mut RenderTarget,
        normal_framebuffer: &mut RenderTarget,
    )
        requires
            program.wf(),
            program.shader_cache@.contains_key(ShaderName::SpriteAhr),
        ensures
            pushed_draw(
                *old(albedo_framebuffer),
                *final(albedo_framebuffer),
                program.dimensions[0],
                program.dimensions[1],
                self.albedo_texture.width,
                self.albedo_texture.height,
                self.transform,
                self.albedo_texture,
            ),
            pushed_draw(
                *old(height_framebuffer),
                *final(height_framebuffer),
                program.dimensions[0],
                program.dimensions[1],
                self.albedo_texture.width,
                self.albedo_texture.height,
                self.transform,
                self.height_texture,
            ),
            pushed_draw(
                *old(roughness_framebuffer),
                *final(roughness_framebuffer),
                program.dimensions[0],
                program.dimensions[1],
                self.albedo_texture.width,
                self.albedo_texture.height,
                self.transform,
                self.roughness_texture,
            ),
            pushed_draw(
                *old(normal_framebuffer),
                *final(normal_framebuffer),
                program.dimensions[0],
                program.dimensions[1],
                self.albedo_texture.width,
                self.albedo_texture.height,
                self.transform,
                self.normal_texture,
            ),
    {
        let sprite_dimensions = [self.albedo_texture.width, self.albedo_texture.height];

        let shape = generate_shape(program.dimensions, sprite_dimensions);
        albedo_framebuffer.draws.push(
            DrawCall { shape, transform: self.transform, source: self.albedo_texture },
        );

        let shape = generate_shape(program.dimensions, sprite_dimensions);
        height_framebuffer.draws.push(
            DrawCall { shape, transform: self.transform, source: self.height_texture },
        );

        let shape = generate_shape(program.dimensions, sprite_dimensions);
        roughness_framebuffer.draws.push(
            DrawCall { shape, transform: self.transform, source: self.roughness_texture },
        );

        let shape = generate_shape(program.dimensions, sprite_dimensions);
        normal_framebuffer.draws.push(
            DrawCall { shape, transform: self.transform, source: self.normal_texture },
        );
    }
}

/// The sealed set of drawable variants the compositor accepts.  Today that
/// is the sprite; further variants extend this enum.
pub enum Drawable {
    Sprite(Sprite),
}

impl Drawable {
    /// The logical shader name of this drawable variant.
    pub open spec fn shader_name(self) -> ShaderName {
        match self {
            Drawable::Sprite(_) => ShaderName::SpriteAhr,
        }
    }

    /// The pixel width that sizes this drawable's quad.
    pub open spec fn pixel_width(self) -> u32 {
        match self {
            Drawable::Sprite(s) => s.albedo_texture.width,
        }
    }

    /// The pixel height that sizes this drawable's quad.
    pub open spec fn pixel_height(self) -> u32 {
        match self {
            Drawable::Sprite(s) => s.albedo_texture.height,
        }
    }

    /// This drawable's placement.
    pub open spec fn transform(self) -> Transform {
        match self {
            Drawable::Sprite(s) => s.transform,
        }
    }

    /// The source texture this drawable samples into the albedo target.
    pub open spec fn albedo_source(self) -> TextureDesc {
        match self {
            Drawable::Sprite(s) => s.albedo_texture,
        }
    }

    /// The source texture this drawable samples into the height target.
    pub open spec fn height_source(self) -> TextureDesc {
        match self {
            Drawable::Sprite(s) => s.height_texture,
        }
    }

    /// The source texture this drawable samples into the roughness target.
    pub open spec fn roughness_source(self) -> TextureDesc {
        match self {
            Drawable::Sprite(s) => s.roughness_texture,
        }
    }

    /// The source texture this drawable samples into the normal target.
    pub open spec fn normal_source(self) -> TextureDesc {
        match self {
            Drawable::Sprite(s) => s.normal_texture,
        }
    }

    /// Ensures this variant's shader is cached; idempotent across frames.
    pub fn try_load_shaders(&self, program: &mut LumenpyxProgram)
        requires
            old(program).wf(),
        ensures
            final(program).wf(),
            final(program).dimensions == old(program).dimensions,
            final(program).shader_cache@ == cache_insert(
                old(program).shader_cache@,
                self.shader_name(),
                ShaderProgram { name: self.shader_name() },
            ),
    {
        match self {
            Drawable::Sprite(s) => s.try_load_shaders(program),
        }
    }

    /// Renders this drawable once into each of the four geometry targets;
    /// see [`Sprite::draw`].  Its shader must already be cached.
    pub fn draw(
        &self,
        program: &LumenpyxProgram,
        albedo_framebuffer: &mut RenderTarget,
        height_framebuffer: &mut RenderTarget,
        roughness_framebuffer: &mut RenderTarget,
        normal_framebuffer: &mut RenderTarget,
    )
        requires
            program.wf(),
            program.shader_cache@.contains_key(self.shader_name()),
        ensures
            pushed_draw(
                *old(albedo_framebuffer),
                *final(albedo_framebuffer),
                program.dimensions[0],
                program.dimensions[1],
                self.pixel_width(),
                self.pixel_height(),
                self.transform(),
                self.albedo_source(),
            ),
            pushed_draw(
                *old(height_framebuffer),
                *final(height_framebuffer),
                program.dimensions[0],
                program.dimensions[1],
                self.pixel_width(),
                self.pixel_height(),
                self.transform(),
                self.height_source(),
            ),
            pushed_draw(
                *old(roughness_framebuffer),
                *final(roughness_framebuffer),
                program.dimensions[0],
                program.dimensions[1],
                self.pixel_width(),
                self.pixel_height(),
                self.transform(),
                self.roughness_source(),
            ),
            pushed_draw(
                *old(normal_framebuffer),
                *final(normal_framebuffer),
                program.dimensions[0],
                program.dimensions[1],
                self.pixel_width(),
                self.pixel_height(),
                self.transform(),
                self.normal_source(),
            ),
    {
        match self {
            Drawable::Sprite(s) => s.draw(
                program,
                albedo_framebuffer,
                height_framebuffer,
                roughness_framebuffer,
                normal_framebuffer,
            ),
        }
    }
}

} // verus!
