//! Texture descriptors and normal-map synthesis.
//!
//! A texture on the GPU is opaque; everything the pipeline's logic reads of
//! one is its descriptor: width, height and pixel format.  Normal maps are
//! never loaded from disk — they are synthesized once, at sprite
//! construction, from the height field (a screen-space gradient pass)
//! masked by the albedo image, and are sized exactly like the albedo
//! texture.  The gradient-to-normal encoding that the synthesis pass applies
//! per fragment is given here as well, so its degenerate case (a flat height
//! field yields a straight-up normal) is stated and checked.

use vstd::prelude::*;

verus! {

/// Pixel format of a texture.
#[derive(Clone, Copy, PartialEq, Eq, Structural, Debug)]
pub enum TextureFormat {
    /// Four unsigned 8-bit channels; used for albedo and synthesized normals.
    Rgba8,
    /// Single 8-bit channel; used for height fields and roughness masks.
    R8,
}

/// What the pipeline knows of a GPU texture: its size and format.  The pixel
/// storage itself lives on the GPU and never enters the verified logic.
#[derive(Clone, Copy, PartialEq, Eq, Structural, Debug)]
pub struct TextureDesc {
    pub width: u32,
    pub height: u32,
    pub format: TextureFormat,
}

/// The descriptor of the normal map that synthesis derives for a sprite with
/// the given albedo texture: same width and height, four color channels.
pub open spec fn normal_desc_of(albedo: TextureDesc) -> TextureDesc {
    TextureDesc { width: albedo.width, height: albedo.height, format: TextureFormat::Rgba8 }
}

/// Allocates the render-target descriptor for the one-shot normal-synthesis
/// pass of a sprite: the gradient of `height` masked by `albedo` is written
/// into a fresh four-channel texture sized exactly like the albedo texture,
/// whatever the height field's own size.
pub fn synthesize_normal(height: &TextureDesc, albedo: &TextureDesc) -> (normal: TextureDesc)
    ensures
        normal == normal_desc_of(*albedo),
        normal.width == albedo.width,
        normal.height == albedo.height,
        normal.format == TextureFormat::Rgba8,
{
    let _ = height;
    TextureDesc { width: albedo.width, height: albedo.height, format: TextureFormat::Rgba8 }
}

/// The normal vector the synthesis pass encodes for a fragment whose height
/// field has fixed-point screen-space gradient `(gx, gy)`: the unnormalized
/// height-field normal `(-gx, -gy, one)`, where `one` is the fixed-point
/// unit.  The lighting shader renormalizes, so only the direction matters.
pub fn normal_from_gradient(gx: i64, gy: i64, one: i64) -> (n: [i64; 3])
    requires
        gx != i64::MIN,
        gy != i64::MIN,
    ensures
        n[0] == -gx,
        n[1] == -gy,
        n[2] == one,
        gx == 0 && gy == 0 ==> n[0] == 0 && n[1] == 0 && n[2] == one,
{
    [-gx, -gy, one]
}

/// Dimension law for normal synthesis: for any albedo texture, the
/// synthesized normal map's width and height equal the albedo texture's
/// width and height.
pub proof fn lemma_normal_dimensions(albedo: TextureDesc)
    ensures
        normal_desc_of(albedo).width == albedo.width,
        normal_desc_of(albedo).height == albedo.height,
{
}

} // verus!
