//! Texture bookkeeping: the GL texture object id, the role a texture
//! plays in a material, and the asset path it was loaded from. Loading
//! the image and uploading it are the embedding program's work.

use vstd::prelude::*;

verus! {

/// The role a texture plays in a material.
#[derive(Debug, Clone, Copy, PartialEq, Eq, Structural)]
pub enum GlTextureType {
    Diffuse,
    Specular,
}

/// One uploaded texture: its GL object id, its role, and the asset path
/// it was loaded from.
pub struct GlTexture {
    pub id: u32,
    pub tx_type: GlTextureType,
    pub path: String,
}

impl GlTexture {
    /// Record a texture the embedding program uploaded under `id` from
    /// the asset at `path`.
    pub fn new(id: u32, tx_type: GlTextureType, path: String) -> (r: GlTexture)
        ensures
            r.id == id,
            r.tx_type == tx_type,
            r.path@ == path@,
    {
        GlTexture { id, tx_type, path }
    }

    /// The GL object id of the texture.
    pub fn id(&self) -> (r: u32)
        ensures
            r == self.id,
    {
        self.id
    }

    /// The role the texture plays in a material.
    pub fn texture_type(&self) -> (r: GlTextureType)
        ensures
            r == self.tx_type,
    {
        self.tx_type
    }
}

} // verus!
