//! A block where the top, bottom and side faces have different textures
//! and models; the four side faces share one texture and model.

use vstd::prelude::*;

use crate::BlockType;
use crate::const_into::ConstInto;

verus! {

/// The texture assignment of a pillar block: one texture for all faces,
/// or one each for top, sides and bottom.
#[derive(Debug)]
pub enum PillarTexture {
    Single(Option<String>),
    Multiple(PathsInternal),
}

/// A block where the top, bottom and side faces have different textures
/// and models.
#[derive(Debug)]
pub struct Pillar {
    /// The block's technical name.
    pub name: String,
    /// If no texture is defined, the default texture is used.
    pub texture: PillarTexture,
    /// If no model is defined, the default model is used.
    pub models: PathsInternal,
    /// The catalog id assigned by the table builder.
    pub id: usize,
    /// The texture index assigned by the table builder.
    pub index: usize,
}

/// A complete set of paths for the top, side and bottom faces.
#[derive(Debug)]
pub struct Paths {
    pub up: String,
    pub sides: String,
    pub down: String,
}

/// A set of paths for the top, side and bottom faces where unset faces
/// fall back to a default asset at consumption time.
#[derive(Debug)]
pub struct PathsInternal {
    pub up: Option<String>,
    pub sides: Option<String>,
    pub down: Option<String>,
}

impl PathsInternal {
    /// Whether no face has a path set.
    pub open spec fn is_unset_spec(&self) -> bool {
        &&& self.up is None
        &&& self.sides is None
        &&& self.down is None
    }
}

impl Default for PathsInternal {
    /// The set of face paths with no face set.
    fn default() -> (r: PathsInternal)
        ensures
            r.is_unset_spec(),
    {
        PathsInternal { up: None, sides: None, down: None }
    }
}

impl ConstInto<PathsInternal> for Paths {
    open spec fn spec_into(self) -> PathsInternal {
        PathsInternal { up: Some(self.up), sides: Some(self.sides), down: Some(self.down) }
    }

    fn const_into(self) -> (r: PathsInternal) {
        PathsInternal { up: Some(self.up), sides: Some(self.sides), down: Some(self.down) }
    }
}

impl Pillar {
    /// Whether a single uniform texture has been set.
    pub open spec fn has_uniform_texture_spec(&self) -> bool {
        self.texture matches PillarTexture::Single(t) && t is Some
    }

    /// Whether per-face textures have been set.
    pub open spec fn has_face_textures_spec(&self) -> bool {
        self.texture is Multiple
    }

    /// A new pillar block with the given technical name, no textures, no
    /// models, and id and index still unassigned.
    pub fn new_with_name(name: String) -> (r: Pillar)
        ensures
            r.name == name,
            r.texture == PillarTexture::Single(None::<String>),
            r.models.is_unset_spec(),
            r.id == 0,
            r.index == 0,
    {
        Pillar {
            name,
            texture: PillarTexture::Single(None),
            models: PathsInternal { up: None, sides: None, down: None },
            id: 0,
            index: 0,
        }
    }

    /// Sets one texture used by every face.  Setting a uniform texture
    /// after per-face textures or models exist is a builder misuse, ruled
    /// out at composition time.
    pub fn with_texture(self, texture: String) -> (r: Pillar)
        requires
            !self.has_face_textures_spec(),
            self.models.is_unset_spec(),
        ensures
            r == (Pillar { texture: PillarTexture::Single(Some(texture)), ..self }),
    {
        Pillar { texture: PillarTexture::Single(Some(texture)), ..self }
    }

    /// Sets one texture each for the top, side and bottom faces.  Setting
    /// per-face textures after a uniform texture exists is a builder
    /// misuse, ruled out at composition time.
    pub fn with_textures<P: ConstInto<PathsInternal>>(self, textures: P) -> (r: Pillar)
        requires
            !self.has_uniform_texture_spec(),
        ensures
            r == (Pillar { texture: PillarTexture::Multiple(textures.spec_into()), ..self }),
    {
        Pillar { texture: PillarTexture::Multiple(textures.const_into()), ..self }
    }

    /// Sets one model each for the top, side and bottom faces.  Setting
    /// per-face models after a uniform texture exists is a builder
    /// misuse, ruled out at composition time.
    pub fn with_models<P: ConstInto<PathsInternal>>(self, models: P) -> (r: Pillar)
        requires
            !self.has_uniform_texture_spec(),
        ensures
            r == (Pillar { models: models.spec_into(), ..self }),
    {
        Pillar { models: models.const_into(), ..self }
    }

    /// The number of texture slots this block reserves: 3.
    pub fn get_texture_size() -> (r: usize)
        ensures
            r == 3,
    {
        3
    }

    /// Returns this block with the given texture index assigned.
    pub fn with_index(self, idx: usize) -> (r: Pillar)
        ensures
            r == (Pillar { index: idx, ..self }),
    {
        Pillar { index: idx, ..self }
    }

    /// Assigns the given texture index.
    pub fn set_index(&mut self, idx: usize)
        ensures
            *final(self) == (Pillar { index: idx, ..*old(self) }),
    {
        self.index = idx;
    }

    /// Returns this block with the given catalog id assigned.
    pub fn with_id(self, id: usize) -> (r: Pillar)
        ensures
            r == (Pillar { id, ..self }),
    {
        Pillar { id, ..self }
    }

    /// Assigns the given catalog id.
    pub fn set_id(&mut self, id: usize)
        ensures
            *final(self) == (Pillar { id, ..*old(self) }),
    {
        self.id = id;
    }
}

impl BlockType for Pillar {
    open spec fn spec_name(&self) -> Seq<char> {
        self.name@
    }

    open spec fn spec_id(&self) -> int {
        self.id as int
    }

    open spec fn spec_index(&self) -> int {
        self.index as int
    }

    fn name(&self) -> (r: String) {
        self.name.clone()
    }

    fn id(&self) -> (r: usize) {
        self.id
    }

    fn index(&self) -> (r: usize) {
        self.index
    }
}

} // verus!
