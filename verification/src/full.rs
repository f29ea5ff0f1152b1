//! A block where each of the six faces has its own texture and model.

use vstd::prelude::*;

use crate::BlockType;
use crate::const_into::ConstInto;

verus! {

/// The texture assignment of a full block: one texture for all faces, or
/// one per face.
#[derive(Debug)]
pub enum FullTexture {
    Single(Option<String>),
    Multiple(PathsInternal),
}

/// A block where each of the six faces has its own texture and model.
#[derive(Debug)]
pub struct Full {
    /// The block's technical name.
    pub name: String,
    /// If no texture is defined, the default texture is used.
    pub texture: FullTexture,
    /// If no model is defined, the default model is used.
    pub models: PathsInternal,
    /// The catalog id assigned by the table builder.
    pub id: usize,
    /// The texture index assigned by the table builder.
    pub index: usize,
}

/// A complete set of per-face paths: all six faces must be given.
#[derive(Debug)]
pub struct Paths {
    pub up: String,
    pub north: String,
    pub west: String,
    pub east: String,
    pub south: String,
    pub down: String,
}

/// A set of per-face paths where unset faces fall back to a default
/// asset at consumption time.
#[derive(Debug)]
pub struct PathsInternal {
    pub up: Option<String>,
    pub north: Option<String>,
    pub west: Option<String>,
    pub east: Option<String>,
    pub south: Option<String>,
    pub down: Option<String>,
}

impl PathsInternal {
    /// Whether no face has a path set.
    pub open spec fn is_unset_spec(&self) -> bool {
        &&& self.up is None
        &&& self.north is None
        &&& self.west is None
        &&& self.east is None
        &&& self.south is None
        &&& self.down is None
    }
}

impl Default for PathsInternal {
    /// The set of per-face paths with no face set.
    fn default() -> (r: PathsInternal)
        ensures
            r.is_unset_spec(),
    {
        PathsInternal { up: None, north: None, west: None, east: None, south: None, down: None }
    }
}

impl ConstInto<PathsInternal> for Paths {
    open spec fn spec_into(self) -> PathsInternal {
        PathsInternal {
            up: Some(self.up),
            north: Some(self.north),
            west: Some(self.west),
            east: Some(self.east),
            south: Some(self.south),
            down: Some(self.down),
        }
    }

    fn const_into(self) -> (r: PathsInternal) {
        PathsInternal {
            up: Some(self.up),
            north: Some(self.north),
            west: Some(self.west),
            east: Some(self.east),
            south: Some(self.south),
            down: Some(self.down),
        }
    }
}

impl Full {
    /// Whether a single uniform texture has been set.
    pub open spec fn has_uniform_texture_spec(&self) -> bool {
        self.texture matches FullTexture::Single(t) && t is Some
    }

    /// Whether per-face textures have been set.
    pub open spec fn has_face_textures_spec(&self) -> bool {
        self.texture is Multiple
    }

    /// A new full block with the given technical name, no textures, no
    /// models, and id and index still unassigned.
    pub fn new_with_name(name: String) -> (r: Full)
        ensures
            r.name == name,
            r.texture == FullTexture::Single(None::<String>),
            r.models.is_unset_spec(),
            r.id == 0,
            r.index == 0,
    {
        Full {
            name,
            texture: FullTexture::Single(None),
            models: PathsInternal {
                up: None,
                north: None,
                west: None,
                east: None,
                south: None,
                down: None,
            },
            id: 0,
            index: 0,
        }
    }

    /// Sets one texture used by every face.  Setting a uniform texture
    /// after per-face textures or models exist is a builder misuse, ruled
    /// out at composition time.
    pub fn with_texture(self, texture: String) -> (r: Full)
        requires
            !self.has_face_textures_spec(),
            self.models.is_unset_spec(),
        ensures
            r == (Full { texture: FullTexture::Single(Some(texture)), ..self }),
    {
        Full { texture: FullTexture::Single(Some(texture)), ..self }
    }

    /// Sets one texture per face.  Setting per-face textures after a
    /// uniform texture exists is a builder misuse, ruled out at
    /// composition time.
    pub fn with_textures<P: ConstInto<PathsInternal>>(self, textures: P) -> (r: Full)
        requires
            !self.has_uniform_texture_spec(),
        ensures
            r == (Full { texture: FullTexture::Multiple(textures.spec_into()), ..self }),
    {
        Full { texture: FullTexture::Multiple(textures.const_into()), ..self }
    }

    /// Sets one model per face.  Setting per-face models after a uniform
    /// texture exists is a builder misuse, ruled out at composition time.
    pub fn with_models<P: ConstInto<PathsInternal>>(self, models: P) -> (r: Full)
        requires
            !self.has_uniform_texture_spec(),
        ensures
            r == (Full { models: models.spec_into(), ..self }),
    {
        Full { models: models.const_into(), ..self }
    }

    /// The number of texture slots this block reserves: 6.
    pub fn get_texture_size() -> (r: usize)
        ensures
            r == 6,
    {
        6
    }

    /// Returns this block with the given texture index assigned.
    pub fn with_index(self, idx: usize) -> (r: Full)
        ensures
            r == (Full { index: idx, ..self }),
    {
        Full { index: idx, ..self }
    }

    /// Assigns the given texture index.
    pub fn set_index(&mut self, idx: usize)
        ensures
            *final(self) == (Full { index: idx, ..*old(self) }),
    {
        self.index = idx;
    }

    /// Returns this block with the given catalog id assigned.
    pub fn with_id(self, id: usize) -> (r: Full)
        ensures
            r == (Full { id, ..self }),
    {
        Full { id, ..self }
    }

    /// Assigns the given catalog id.
    pub fn set_id(&mut self, id: usize)
        ensures
            *final(self) == (Full { id, ..*old(self) }),
    {
        self.id = id;
    }
}

impl BlockType for Full {
    open spec fn spec_name(&self) -> Seq<char> {
        self.name@
    }

    open spec fn spec_id(&self) -> int {
        self.id as int
    }

    open spec fn spec_index(&self) -> int {
        self.index as int
    }

    fn name(&self) -> (r: String) {
        self.name.clone()
    }

    fn id(&self) -> (r: usize) {
        self.id
    }

    fn index(&self) -> (r: usize) {
        self.index
    }
}

} // verus!
