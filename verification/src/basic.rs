//! A block where all faces use the same texture and model.

use vstd::prelude::*;

use crate::BlockType;

verus! {

/// A block where all faces use the same texture and model.
#[derive(Debug)]
pub struct Basic {
    /// The block's technical name.
    pub name: String,
    /// If no texture is defined, the default texture is used.
    pub texture: Option<String>,
    /// If no model is defined, the default model is used.
    pub model: Option<String>,
    /// The catalog id assigned by the table builder.
    pub id: usize,
    /// The texture index assigned by the table builder.
    pub index: usize,
}

impl Basic {
    /// A new basic block with the given technical name, no texture, no
    /// model, and id and index still unassigned.
    pub fn new_with_name(name: String) -> (r: Basic)
        ensures
            r == (Basic { name, texture: None, model: None, id: 0, index: 0 }),
    {
        Basic { name, texture: None, model: None, id: 0, index: 0 }
    }

    /// Sets the texture used by every face.
    pub fn with_texture(self, texture: String) -> (r: Basic)
        ensures
            r == (Basic { texture: Some(texture), ..self }),
    {
        Basic { texture: Some(texture), ..self }
    }

    /// Sets the model used by every face.
    pub fn with_model(self, model: String) -> (r: Basic)
        ensures
            r == (Basic { model: Some(model), ..self }),
    {
        Basic { model: Some(model), ..self }
    }

    /// The number of texture slots this block reserves: 1.
    pub fn get_texture_size() -> (r: usize)
        ensures
            r == 1,
    {
        1
    }

    /// Returns this block with the given texture index assigned.
    pub fn with_index(self, idx: usize) -> (r: Basic)
        ensures
            r == (Basic { index: idx, ..self }),
    {
        Basic { index: idx, ..self }
    }

    /// Assigns the given texture index.
    pub fn set_index(&mut self, idx: usize)
        ensures
            *final(self) == (Basic { index: idx, ..*old(self) }),
    {
        self.index = idx;
    }

    /// Returns this block with the given catalog id assigned.
    pub fn with_id(self, id: usize) -> (r: Basic)
        ensures
            r == (Basic { id, ..self }),
    {
        Basic { id, ..self }
    }

    /// Assigns the given catalog id.
    pub fn set_id(&mut self, id: usize)
        ensures
            *final(self) == (Basic { id, ..*old(self) }),
    {
        self.id = id;
    }
}

impl BlockType for Basic {
    open spec fn spec_name(&self) -> Seq<char> {
        self.name@
    }

    open spec fn spec_id(&self) -> int {
        self.id as int
    }

    open spec fn spec_index(&self) -> int {
        self.index as int
    }

    fn name(&self) -> (r: String) {
        self.name.clone()
    }

    fn id(&self) -> (r: usize) {
        self.id
    }

    fn index(&self) -> (r: usize) {
        self.index
    }
}

} // verus!
