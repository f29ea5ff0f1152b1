//! The factory for block descriptors, and face-level auxiliary types.

use vstd::prelude::*;

use crate::basic::Basic;
use crate::custom::Custom;
use crate::descriptor::BlockDescriptor;
use crate::descriptor::Reflectable;
use crate::descriptor::Rotateable;
use crate::facing::RotDir;
use crate::full::Full;
use crate::pillar::Pillar;

verus! {

/// The factory for block descriptors.  Blocks carry pivotal data (their
/// catalog id and texture index) that only the table builder assigns.
pub struct Block;

impl Block {
    /// Builds a new basic block with default values and the given name.
    ///
    /// A basic block is a block where all faces use the same texture and
    /// model.
    pub fn new_basic(name: String) -> (r: Basic)
        ensures
            r == (Basic { name, texture: None, model: None, id: 0, index: 0 }),
    {
        Basic::new_with_name(name)
    }

    /// Builds a new custom block with default values and the given name.
    ///
    /// A custom block is a block with a custom model that is not culled
    /// by nor culls other faces.
    pub fn new_custom(name: String) -> (r: Custom)
        ensures
            r == (Custom { name, texture: None, model: None, id: 0, index: 0 }),
    {
        Custom::new_with_name(name)
    }

    /// Builds a new full block with default values and the given name.
    ///
    /// A full block is a block where each face has its own texture and
    /// model.
    pub fn new_full(name: String) -> (r: Full)
        ensures
            r.name == name,
            !r.has_uniform_texture_spec(),
            !r.has_face_textures_spec(),
            r.models.is_unset_spec(),
            r.id == 0,
            r.index == 0,
    {
        Full::new_with_name(name)
    }

    /// Builds a new pillar block with default values and the given name.
    ///
    /// A pillar block is a block where the top, bottom and side faces
    /// have different textures and models.
    pub fn new_pillar(name: String) -> (r: Pillar)
        ensures
            r.name == name,
            !r.has_uniform_texture_spec(),
            !r.has_face_textures_spec(),
            r.models.is_unset_spec(),
            r.id == 0,
            r.index == 0,
    {
        Pillar::new_with_name(name)
    }

    /// Builds a new rotateable block from another block, with the given
    /// rotation class.
    ///
    /// A rotateable block only stores rotation information; the wrapped
    /// descriptor keeps its name, textures and models.
    pub fn new_rotateable(block: BlockDescriptor, rot: RotDir) -> (r: Rotateable)
        ensures
            r.rot == rot,
            *r.block_data == block,
    {
        Rotateable { rot, block_data: Box::new(block) }
    }

    /// Builds a new reflectable block from another block.
    ///
    /// A reflectable block can be reflected across the xz plane; the
    /// wrapped descriptor keeps its name, textures and models.
    pub fn new_reflectable(block: BlockDescriptor) -> (r: Reflectable)
        ensures
            *r.block_data == block,
    {
        Reflectable { block_data: Box::new(block) }
    }
}

/// The direction of a face, used for relative indexing from a texture
/// index.
#[derive(Clone, Copy, PartialEq, Eq, Structural, Debug)]
pub enum FaceDir {
    Up,
    North,
    West,
    East,
    South,
    Down,
}

/// A flag representing the culling properties of a face and its
/// corresponding texture and model.
#[derive(Clone, Copy, PartialEq, Eq, Structural, Debug)]
pub enum CullingFlag {
    /// This face cannot be culled nor does it cull other faces.
    Neither,
    /// Can cull other faces, but cannot be culled itself.
    Cullable,
    /// Can be culled itself, but cannot cull other faces.
    Culling,
    /// Can cull and be culled by other faces.
    Both,
}

} // verus!
