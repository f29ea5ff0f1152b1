//! A registry builder for a voxel-game block catalog.
//!
//! Block descriptors declare a geometric shape (basic, custom, full or
//! pillar) together with texture and model assignments.  Decorators
//! (`Rotateable`, `Reflectable`) wrap an inner descriptor and add an
//! orientation dimension.  The table builder walks an ordered list of
//! declared blocks and assigns each one a dense, non-overlapping range of
//! texture slots and catalog ids.  A catalog value (a block together with
//! its discrete orientation state) is encoded into a flat integer id by
//! mixed-radix arithmetic, and decoded back.

use vstd::prelude::*;

pub mod basic;
pub mod block;
pub mod catalog;
pub mod const_into;
pub mod custom;
pub mod descriptor;
pub mod facing;
pub mod full;
pub mod pillar;
pub mod table;
pub mod variant;

verus! {

/// The capability contract every registered block provides: a technical
/// name, an assigned catalog id and an assigned texture index.
pub trait BlockType: Sized {
    /// The block's technical name.
    spec fn spec_name(&self) -> Seq<char>;

    /// The catalog id assigned by the table builder.
    spec fn spec_id(&self) -> int;

    /// The texture index assigned by the table builder.
    spec fn spec_index(&self) -> int;

    /// The block's technical name.
    fn name(&self) -> (r: String)
        ensures
            r@ == self.spec_name(),
    ;

    /// The catalog id assigned by the table builder.
    fn id(&self) -> (r: usize)
        ensures
            r == self.spec_id(),
    ;

    /// The texture index assigned by the table builder.
    fn index(&self) -> (r: usize)
        ensures
            r == self.spec_index(),
    ;
}

} // verus!
