//! Block descriptors: the four leaf shapes and the two decorators that
//! wrap an inner descriptor and add an orientation dimension.
//!
//! A decorator does not change the inner descriptor's texture footprint;
//! it multiplies the id footprint by its own span.  The outer decorator
//! occupies the high-order digit of the composite variant id.

use vstd::prelude::*;

use crate::BlockType;
use crate::basic::Basic;
use crate::custom::Custom;
use crate::facing::Dimension;
use crate::facing::RotDir;
use crate::facing::lemma_dimension_span_positive;
use crate::full::Full;
use crate::pillar::Pillar;
use crate::variant::lemma_span_cons;
use crate::variant::lemma_span_positive;
use crate::variant::span_of;

verus! {

/// A block that can be rotated in ways constrained by its rotation
/// class, wrapping an inner descriptor.
pub struct Rotateable {
    /// The rotation class: the dimension this decorator contributes.
    pub rot: RotDir,
    /// The wrapped descriptor.
    pub block_data: Box<BlockDescriptor>,
}

/// A block that can be reflected across the xz plane, wrapping an inner
/// descriptor.
pub struct Reflectable {
    /// The wrapped descriptor.
    pub block_data: Box<BlockDescriptor>,
}

/// A block descriptor: a leaf shape, or a decorator wrapping an inner
/// descriptor.
pub enum BlockDescriptor {
    Basic(Basic),
    Custom(Custom),
    Full(Full),
    Pillar(Pillar),
    Rotateable(Rotateable),
    Reflectable(Reflectable),
}

impl BlockDescriptor {
    /// The orientation dimensions of this descriptor, outer to inner.
    /// A leaf shape has none.
    pub open spec fn spec_dims(self) -> Seq<Dimension>
        decreases self,
    {
        match self {
            BlockDescriptor::Basic(_) => Seq::empty(),
            BlockDescriptor::Custom(_) => Seq::empty(),
            BlockDescriptor::Full(_) => Seq::empty(),
            BlockDescriptor::Pillar(_) => Seq::empty(),
            BlockDescriptor::Rotateable(r) => seq![Dimension::of_rot_spec(r.rot)] + (
            *r.block_data).spec_dims(),
            BlockDescriptor::Reflectable(r) => seq![Dimension::Reflection] + (
            *r.block_data).spec_dims(),
        }
    }

    /// The number of texture slots this descriptor reserves.  Decorators
    /// reserve exactly what the wrapped descriptor reserves.
    pub open spec fn spec_texture_footprint(self) -> nat
        decreases self,
    {
        match self {
            BlockDescriptor::Basic(_) => 1,
            BlockDescriptor::Custom(_) => 1,
            BlockDescriptor::Full(_) => 6,
            BlockDescriptor::Pillar(_) => 3,
            BlockDescriptor::Rotateable(r) => (*r.block_data).spec_texture_footprint(),
            BlockDescriptor::Reflectable(r) => (*r.block_data).spec_texture_footprint(),
        }
    }

    /// The number of catalog ids this descriptor reserves: the span of
    /// its composite variant space.
    pub open spec fn spec_id_footprint(self) -> nat {
        span_of(self.spec_dims())
    }

    /// The technical name, read from the leaf.
    pub open spec fn spec_name(self) -> Seq<char>
        decreases self,
    {
        match self {
            BlockDescriptor::Basic(b) => b.name@,
            BlockDescriptor::Custom(b) => b.name@,
            BlockDescriptor::Full(b) => b.name@,
            BlockDescriptor::Pillar(b) => b.name@,
            BlockDescriptor::Rotateable(r) => (*r.block_data).spec_name(),
            BlockDescriptor::Reflectable(r) => (*r.block_data).spec_name(),
        }
    }

    /// The assigned catalog id, read from the leaf.
    pub open spec fn spec_id(self) -> int
        decreases self,
    {
        match self {
            BlockDescriptor::Basic(b) => b.id as int,
            BlockDescriptor::Custom(b) => b.id as int,
            BlockDescriptor::Full(b) => b.id as int,
            BlockDescriptor::Pillar(b) => b.id as int,
            BlockDescriptor::Rotateable(r) => (*r.block_data).spec_id(),
            BlockDescriptor::Reflectable(r) => (*r.block_data).spec_id(),
        }
    }

    /// The assigned texture index, read from the leaf.
    pub open spec fn spec_index(self) -> int
        decreases self,
    {
        match self {
            BlockDescriptor::Basic(b) => b.index as int,
            BlockDescriptor::Custom(b) => b.index as int,
            BlockDescriptor::Full(b) => b.index as int,
            BlockDescriptor::Pillar(b) => b.index as int,
            BlockDescriptor::Rotateable(r) => (*r.block_data).spec_index(),
            BlockDescriptor::Reflectable(r) => (*r.block_data).spec_index(),
        }
    }

    /// This descriptor with the given catalog id assigned to the leaf.
    pub open spec fn spec_with_id(self, id: usize) -> BlockDescriptor
        decreases self,
    {
        match self {
            BlockDescriptor::Basic(b) => BlockDescriptor::Basic(Basic { id, ..b }),
            BlockDescriptor::Custom(b) => BlockDescriptor::Custom(Custom { id, ..b }),
            BlockDescriptor::Full(b) => BlockDescriptor::Full(Full { id, ..b }),
            BlockDescriptor::Pillar(b) => BlockDescriptor::Pillar(Pillar { id, ..b }),
            BlockDescriptor::Rotateable(r) => BlockDescriptor::Rotateable(
                Rotateable { rot: r.rot, block_data: Box::new((*r.block_data).spec_with_id(id)) },
            ),
            BlockDescriptor::Reflectable(r) => BlockDescriptor::Reflectable(
                Reflectable { block_data: Box::new((*r.block_data).spec_with_id(id)) },
            ),
        }
    }

    /// This descriptor with the given texture index assigned to the
    /// leaf.
    pub open spec fn spec_with_index(self, idx: usize) -> BlockDescriptor
        decreases self,
    {
        match self {
            BlockDescriptor::Basic(b) => BlockDescriptor::Basic(Basic { index: idx, ..b }),
            BlockDescriptor::Custom(b) => BlockDescriptor::Custom(Custom { index: idx, ..b }),
            BlockDescriptor::Full(b) => BlockDescriptor::Full(Full { index: idx, ..b }),
            BlockDescriptor::Pillar(b) => BlockDescriptor::Pillar(Pillar { index: idx, ..b }),
            BlockDescriptor::Rotateable(r) => BlockDescriptor::Rotateable(
                Rotateable {
                    rot: r.rot,
                    block_data: Box::new((*r.block_data).spec_with_index(idx)),
                },
            ),
            BlockDescriptor::Reflectable(r) => BlockDescriptor::Reflectable(
                Reflectable { block_data: Box::new((*r.block_data).spec_with_index(idx)) },
            ),
        }
    }

    /// The number of texture slots this descriptor reserves.
    pub fn get_texture_size(&self) -> (r: usize)
        ensures
            r == self.spec_texture_footprint(),
        decreases *self,
    {
        match self {
            BlockDescriptor::Basic(_) => 1,
            BlockDescriptor::Custom(_) => 1,
            BlockDescriptor::Full(_) => 6,
            BlockDescriptor::Pillar(_) => 3,
            BlockDescriptor::Rotateable(r) => r.block_data.get_texture_size(),
            BlockDescriptor::Reflectable(r) => r.block_data.get_texture_size(),
        }
    }

    /// The number of catalog ids this descriptor reserves.
    pub fn get_id_size(&self) -> (r: usize)
        requires
            self.spec_id_footprint() <= usize::MAX,
        ensures
            r == self.spec_id_footprint(),
            r >= 1,
        decreases *self,
    {
        proof {
            lemma_span_positive(self.spec_dims());
        }
        match self {
            BlockDescriptor::Basic(_) => 1,
            BlockDescriptor::Custom(_) => 1,
            BlockDescriptor::Full(_) => 1,
            BlockDescriptor::Pillar(_) => 1,
            BlockDescriptor::Rotateable(r) => {
                let dim = Dimension::of_rot(r.rot);
                proof {
                    lemma_span_cons(dim, (*r.block_data).spec_dims());
                    lemma_dimension_span_positive(dim);
                    lemma_span_positive((*r.block_data).spec_dims());
                    assert((*r.block_data).spec_id_footprint() <= self.spec_id_footprint())
                        by (nonlinear_arith)
                        requires
                            self.spec_id_footprint() == dim.span_spec() * (
                            *r.block_data).spec_id_footprint(),
                            dim.span_spec() >= 1,
                            (*r.block_data).spec_id_footprint() >= 0,
                    ;
                }
                let inner = r.block_data.get_id_size();
                dim.span() * inner
            },
            BlockDescriptor::Reflectable(r) => {
                proof {
                    lemma_span_cons(Dimension::Reflection, (*r.block_data).spec_dims());
                    lemma_span_positive((*r.block_data).spec_dims());
                }
                let inner = r.block_data.get_id_size();
                2 * inner
            },
        }
    }

    /// The orientation dimensions of this descriptor, outer to inner.
    pub fn variant_dims(&self) -> (r: Vec<Dimension>)
        ensures
            r@ == self.spec_dims(),
        decreases *self,
    {
        match self {
            BlockDescriptor::Basic(_) => Vec::new(),
            BlockDescriptor::Custom(_) => Vec::new(),
            BlockDescriptor::Full(_) => Vec::new(),
            BlockDescriptor::Pillar(_) => Vec::new(),
            BlockDescriptor::Rotateable(r) => {
                let mut v = r.block_data.variant_dims();
                v.insert(0, Dimension::of_rot(r.rot));
                proof {
                    assert(v@ =~= self.spec_dims());
                }
                v
            },
            BlockDescriptor::Reflectable(r) => {
                let mut v = r.block_data.variant_dims();
                v.insert(0, Dimension::Reflection);
                proof {
                    assert(v@ =~= self.spec_dims());
                }
                v
            },
        }
    }

    /// Returns this descriptor with the given catalog id assigned.
    pub fn with_id(self, id: usize) -> (r: BlockDescriptor)
        ensures
            r == self.spec_with_id(id),
        decreases self,
    {
        match self {
            BlockDescriptor::Basic(b) => BlockDescriptor::Basic(b.with_id(id)),
            BlockDescriptor::Custom(b) => BlockDescriptor::Custom(b.with_id(id)),
            BlockDescriptor::Full(b) => BlockDescriptor::Full(b.with_id(id)),
            BlockDescriptor::Pillar(b) => BlockDescriptor::Pillar(b.with_id(id)),
            BlockDescriptor::Rotateable(r) => {
                let Rotateable { rot, block_data } = r;
                let inner = *block_data;
                BlockDescriptor::Rotateable(
                    Rotateable { rot, block_data: Box::new(inner.with_id(id)) },
                )
            },
            BlockDescriptor::Reflectable(r) => {
                let Reflectable { block_data } = r;
                let inner = *block_data;
                BlockDescriptor::Reflectable(
                    Reflectable { block_data: Box::new(inner.with_id(id)) },
                )
            },
        }
    }

    /// Assigns the given catalog id to the leaf.
    pub fn set_id(&mut self, id: usize)
        ensures
            *final(self) == old(self).spec_with_id(id),
        decreases *old(self),
    {
        match self {
            BlockDescriptor::Basic(b) => b.set_id(id),
            BlockDescriptor::Custom(b) => b.set_id(id),
            BlockDescriptor::Full(b) => b.set_id(id),
            BlockDescriptor::Pillar(b) => b.set_id(id),
            BlockDescriptor::Rotateable(r) => r.block_data.set_id(id),
            BlockDescriptor::Reflectable(r) => r.block_data.set_id(id),
        }
    }

    /// Returns this descriptor with the given texture index assigned.
    pub fn with_index(self, idx: usize) -> (r: BlockDescriptor)
        ensures
            r == self.spec_with_index(idx),
        decreases self,
    {
        match self {
            BlockDescriptor::Basic(b) => BlockDescriptor::Basic(b.with_index(idx)),
            BlockDescriptor::Custom(b) => BlockDescriptor::Custom(b.with_index(idx)),
            BlockDescriptor::Full(b) => BlockDescriptor::Full(b.with_index(idx)),
            BlockDescriptor::Pillar(b) => BlockDescriptor::Pillar(b.with_index(idx)),
            BlockDescriptor::Rotateable(r) => {
                let Rotateable { rot, block_data } = r;
                let inner = *block_data;
                BlockDescriptor::Rotateable(
                    Rotateable { rot, block_data: Box::new(inner.with_index(idx)) },
                )
            },
            BlockDescriptor::Reflectable(r) => {
                let Reflectable { block_data } = r;
                let inner = *block_data;
                BlockDescriptor::Reflectable(
                    Reflectable { block_data: Box::new(inner.with_index(idx)) },
                )
            },
        }
    }

    /// Assigns the given texture index to the leaf.
    pub fn set_index(&mut self, idx: usize)
        ensures
            *final(self) == old(self).spec_with_index(idx),
        decreases *old(self),
    {
        match self {
            BlockDescriptor::Basic(b) => b.set_index(idx),
            BlockDescriptor::Custom(b) => b.set_index(idx),
            BlockDescriptor::Full(b) => b.set_index(idx),
            BlockDescriptor::Pillar(b) => b.set_index(idx),
            BlockDescriptor::Rotateable(r) => r.block_data.set_index(idx),
            BlockDescriptor::Reflectable(r) => r.block_data.set_index(idx),
        }
    }
}

/// Assigning a catalog id changes only the leaf's id: name, index,
/// dimensions and both footprints are preserved, and the id reads back.
pub proof fn lemma_with_id_preserves(d: BlockDescriptor, id: usize)
    ensures
        d.spec_with_id(id).spec_id() == id,
        d.spec_with_id(id).spec_name() == d.spec_name(),
        d.spec_with_id(id).spec_index() == d.spec_index(),
        d.spec_with_id(id).spec_dims() == d.spec_dims(),
        d.spec_with_id(id).spec_texture_footprint() == d.spec_texture_footprint(),
        d.spec_with_id(id).spec_id_footprint() == d.spec_id_footprint(),
    decreases d,
{
    match d {
        BlockDescriptor::Rotateable(r) => {
            lemma_with_id_preserves(*r.block_data, id);
        },
        BlockDescriptor::Reflectable(r) => {
            lemma_with_id_preserves(*r.block_data, id);
        },
        _ => {},
    }
}

/// Assigning a texture index changes only the leaf's index: name, id,
/// dimensions and both footprints are preserved, and the index reads
/// back.
pub proof fn lemma_with_index_preserves(d: BlockDescriptor, idx: usize)
    ensures
        d.spec_with_index(idx).spec_index() == idx,
        d.spec_with_index(idx).spec_name() == d.spec_name(),
        d.spec_with_index(idx).spec_id() == d.spec_id(),
        d.spec_with_index(idx).spec_dims() == d.spec_dims(),
        d.spec_with_index(idx).spec_texture_footprint() == d.spec_texture_footprint(),
        d.spec_with_index(idx).spec_id_footprint() == d.spec_id_footprint(),
    decreases d,
{
    match d {
        BlockDescriptor::Rotateable(r) => {
            lemma_with_index_preserves(*r.block_data, idx);
        },
        BlockDescriptor::Reflectable(r) => {
            lemma_with_index_preserves(*r.block_data, idx);
        },
        _ => {},
    }
}

/// The id footprint of each descriptor form: a leaf reserves one id, a
/// decorator multiplies the wrapped footprint by its own span.
pub proof fn lemma_id_footprint_form(d: BlockDescriptor)
    ensures
        d matches BlockDescriptor::Rotateable(r) ==> d.spec_id_footprint()
            == Dimension::of_rot_spec(r.rot).span_spec() * (*r.block_data).spec_id_footprint(),
        d matches BlockDescriptor::Reflectable(r) ==> d.spec_id_footprint() == 2 * (
        *r.block_data).spec_id_footprint(),
        !(d is Rotateable) && !(d is Reflectable) ==> d.spec_id_footprint() == 1,
{
    match d {
        BlockDescriptor::Rotateable(r) => {
            lemma_span_cons(Dimension::of_rot_spec(r.rot), (*r.block_data).spec_dims());
        },
        BlockDescriptor::Reflectable(r) => {
            lemma_span_cons(Dimension::Reflection, (*r.block_data).spec_dims());
        },
        _ => {},
    }
}

/// Composite span multiplicativity: reflecting a Y-rotateable descriptor
/// spans 2 * 4 times the span of the wrapped descriptor.
pub proof fn lemma_composite_span_multiplicative(inner: BlockDescriptor)
    ensures
        BlockDescriptor::Reflectable(
            Reflectable {
                block_data: Box::new(
                    BlockDescriptor::Rotateable(
                        Rotateable { rot: RotDir::Y, block_data: Box::new(inner) },
                    ),
                ),
            },
        ).spec_id_footprint() == 2 * 4 * inner.spec_id_footprint(),
{
    let rotated = BlockDescriptor::Rotateable(
        Rotateable { rot: RotDir::Y, block_data: Box::new(inner) },
    );
    let reflected = BlockDescriptor::Reflectable(Reflectable { block_data: Box::new(rotated) });
    lemma_id_footprint_form(rotated);
    assert(rotated.spec_id_footprint() == 4 * inner.spec_id_footprint());
    lemma_id_footprint_form(reflected);
    assert(reflected.spec_id_footprint() == 2 * rotated.spec_id_footprint());
    assert(2 * (4 * inner.spec_id_footprint()) == 2 * 4 * inner.spec_id_footprint())
        by (nonlinear_arith);
}

impl Rotateable {
    /// The number of texture slots: exactly the wrapped descriptor's.
    pub open spec fn spec_texture_footprint(self) -> nat {
        (*self.block_data).spec_texture_footprint()
    }

    /// The number of catalog ids: the rotation class's span times the
    /// wrapped descriptor's id footprint.
    pub open spec fn spec_id_footprint(self) -> nat {
        Dimension::of_rot_spec(self.rot).span_spec() * (*self.block_data).spec_id_footprint()
    }

    /// The number of texture slots this block reserves.
    pub fn get_texture_size(&self) -> (r: usize)
        ensures
            r == self.spec_texture_footprint(),
    {
        self.block_data.get_texture_size()
    }

    /// Returns this block with the given catalog id assigned to the
    /// wrapped leaf.
    pub fn with_id(self, id: usize) -> (r: Rotateable)
        ensures
            r.rot == self.rot,
            *r.block_data == (*self.block_data).spec_with_id(id),
    {
        let Rotateable { rot, block_data } = self;
        let inner = *block_data;
        Rotateable { rot, block_data: Box::new(inner.with_id(id)) }
    }

    /// Assigns the given catalog id to the wrapped leaf.
    pub fn set_id(&mut self, id: usize)
        ensures
            final(self).rot == old(self).rot,
            *final(self).block_data == (*old(self).block_data).spec_with_id(id),
    {
        self.block_data.set_id(id);
    }

    /// Returns this block with the given texture index assigned to the
    /// wrapped leaf.
    pub fn with_index(self, idx: usize) -> (r: Rotateable)
        ensures
            r.rot == self.rot,
            *r.block_data == (*self.block_data).spec_with_index(idx),
    {
        let Rotateable { rot, block_data } = self;
        let inner = *block_data;
        Rotateable { rot, block_data: Box::new(inner.with_index(idx)) }
    }

    /// Assigns the given texture index to the wrapped leaf.
    pub fn set_index(&mut self, idx: usize)
        ensures
            final(self).rot == old(self).rot,
            *final(self).block_data == (*old(self).block_data).spec_with_index(idx),
    {
        self.block_data.set_index(idx);
    }

    /// The number of catalog ids this block reserves.
    pub fn get_id_size(&self) -> (r: usize)
        requires
            self.spec_id_footprint() <= usize::MAX,
        ensures
            r == self.spec_id_footprint(),
    {
        proof {
            lemma_id_footprint_form(BlockDescriptor::Rotateable(*self));
        }
        let dim = Dimension::of_rot(self.rot);
        proof {
            lemma_dimension_span_positive(dim);
            lemma_span_positive((*self.block_data).spec_dims());
            assert((*self.block_data).spec_id_footprint() <= self.spec_id_footprint())
                by (nonlinear_arith)
                requires
                    self.spec_id_footprint() == dim.span_spec() * (
                    *self.block_data).spec_id_footprint(),
                    dim.span_spec() >= 1,
                    (*self.block_data).spec_id_footprint() >= 0,
            ;
        }
        let inner = self.block_data.get_id_size();
        dim.span() * inner
    }
}

impl Reflectable {
    /// The number of texture slots: exactly the wrapped descriptor's.
    pub open spec fn spec_texture_footprint(self) -> nat {
        (*self.block_data).spec_texture_footprint()
    }

    /// The number of catalog ids: twice the wrapped descriptor's id
    /// footprint.
    pub open spec fn spec_id_footprint(self) -> nat {
        2 * (*self.block_data).spec_id_footprint()
    }

    /// The number of texture slots this block reserves.
    pub fn get_texture_size(&self) -> (r: usize)
        ensures
            r == self.spec_texture_footprint(),
    {
        self.block_data.get_texture_size()
    }

    /// Returns this block with the given catalog id assigned to the
    /// wrapped leaf.
    pub fn with_id(self, id: usize) -> (r: Reflectable)
        ensures
            *r.block_data == (*self.block_data).spec_with_id(id),
    {
        let Reflectable { block_data } = self;
        let inner = *block_data;
        Reflectable { block_data: Box::new(inner.with_id(id)) }
    }

    /// Assigns the given catalog id to the wrapped leaf.
    pub fn set_id(&mut self, id: usize)
        ensures
            *final(self).block_data == (*old(self).block_data).spec_with_id(id),
    {
        self.block_data.set_id(id);
    }

    /// Returns this block with the given texture index assigned to the
    /// wrapped leaf.
    pub fn with_index(self, idx: usize) -> (r: Reflectable)
        ensures
            *r.block_data == (*self.block_data).spec_with_index(idx),
    {
        let Reflectable { block_data } = self;
        let inner = *block_data;
        Reflectable { block_data: Box::new(inner.with_index(idx)) }
    }

    /// Assigns the given texture index to the wrapped leaf.
    pub fn set_index(&mut self, idx: usize)
        ensures
            *final(self).block_data == (*old(self).block_data).spec_with_index(idx),
    {
        self.block_data.set_index(idx);
    }

    /// The number of catalog ids this block reserves.
    pub fn get_id_size(&self) -> (r: usize)
        requires
            self.spec_id_footprint() <= usize::MAX,
        ensures
            r == self.spec_id_footprint(),
    {
        proof {
            lemma_id_footprint_form(BlockDescriptor::Reflectable(*self));
            lemma_span_positive((*self.block_data).spec_dims());
        }
        let inner = self.block_data.get_id_size();
        2 * inner
    }
}

impl BlockType for BlockDescriptor {
    open spec fn spec_name(&self) -> Seq<char> {
        BlockDescriptor::spec_name(*self)
    }

    open spec fn spec_id(&self) -> int {
        BlockDescriptor::spec_id(*self)
    }

    open spec fn spec_index(&self) -> int {
        BlockDescriptor::spec_index(*self)
    }

    fn name(&self) -> (r: String)
        decreases *self,
    {
        match self {
            BlockDescriptor::Basic(b) => b.name.clone(),
            BlockDescriptor::Custom(b) => b.name.clone(),
            BlockDescriptor::Full(b) => b.name.clone(),
            BlockDescriptor::Pillar(b) => b.name.clone(),
            BlockDescriptor::Rotateable(r) => r.block_data.name(),
            BlockDescriptor::Reflectable(r) => r.block_data.name(),
        }
    }

    fn id(&self) -> (r: usize)
        decreases *self,
    {
        match self {
            BlockDescriptor::Basic(b) => b.id,
            BlockDescriptor::Custom(b) => b.id,
            BlockDescriptor::Full(b) => b.id,
            BlockDescriptor::Pillar(b) => b.id,
            BlockDescriptor::Rotateable(r) => r.block_data.id(),
            BlockDescriptor::Reflectable(r) => r.block_data.id(),
        }
    }

    fn index(&self) -> (r: usize)
        decreases *self,
    {
        match self {
            BlockDescriptor::Basic(b) => b.index,
            BlockDescriptor::Custom(b) => b.index,
            BlockDescriptor::Full(b) => b.index,
            BlockDescriptor::Pillar(b) => b.index,
            BlockDescriptor::Rotateable(r) => r.block_data.index(),
            BlockDescriptor::Reflectable(r) => r.block_data.index(),
        }
    }
}

impl BlockType for Rotateable {
    open spec fn spec_name(&self) -> Seq<char> {
        (*self.block_data).spec_name()
    }

    open spec fn spec_id(&self) -> int {
        (*self.block_data).spec_id()
    }

    open spec fn spec_index(&self) -> int {
        (*self.block_data).spec_index()
    }

    fn name(&self) -> (r: String) {
        self.block_data.name()
    }

    fn id(&self) -> (r: usize) {
        self.block_data.id()
    }

    fn index(&self) -> (r: usize) {
        self.block_data.index()
    }
}

impl BlockType for Reflectable {
    open spec fn spec_name(&self) -> Seq<char> {
        (*self.block_data).spec_name()
    }

    open spec fn spec_id(&self) -> int {
        (*self.block_data).spec_id()
    }

    open spec fn spec_index(&self) -> int {
        (*self.block_data).spec_index()
    }

    fn name(&self) -> (r: String) {
        self.block_data.name()
    }

    fn id(&self) -> (r: usize) {
        self.block_data.id()
    }

    fn index(&self) -> (r: usize) {
        self.block_data.index()
    }
}

} // verus!
