//! The registry builder: walks an ordered list of declared blocks and
//! assigns each one a dense, non-overlapping range of texture slots and
//! catalog ids.
//!
//! Catalog id 0 is reserved for the empty sentinel, so both counters
//! start at 1.  Every entry's range size derives purely from its
//! descriptor's static shape.

use vstd::prelude::*;

use crate::descriptor::BlockDescriptor;
use crate::descriptor::lemma_with_id_preserves;
use crate::descriptor::lemma_with_index_preserves;
use crate::variant::lemma_span_positive;

verus! {

/// One row of the table: the declared name and the descriptor, with its
/// assigned catalog id and texture index.
pub struct TableEntry {
    /// The name the block was declared under.
    pub declared_name: String,
    /// The descriptor, carrying its assigned id and index.
    pub block: BlockDescriptor,
}

/// The descriptors of a sequence of table rows, in order.
pub open spec fn blocks_of(entries: Seq<TableEntry>) -> Seq<BlockDescriptor> {
    Seq::new(entries.len(), |i: int| entries[i].block)
}

/// The first catalog id of entry `i`: 1 (id 0 is the empty sentinel)
/// plus the id footprints of all preceding entries.
pub open spec fn id_offset(blocks: Seq<BlockDescriptor>, i: int) -> int
    decreases i,
{
    if i <= 0 {
        1
    } else {
        id_offset(blocks, i - 1) + blocks[i - 1].spec_id_footprint()
    }
}

/// The first texture index of entry `i`: 1 plus the texture footprints
/// of all preceding entries.
pub open spec fn tex_offset(blocks: Seq<BlockDescriptor>, i: int) -> int
    decreases i,
{
    if i <= 0 {
        1
    } else {
        tex_offset(blocks, i - 1) + blocks[i - 1].spec_texture_footprint()
    }
}

/// Every descriptor reserves at least one texture slot.
pub proof fn lemma_texture_footprint_positive(d: BlockDescriptor)
    ensures
        d.spec_texture_footprint() >= 1,
    decreases d,
{
    match d {
        BlockDescriptor::Rotateable(r) => lemma_texture_footprint_positive(*r.block_data),
        BlockDescriptor::Reflectable(r) => lemma_texture_footprint_positive(*r.block_data),
        _ => {},
    }
}

/// Catalog-id offsets start at 1 and increase strictly with the entry:
/// an entry's whole range lies before every later offset.
pub proof fn lemma_id_offset_monotonic(blocks: Seq<BlockDescriptor>, i: int, j: int)
    requires
        0 <= i <= j <= blocks.len(),
    ensures
        1 <= id_offset(blocks, i) <= id_offset(blocks, j),
        i < j ==> id_offset(blocks, i) + blocks[i].spec_id_footprint() <= id_offset(blocks, j),
        i < j ==> id_offset(blocks, i) < id_offset(blocks, j),
    decreases j - i,
{
    lemma_id_offset_nonneg(blocks, i);
    if i < j {
        lemma_span_positive(blocks[i].spec_dims());
        lemma_id_offset_monotonic(blocks, i + 1, j);
    }
}

/// Catalog-id offsets are at least 1.
proof fn lemma_id_offset_nonneg(blocks: Seq<BlockDescriptor>, i: int)
    requires
        i <= blocks.len(),
    ensures
        id_offset(blocks, i) >= 1,
    decreases i,
{
    if i > 0 {
        lemma_id_offset_nonneg(blocks, i - 1);
        lemma_span_positive(blocks[i - 1].spec_dims());
    }
}

/// Texture-index offsets start at 1 and increase strictly with the
/// entry: an entry's whole range lies before every later offset.
pub proof fn lemma_tex_offset_monotonic(blocks: Seq<BlockDescriptor>, i: int, j: int)
    requires
        0 <= i <= j <= blocks.len(),
    ensures
        1 <= tex_offset(blocks, i) <= tex_offset(blocks, j),
        i < j ==> tex_offset(blocks, i) + blocks[i].spec_texture_footprint() <= tex_offset(
            blocks,
            j,
        ),
        i < j ==> tex_offset(blocks, i) < tex_offset(blocks, j),
    decreases j - i,
{
    lemma_tex_offset_nonneg(blocks, i);
    if i < j {
        lemma_texture_footprint_positive(blocks[i]);
        lemma_tex_offset_monotonic(blocks, i + 1, j);
    }
}

/// Texture-index offsets are at least 1.
proof fn lemma_tex_offset_nonneg(blocks: Seq<BlockDescriptor>, i: int)
    requires
        i <= blocks.len(),
    ensures
        tex_offset(blocks, i) >= 1,
    decreases i,
{
    if i > 0 {
        lemma_tex_offset_nonneg(blocks, i - 1);
        lemma_texture_footprint_positive(blocks[i - 1]);
    }
}

/// Offsets depend only on the footprints: two sequences with pointwise
/// equal footprints below `i` have the same offsets at `i`.
proof fn lemma_offset_equal_footprints(a: Seq<BlockDescriptor>, b: Seq<BlockDescriptor>, i: int)
    requires
        0 <= i,
        i <= a.len(),
        i <= b.len(),
        forall|j: int|
            0 <= j < i ==> (#[trigger] a[j]).spec_id_footprint() == b[j].spec_id_footprint()
                && a[j].spec_texture_footprint() == b[j].spec_texture_footprint(),
    ensures
        id_offset(a, i) == id_offset(b, i),
        tex_offset(a, i) == tex_offset(b, i),
    decreases i,
{
    if i > 0 {
        lemma_offset_equal_footprints(a, b, i - 1);
    }
}

/// The partition of the catalog-id space: every id in `[1, total)` falls
/// in the range of exactly one entry.
pub proof fn lemma_id_partition(blocks: Seq<BlockDescriptor>, k: int)
    requires
        1 <= k < id_offset(blocks, blocks.len() as int),
    ensures
        exists|i: int|
            0 <= i < blocks.len() && (#[trigger] id_offset(blocks, i)) <= k < id_offset(blocks, i)
                + blocks[i].spec_id_footprint(),
        forall|i: int, j: int|
            0 <= i < blocks.len() && 0 <= j < blocks.len() && (#[trigger] id_offset(blocks, i)) <= k
                < id_offset(blocks, i) + blocks[i].spec_id_footprint() && (#[trigger] id_offset(
                blocks,
                j,
            )) <= k < id_offset(blocks, j) + blocks[j].spec_id_footprint() ==> i == j,
{
    lemma_id_range_exists(blocks, k, 0);
    assert forall|i: int, j: int|
        0 <= i < blocks.len() && 0 <= j < blocks.len() && (#[trigger] id_offset(blocks, i)) <= k
            < id_offset(blocks, i) + blocks[i].spec_id_footprint() && (#[trigger] id_offset(
            blocks,
            j,
        )) <= k < id_offset(blocks, j) + blocks[j].spec_id_footprint() implies i == j by {
        if i < j {
            lemma_id_offset_monotonic(blocks, i, j);
        } else if j < i {
            lemma_id_offset_monotonic(blocks, j, i);
        }
    }
}

/// Scanning from entry `j`, an id below the total falls in some entry's
/// range at or after `j`.
proof fn lemma_id_range_exists(blocks: Seq<BlockDescriptor>, k: int, j: int)
    requires
        0 <= j <= blocks.len(),
        id_offset(blocks, j) <= k < id_offset(blocks, blocks.len() as int),
    ensures
        exists|i: int|
            j <= i < blocks.len() && (#[trigger] id_offset(blocks, i)) <= k < id_offset(blocks, i)
                + blocks[i].spec_id_footprint(),
    decreases blocks.len() - j,
{
    if j == blocks.len() {
    } else if k < id_offset(blocks, j) + blocks[j].spec_id_footprint() {
        assert(id_offset(blocks, j) <= k < id_offset(blocks, j) + blocks[j].spec_id_footprint());
    } else {
        lemma_id_range_exists(blocks, k, j + 1);
    }
}

/// The partition of the texture-index space: every index in
/// `[1, total)` falls in the range of exactly one entry.
pub proof fn lemma_tex_partition(blocks: Seq<BlockDescriptor>, k: int)
    requires
        1 <= k < tex_offset(blocks, blocks.len() as int),
    ensures
        exists|i: int|
            0 <= i < blocks.len() && (#[trigger] tex_offset(blocks, i)) <= k < tex_offset(blocks, i)
                + blocks[i].spec_texture_footprint(),
        forall|i: int, j: int|
            0 <= i < blocks.len() && 0 <= j < blocks.len() && (#[trigger] tex_offset(blocks, i))
                <= k < tex_offset(blocks, i) + blocks[i].spec_texture_footprint() && (
            #[trigger] tex_offset(blocks, j)) <= k < tex_offset(blocks, j)
                + blocks[j].spec_texture_footprint() ==> i == j,
{
    lemma_tex_range_exists(blocks, k, 0);
    assert forall|i: int, j: int|
        0 <= i < blocks.len() && 0 <= j < blocks.len() && (#[trigger] tex_offset(blocks, i)) <= k
            < tex_offset(blocks, i) + blocks[i].spec_texture_footprint() && (#[trigger] tex_offset(
            blocks,
            j,
        )) <= k < tex_offset(blocks, j) + blocks[j].spec_texture_footprint() implies i == j by {
        if i < j {
            lemma_tex_offset_monotonic(blocks, i, j);
        } else if j < i {
            lemma_tex_offset_monotonic(blocks, j, i);
        }
    }
}

/// Scanning from entry `j`, an index below the total falls in some
/// entry's range at or after `j`.
proof fn lemma_tex_range_exists(blocks: Seq<BlockDescriptor>, k: int, j: int)
    requires
        0 <= j <= blocks.len(),
        tex_offset(blocks, j) <= k < tex_offset(blocks, blocks.len() as int),
    ensures
        exists|i: int|
            j <= i < blocks.len() && (#[trigger] tex_offset(blocks, i)) <= k < tex_offset(blocks, i)
                + blocks[i].spec_texture_footprint(),
    decreases blocks.len() - j,
{
    if j == blocks.len() {
    } else if k < tex_offset(blocks, j) + blocks[j].spec_texture_footprint() {
        assert(tex_offset(blocks, j) <= k < tex_offset(blocks, j)
            + blocks[j].spec_texture_footprint());
    } else {
        lemma_tex_range_exists(blocks, k, j + 1);
    }
}

/// Partition of a built table: every catalog id in `[1, total)` and
/// every texture index in `[1, total)` lies in the assigned range of
/// exactly one entry, with no gaps and no overlaps.
pub proof fn lemma_table_partition(t: Table, k: int)
    requires
        t.wf(),
    ensures
        1 <= k < t.spec_id_span() ==> exists|i: int|
            0 <= i < t.spec_blocks().len() && (#[trigger] t.spec_blocks()[i]).spec_id() <= k
                < t.spec_blocks()[i].spec_id() + t.spec_blocks()[i].spec_id_footprint(),
        forall|i: int, j: int|
            0 <= i < t.spec_blocks().len() && 0 <= j < t.spec_blocks().len() && (
            #[trigger] t.spec_blocks()[i]).spec_id() <= k < t.spec_blocks()[i].spec_id()
                + t.spec_blocks()[i].spec_id_footprint() && (#[trigger] t.spec_blocks()[j]).spec_id()
                <= k < t.spec_blocks()[j].spec_id() + t.spec_blocks()[j].spec_id_footprint() ==> i
                == j,
        1 <= k < t.spec_total_textures() ==> exists|i: int|
            0 <= i < t.spec_blocks().len() && (#[trigger] t.spec_blocks()[i]).spec_index() <= k
                < t.spec_blocks()[i].spec_index() + t.spec_blocks()[i].spec_texture_footprint(),
        forall|i: int, j: int|
            0 <= i < t.spec_blocks().len() && 0 <= j < t.spec_blocks().len() && (
            #[trigger] t.spec_blocks()[i]).spec_index() <= k < t.spec_blocks()[i].spec_index()
                + t.spec_blocks()[i].spec_texture_footprint() && (#[trigger] t.spec_blocks()[
            j]).spec_index() <= k < t.spec_blocks()[j].spec_index()
                + t.spec_blocks()[j].spec_texture_footprint() ==> i == j,
{
    let blocks = t.spec_blocks();
    if 1 <= k < t.spec_id_span() {
        lemma_id_partition(blocks, k);
    }
    if 1 <= k < t.spec_total_textures() {
        lemma_tex_partition(blocks, k);
    }
    assert forall|i: int, j: int|
        0 <= i < blocks.len() && 0 <= j < blocks.len() && (#[trigger] blocks[i]).spec_id() <= k
            < blocks[i].spec_id() + blocks[i].spec_id_footprint() && (
        #[trigger] blocks[j]).spec_id() <= k < blocks[j].spec_id()
            + blocks[j].spec_id_footprint() implies i == j by {
        if i < j {
            lemma_id_offset_monotonic(blocks, i, j);
        } else if j < i {
            lemma_id_offset_monotonic(blocks, j, i);
        }
    }
    assert forall|i: int, j: int|
        0 <= i < blocks.len() && 0 <= j < blocks.len() && (#[trigger] blocks[i]).spec_index() <= k
            < blocks[i].spec_index() + blocks[i].spec_texture_footprint() && (
        #[trigger] blocks[j]).spec_index() <= k < blocks[j].spec_index()
            + blocks[j].spec_texture_footprint() implies i == j by {
        if i < j {
            lemma_tex_offset_monotonic(blocks, i, j);
        } else if j < i {
            lemma_tex_offset_monotonic(blocks, j, i);
        }
    }
}

/// The frozen, ordered registry of all declared blocks.  Once built it
/// is read-only; its id and index ranges partition their spaces.
pub struct Table {
    entries: Vec<TableEntry>,
    total_ids: usize,
    total_textures: usize,
}

impl Table {
    /// The rows of the table, in declaration order.
    pub closed spec fn spec_entries(self) -> Seq<TableEntry> {
        self.entries@
    }

    /// The descriptors of the rows, in declaration order.
    pub open spec fn spec_blocks(self) -> Seq<BlockDescriptor> {
        blocks_of(self.spec_entries())
    }

    /// The total catalog-id span: 1 for the empty sentinel plus every
    /// entry's id footprint.
    pub closed spec fn spec_id_span(self) -> int {
        self.total_ids as int
    }

    /// The total number of texture slots: 1 plus every entry's texture
    /// footprint.
    pub closed spec fn spec_total_textures(self) -> int {
        self.total_textures as int
    }

    /// Well-formedness: every entry carries the catalog id and texture
    /// index of its allocated range, and the stored totals are the
    /// final counter values.
    pub open spec fn wf(self) -> bool {
        &&& forall|i: int|
            0 <= i < self.spec_blocks().len() ==> (#[trigger] self.spec_blocks()[i]).spec_id()
                == id_offset(self.spec_blocks(), i)
        &&& forall|i: int|
            0 <= i < self.spec_blocks().len() ==> (#[trigger] self.spec_blocks()[i]).spec_index()
                == tex_offset(self.spec_blocks(), i)
        &&& self.spec_id_span() == id_offset(self.spec_blocks(), self.spec_blocks().len() as int)
        &&& self.spec_total_textures() == tex_offset(
            self.spec_blocks(),
            self.spec_blocks().len() as int,
        )
        &&& self.spec_id_span() <= usize::MAX
        &&& self.spec_total_textures() <= usize::MAX
    }

    /// Builds the table from an ordered list of declared blocks,
    /// assigning catalog ids and texture indices sequentially.
    ///
    /// The counters start at 1: id 0 is reserved for the empty sentinel.
    pub fn new(list: Vec<TableEntry>) -> (r: Table)
        requires
            id_offset(blocks_of(list@), list@.len() as int) <= usize::MAX,
            tex_offset(blocks_of(list@), list@.len() as int) <= usize::MAX,
        ensures
            r.wf(),
            r.spec_entries().len() == list@.len(),
            forall|i: int|
                0 <= i < list@.len() ==> (#[trigger] r.spec_entries()[i]).declared_name
                    == list@[i].declared_name,
            forall|i: int|
                0 <= i < list@.len() ==> (#[trigger] r.spec_entries()[i]).block
                    == list@[i].block.spec_with_index(
                    tex_offset(blocks_of(list@), i) as usize,
                ).spec_with_id(id_offset(blocks_of(list@), i) as usize),
            r.spec_id_span() == id_offset(blocks_of(list@), list@.len() as int),
            r.spec_total_textures() == tex_offset(blocks_of(list@), list@.len() as int),
    {
        let ghost orig = list@;
        let ghost oblocks = blocks_of(list@);
        let n = list.len();
        let mut list = list;
        let mut entries: Vec<TableEntry> = Vec::new();
        let mut next_id: usize = 1;
        let mut next_index: usize = 1;
        proof {
            assert(orig.skip(0) =~= orig);
        }
        while entries.len() < n
            invariant
                n == orig.len(),
                oblocks == blocks_of(orig),
                entries@.len() <= n,
                entries@.len() + list@.len() == n,
                list@ =~= orig.skip(entries@.len() as int),
                id_offset(oblocks, n as int) <= usize::MAX,
                tex_offset(oblocks, n as int) <= usize::MAX,
                next_id == id_offset(oblocks, entries@.len() as int),
                next_index == tex_offset(oblocks, entries@.len() as int),
                forall|i: int|
                    0 <= i < entries@.len() ==> (#[trigger] entries@[i]).declared_name
                        == orig[i].declared_name,
                forall|i: int|
                    0 <= i < entries@.len() ==> (#[trigger] entries@[i]).block
                        == orig[i].block.spec_with_index(
                        tex_offset(oblocks, i) as usize,
                    ).spec_with_id(id_offset(oblocks, i) as usize),
            decreases n - entries@.len(),
        {
            let ghost k = entries@.len() as int;
            proof {
                assert(list@[0] == orig[k]);
                assert(oblocks[k] == orig[k].block);
                lemma_id_offset_monotonic(oblocks, k, n as int);
                lemma_tex_offset_monotonic(oblocks, k, n as int);
                assert(id_offset(oblocks, k + 1) == id_offset(oblocks, k)
                    + oblocks[k].spec_id_footprint());
                lemma_id_offset_monotonic(oblocks, k + 1, n as int);
                lemma_tex_offset_monotonic(oblocks, k + 1, n as int);
            }
            let e = list.remove(0);
            let size_id = e.block.get_id_size();
            let size_tex = e.block.get_texture_size();
            let b = e.block.with_index(next_index).with_id(next_id);
            proof {
                lemma_with_index_preserves(orig[k].block, next_index);
                lemma_with_id_preserves(orig[k].block.spec_with_index(next_index), next_id);
            }
            entries.push(TableEntry { declared_name: e.declared_name, block: b });
            next_id = next_id + size_id;
            next_index = next_index + size_tex;
            proof {
                assert(list@ =~= orig.skip(entries@.len() as int));
            }
        }
        let table = Table { entries, total_ids: next_id, total_textures: next_index };
        proof {
            let tblocks = table.spec_blocks();
            assert(tblocks.len() == n);
            assert forall|j: int| 0 <= j < n implies (#[trigger] tblocks[j]).spec_id_footprint()
                == oblocks[j].spec_id_footprint() && tblocks[j].spec_texture_footprint()
                == oblocks[j].spec_texture_footprint() && tblocks[j].spec_id() == id_offset(
                oblocks,
                j,
            ) && tblocks[j].spec_index() == tex_offset(oblocks, j) by {
                lemma_id_offset_monotonic(oblocks, j, n as int);
                lemma_tex_offset_monotonic(oblocks, j, n as int);
                lemma_with_index_preserves(orig[j].block, tex_offset(oblocks, j) as usize);
                lemma_with_id_preserves(
                    orig[j].block.spec_with_index(tex_offset(oblocks, j) as usize),
                    id_offset(oblocks, j) as usize,
                );
            }
            assert forall|j: int| 0 <= j <= n implies id_offset(tblocks, j) == id_offset(oblocks, j)
                && tex_offset(tblocks, j) == tex_offset(oblocks, j) by {
                lemma_offset_equal_footprints(tblocks, oblocks, j);
            }
        }
        table
    }

    /// The rows of the table, in declaration order.
    pub fn iter(&self) -> (r: &Vec<TableEntry>)
        ensures
            r@ == self.spec_entries(),
    {
        &self.entries
    }

    /// The number of declared blocks.
    pub fn len(&self) -> (r: usize)
        ensures
            r == self.spec_entries().len(),
    {
        self.entries.len()
    }

    /// The row at position `i`.
    pub fn get(&self, i: usize) -> (r: &TableEntry)
        requires
            i < self.spec_entries().len(),
        ensures
            *r == self.spec_entries()[i as int],
    {
        &self.entries[i]
    }

    /// The total catalog-id span: 1 for the empty sentinel plus every
    /// entry's id footprint.
    pub fn id_span(&self) -> (r: usize)
        ensures
            r == self.spec_id_span(),
    {
        self.total_ids
    }

    /// The total number of texture slots: 1 plus every entry's texture
    /// footprint.
    pub fn total_texture_size(&self) -> (r: usize)
        ensures
            r == self.spec_total_textures(),
    {
        self.total_textures
    }
}

} // verus!
