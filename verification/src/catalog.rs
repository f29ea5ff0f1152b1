//! The catalog sum type: a registered block together with its discrete
//! orientation state, or the empty sentinel, encoded as one flat id.
//!
//! Id 0 is reserved for the empty sentinel.  Each entry's variant space
//! occupies the id range `[offset, offset + footprint)` where `offset`
//! is 1 plus the footprints of all preceding entries.  Decoding an id
//! outside `[0, total span)` is an error, never a silent wrap-around.

use vstd::prelude::*;
use vstd::string::StringExecFns;

use crate::descriptor::BlockDescriptor;
use crate::facing::Facing;
use crate::table::Table;
use crate::table::TableEntry;
use crate::table::id_offset;
use crate::table::lemma_id_offset_monotonic;
use crate::variant::decode_of;
use crate::variant::decode_variant;
use crate::variant::encode_of;
use crate::variant::encode_variant;
use crate::variant::lemma_decode_encode;
use crate::variant::lemma_encode_bound;
use crate::variant::lemma_encode_decode;
use crate::variant::matches_dims;
use crate::variant::render_of;
use crate::variant::render_variant;

verus! {

/// The decode-time error: an id outside the catalog's total span.
#[derive(Clone, Copy, PartialEq, Eq, Structural, Debug)]
pub enum CatalogError {
    /// The id lies outside `[0, total span)`.
    InvalidVariantCode,
}

/// A catalog value: the empty sentinel, or a registered block (by its
/// position in the table) with one orientation state per dimension,
/// outer to inner.
#[derive(Debug)]
pub enum Catalog {
    /// The empty sentinel, id 0.
    Air,
    /// The block at table position `entry`, in the orientation `variant`.
    Block { entry: usize, variant: Vec<Facing> },
}

/// The mathematical value of a catalog value.
pub enum CatalogView {
    Air,
    Block { entry: int, variant: Seq<Facing> },
}

impl View for Catalog {
    type V = CatalogView;

    open spec fn view(&self) -> CatalogView {
        match *self {
            Catalog::Air => CatalogView::Air,
            Catalog::Block { entry, variant } => CatalogView::Block {
                entry: entry as int,
                variant: variant@,
            },
        }
    }
}

/// Whether a catalog value is constructible over the given blocks: the
/// sentinel always is; a block value must name a real entry and carry
/// one state per dimension of that entry.
pub open spec fn wf_catalog(blocks: Seq<BlockDescriptor>, c: CatalogView) -> bool {
    match c {
        CatalogView::Air => true,
        CatalogView::Block { entry, variant } => 0 <= entry < blocks.len() && matches_dims(
            blocks[entry].spec_dims(),
            variant,
        ),
    }
}

/// The flat id of a catalog value: 0 for the sentinel, else the entry's
/// base offset plus the mixed-radix encoding of its orientation state.
pub open spec fn spec_to_id(blocks: Seq<BlockDescriptor>, c: CatalogView) -> int {
    match c {
        CatalogView::Air => 0,
        CatalogView::Block { entry, variant } => id_offset(blocks, entry) + encode_of(
            blocks[entry].spec_dims(),
            variant,
        ),
    }
}

/// Scans the entries from position `i` for the one whose id range
/// contains `id`, and decodes the remainder in its variant space.
pub open spec fn spec_find_block(blocks: Seq<BlockDescriptor>, id: int, i: int) -> Option<
    CatalogView,
>
    decreases blocks.len() - i,
{
    if i < 0 || i >= blocks.len() {
        None
    } else if id_offset(blocks, i) <= id && id < id_offset(blocks, i)
        + blocks[i].spec_id_footprint() {
        Some(
            CatalogView::Block {
                entry: i,
                variant: decode_of(blocks[i].spec_dims(), id - id_offset(blocks, i)),
            },
        )
    } else {
        spec_find_block(blocks, id, i + 1)
    }
}

/// The catalog value a flat id decodes to: the sentinel for 0, the
/// entry whose range contains the id otherwise, and nothing for an id
/// at or beyond the total span.
pub open spec fn spec_from_id(blocks: Seq<BlockDescriptor>, id: int) -> Option<CatalogView> {
    if id == 0 {
        Some(CatalogView::Air)
    } else {
        spec_find_block(blocks, id, 0)
    }
}

/// The rendering of a catalog value: `Air` for the sentinel, the
/// declared name for a block without orientation dimensions, and the
/// declared name followed by the bracketed rendering of its state
/// otherwise.
pub open spec fn spec_display_name(entries: Seq<TableEntry>, c: CatalogView) -> Seq<char> {
    match c {
        CatalogView::Air => "Air"@,
        CatalogView::Block { entry, variant } => if variant.len() == 0 {
            entries[entry].declared_name@
        } else {
            entries[entry].declared_name@ + "["@ + render_of(variant) + "]"@
        },
    }
}

/// Decoding id 0 yields the empty sentinel, for any catalog contents.
pub proof fn lemma_decode_zero(blocks: Seq<BlockDescriptor>)
    ensures
        spec_from_id(blocks, 0) == Some(CatalogView::Air),
{
}

/// The id of a constructible catalog value lies in `[0, total span)`,
/// and is 0 exactly for the empty sentinel.
pub proof fn lemma_to_id_bound(blocks: Seq<BlockDescriptor>, c: CatalogView)
    requires
        wf_catalog(blocks, c),
    ensures
        0 <= spec_to_id(blocks, c) < id_offset(blocks, blocks.len() as int),
        spec_to_id(blocks, c) == 0 <==> c is Air,
{
    match c {
        CatalogView::Air => {
            lemma_id_offset_monotonic(blocks, 0, blocks.len() as int);
        },
        CatalogView::Block { entry, variant } => {
            lemma_encode_bound(blocks[entry].spec_dims(), variant);
            lemma_id_offset_monotonic(blocks, 0, entry);
            lemma_id_offset_monotonic(blocks, entry + 1, blocks.len() as int);
        },
    }
}

/// The scan started anywhere at or before `entry` finds `entry` when
/// the id lies in `entry`'s range.
proof fn lemma_find_hits(blocks: Seq<BlockDescriptor>, id: int, j: int, entry: int)
    requires
        0 <= j <= entry < blocks.len(),
        id_offset(blocks, entry) <= id < id_offset(blocks, entry)
            + blocks[entry].spec_id_footprint(),
    ensures
        spec_find_block(blocks, id, j) == Some(
            CatalogView::Block {
                entry,
                variant: decode_of(blocks[entry].spec_dims(), id - id_offset(blocks, entry)),
            },
        ),
    decreases entry - j,
{
    if j == entry {
    } else {
        lemma_id_offset_monotonic(blocks, j + 1, entry);
        lemma_find_hits(blocks, id, j + 1, entry);
    }
}

/// Round-trip: decoding the id of any constructible catalog value
/// returns the same value.
pub proof fn lemma_catalog_round_trip(blocks: Seq<BlockDescriptor>, c: CatalogView)
    requires
        wf_catalog(blocks, c),
    ensures
        spec_from_id(blocks, spec_to_id(blocks, c)) == Some(c),
{
    match c {
        CatalogView::Air => {
        },
        CatalogView::Block { entry, variant } => {
            let dims = blocks[entry].spec_dims();
            let id = spec_to_id(blocks, c);
            lemma_encode_bound(dims, variant);
            lemma_id_offset_monotonic(blocks, 0, entry);
            lemma_find_hits(blocks, id, 0, entry);
            lemma_decode_encode(dims, variant);
        },
    }
}

/// The scan started at `j` finds a constructible value whose id is the
/// scanned id, whenever the id lies between `j`'s offset and the total.
proof fn lemma_find_some(blocks: Seq<BlockDescriptor>, id: int, j: int)
    requires
        0 <= j <= blocks.len(),
        id_offset(blocks, j) <= id < id_offset(blocks, blocks.len() as int),
    ensures
        spec_find_block(blocks, id, j) matches Some(c) && wf_catalog(blocks, c) && spec_to_id(
            blocks,
            c,
        ) == id,
    decreases blocks.len() - j,
{
    if j == blocks.len() {
        assert(false);
    } else if id < id_offset(blocks, j) + blocks[j].spec_id_footprint() {
        let code = id - id_offset(blocks, j);
        lemma_encode_decode(blocks[j].spec_dims(), code);
    } else {
        lemma_find_some(blocks, id, j + 1);
    }
}

/// Round-trip in the other direction: every id in `[0, total span)`
/// decodes to a constructible catalog value whose id it is.
pub proof fn lemma_catalog_id_round_trip(blocks: Seq<BlockDescriptor>, id: int)
    requires
        0 <= id < id_offset(blocks, blocks.len() as int),
    ensures
        spec_from_id(blocks, id) matches Some(c) && wf_catalog(blocks, c) && spec_to_id(blocks, c)
            == id,
{
    if id != 0 {
        lemma_find_some(blocks, id, 0);
    }
}

/// Whether two tuples of orientation states are equal.
fn facing_vecs_equal(a: &Vec<Facing>, b: &Vec<Facing>) -> (r: bool)
    ensures
        r <==> a@ == b@,
{
    if a.len() != b.len() {
        return false;
    }
    let n = a.len();
    let mut i: usize = 0;
    while i < n
        invariant
            n == a.len() == b.len(),
            i <= n,
            forall|j: int| 0 <= j < i ==> a@[j] == b@[j],
        decreases n - i,
    {
        if a[i] != b[i] {
            return false;
        }
        i = i + 1;
    }
    proof {
        assert(a@ =~= b@);
    }
    true
}

impl PartialEq for Catalog {
    /// Two catalog values are equal when both are the sentinel, or both
    /// name the same entry in the same orientation state.
    fn eq(&self, other: &Catalog) -> (r: bool) {
        match (self, other) {
            (Catalog::Air, Catalog::Air) => true,
            (
                Catalog::Block { entry: e1, variant: v1 },
                Catalog::Block { entry: e2, variant: v2 },
            ) => *e1 == *e2 && facing_vecs_equal(v1, v2),
            _ => false,
        }
    }
}

impl vstd::std_specs::cmp::PartialEqSpecImpl for Catalog {
    open spec fn obeys_eq_spec() -> bool {
        true
    }

    open spec fn eq_spec(&self, other: &Catalog) -> bool {
        self@ == other@
    }
}

impl Catalog {
    /// Decodes a flat id against the given table: id 0 is the empty
    /// sentinel; an id inside a registered block's range decodes to that
    /// block in the encoded orientation; an id at or beyond the total
    /// span is an `InvalidVariantCode` error, never a silent wrap.
    pub fn from_id(table: &Table, id: usize) -> (r: Result<Catalog, CatalogError>)
        requires
            table.wf(),
        ensures
            id < table.spec_id_span() ==> (r matches Ok(c) && Some(c@) == spec_from_id(
                table.spec_blocks(),
                id as int,
            ) && wf_catalog(table.spec_blocks(), c@) && spec_to_id(table.spec_blocks(), c@) == id),
            id >= table.spec_id_span() ==> r == Err::<Catalog, CatalogError>(
                CatalogError::InvalidVariantCode,
            ),
            id == 0 ==> (r matches Ok(c) && c is Air),
    {
        let ghost blocks = table.spec_blocks();
        let ghost total = table.spec_id_span();
        proof {
            // The total span is at least 1: id 0 always decodes.
            lemma_id_offset_monotonic(blocks, 0, blocks.len() as int);
        }
        if id == 0 {
            return Ok(Catalog::Air);
        }
        let n = table.len();
        let mut i: usize = 0;
        let mut offset: usize = 1;
        while i < n
            invariant
                table.wf(),
                blocks == table.spec_blocks(),
                total == table.spec_id_span(),
                n == blocks.len(),
                i <= n,
                offset == id_offset(blocks, i as int),
                id >= offset,
                id >= 1,
                spec_find_block(blocks, id as int, 0) == spec_find_block(blocks, id as int, i as int),
            decreases n - i,
        {
            proof {
                lemma_id_offset_monotonic(blocks, i as int, n as int);
                lemma_id_offset_monotonic(blocks, i + 1, n as int);
            }
            let size = table.get(i).block.get_id_size();
            if id < offset + size {
                let dims = table.get(i).block.variant_dims();
                let code = id - offset;
                let vals = decode_variant(&dims, code);
                let c = Catalog::Block { entry: i, variant: vals };
                proof {
                    lemma_catalog_id_round_trip(blocks, id as int);
                }
                return Ok(c);
            }
            offset = offset + size;
            i = i + 1;
        }
        Err(CatalogError::InvalidVariantCode)
    }

    /// Encodes this catalog value as its flat id: 0 for the sentinel,
    /// else the entry's base offset plus the mixed-radix encoding of its
    /// orientation state.  The id lies in `[0, total span)`.
    pub fn to_id(&self, table: &Table) -> (r: usize)
        requires
            table.wf(),
            wf_catalog(table.spec_blocks(), self@),
        ensures
            r == spec_to_id(table.spec_blocks(), self@),
            r < table.spec_id_span(),
            r == 0 <==> self@ is Air,
    {
        let ghost blocks = table.spec_blocks();
        proof {
            lemma_to_id_bound(blocks, self@);
        }
        match self {
            Catalog::Air => 0,
            Catalog::Block { entry, variant } => {
                let entry = *entry;
                let mut offset: usize = 1;
                let mut j: usize = 0;
                while j < entry
                    invariant
                        table.wf(),
                        blocks == table.spec_blocks(),
                        j <= entry,
                        entry < blocks.len(),
                        offset == id_offset(blocks, j as int),
                    decreases entry - j,
                {
                    proof {
                        lemma_id_offset_monotonic(blocks, j as int, blocks.len() as int);
                        lemma_id_offset_monotonic(blocks, j + 1, blocks.len() as int);
                    }
                    let size = table.get(j).block.get_id_size();
                    offset = offset + size;
                    j = j + 1;
                }
                proof {
                    lemma_id_offset_monotonic(blocks, entry as int, blocks.len() as int);
                    lemma_id_offset_monotonic(blocks, entry + 1, blocks.len() as int);
                    lemma_encode_bound(blocks[entry as int].spec_dims(), variant@);
                }
                let dims = table.get(entry).block.variant_dims();
                let code = encode_variant(&dims, variant);
                offset + code
            },
        }
    }

    /// Renders this catalog value: `Air` for the sentinel, the declared
    /// name for a block without orientation dimensions, and the declared
    /// name followed by the bracketed rendering of its state otherwise.
    pub fn display_name(&self, table: &Table) -> (r: String)
        requires
            wf_catalog(table.spec_blocks(), self@),
        ensures
            r@ == spec_display_name(table.spec_entries(), self@),
    {
        match self {
            Catalog::Air => "Air".to_owned(),
            Catalog::Block { entry, variant } => {
                let e = table.get(*entry);
                let mut s = e.declared_name.clone();
                if variant.len() == 0 {
                    s
                } else {
                    s.append("[");
                    let inner = render_variant(variant);
                    s.append(inner.as_str());
                    s.append("]");
                    s
                }
            },
        }
    }
}

} // verus!
