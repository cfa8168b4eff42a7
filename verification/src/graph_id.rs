//! Packed entity references.
//!
//! A `GraphEntityId` packs three things into one 64-bit value: the hierarchy
//! level (lowest 3 bits), the owning tile's identifier (the low 25 bits,
//! level included), and an intra-tile record index (the bits from 25 up).
//! The type parameter tags the reference with the record kind it points at,
//! so a node reference cannot be passed where an edge reference is expected.

use core::marker::PhantomData;
use vstd::prelude::*;

verus! {

/// Number of low bits of a packed reference taken up by the tile identifier
/// (hierarchy level included).
pub const TILE_ID_BITS: u64 = 25;

/// Mask selecting the tile-identifier portion of a packed reference.
pub const TILE_ID_MASK: u64 = 0x1ff_ffff;

/// Mask selecting the hierarchy level of a packed reference.
pub const HIERARCHY_LEVEL_MASK: u64 = 0x7;

/// Identifier of one fixed-size geographic tile at one hierarchy level.
/// Equality is by value; a `TileId` is immutable once constructed.
#[derive(Clone, Copy, Debug, PartialEq, Eq, Hash, Structural)]
pub struct TileId {
    pub id: u64,
}

impl TileId {
    pub fn new(id: u64) -> (r: Self)
        ensures
            r.id == id,
    {
        TileId { id }
    }

    /// The raw 64-bit value of this identifier.
    pub fn value(&self) -> (r: u64)
        ensures
            r == self.id,
    {
        self.id
    }

    /// Hexadecimal rendering of the identifier, for diagnostics.
    pub fn describe(&self) -> String {
        format_tile_id(self.id)
    }
}

/// Renders a tile identifier in hexadecimal.  Relies on the `format!` macro
/// of std; nothing is claimed of the resulting text.
#[verifier::external_body]
fn format_tile_id(id: u64) -> String {
    format!("{:x}", id)
}

/// A packed reference to one record of kind `Inner` inside one tile.
#[derive(Debug, PartialEq, Eq, Hash)]
pub struct GraphEntityId<Inner> {
    pub graph_entity_id: u64,
    pub _phantom: PhantomData<Inner>,
}

impl<Inner> Clone for GraphEntityId<Inner> {
    fn clone(&self) -> (r: Self)
        ensures
            r == *self,
    {
        Self { graph_entity_id: self.graph_entity_id, _phantom: PhantomData }
    }
}

impl<Inner> Copy for GraphEntityId<Inner> {

}

impl<Inner> GraphEntityId<Inner> {
    /// The tile-identifier portion: the low 25 bits, hierarchy level
    /// included.
    pub open spec fn spec_tile_id(self) -> u64 {
        self.graph_entity_id & TILE_ID_MASK
    }

    /// The record-index portion: everything above the low 25 bits.
    pub open spec fn spec_graph_index(self) -> u64 {
        self.graph_entity_id >> TILE_ID_BITS
    }

    /// The hierarchy level: the lowest 3 bits.
    pub open spec fn spec_hierarchy_level(self) -> u64 {
        self.graph_entity_id & HIERARCHY_LEVEL_MASK
    }

    /// The packed value that `from_tile_index` builds: the index is shifted
    /// above the tile bits and combined by bitwise or.  An index wider than
    /// the remaining 39 bits silently corrupts adjacent fields; no runtime
    /// check guards against that.
    pub open spec fn spec_from_tile_index(tile: TileId, index: u64) -> u64 {
        tile.id | (index << TILE_ID_BITS)
    }

    pub fn new(graph_entity_id: u64) -> (r: Self)
        ensures
            r.graph_entity_id == graph_entity_id,
    {
        Self { graph_entity_id, _phantom: PhantomData }
    }

    /// Packs a tile identifier and a record index into one reference.
    pub fn from_tile_index(tile: &TileId, index: usize) -> (r: GraphEntityId<Inner>)
        ensures
            r.graph_entity_id == Self::spec_from_tile_index(*tile, index as u64),
    {
        Self { graph_entity_id: tile.id | ((index as u64) << TILE_ID_BITS), _phantom: PhantomData }
    }

    pub fn hierarchy_level(&self) -> (r: u8)
        ensures
            r == self.spec_hierarchy_level(),
    {
        proof {
            lemma_mask_bound(self.graph_entity_id, HIERARCHY_LEVEL_MASK);
        }
        (self.graph_entity_id & HIERARCHY_LEVEL_MASK) as u8
    }

    pub fn tile_id(&self) -> (r: TileId)
        ensures
            r.id == self.spec_tile_id(),
    {
        TileId::new(self.graph_entity_id & TILE_ID_MASK)
    }

    /// The record-index portion as a `usize`.  On a machine whose `usize` is
    /// narrower than 39 bits an oversized index is truncated, exactly as the
    /// plain cast does.
    pub fn graph_index(&self) -> (r: usize)
        ensures
            r == self.spec_graph_index() as usize,
    {
        (self.graph_entity_id >> TILE_ID_BITS) as usize
    }

    /// The raw 64-bit packed value.
    pub fn raw(&self) -> (r: u64)
        ensures
            r == self.graph_entity_id,
    {
        self.graph_entity_id
    }

    /// Decimal rendering of the packed value, for diagnostics.
    pub fn describe(&self) -> String {
        format_entity_id(self.graph_entity_id)
    }
}

/// Renders a packed reference in decimal.  Relies on the `format!` macro of
/// std; nothing is claimed of the resulting text.
#[verifier::external_body]
fn format_entity_id(id: u64) -> String {
    format!("{}", id)
}

/// A masked value never exceeds the mask.
pub proof fn lemma_mask_bound(x: u64, m: u64)
    ensures
        x & m <= m,
{
    assert(x & m <= m) by (bit_vector);
}

/// Packing a tile identifier that fits its 25 bits with an index that fits
/// the remaining 39 is reversible: the two reductions of the packed value
/// return exactly the tile identifier and the index that went in.
pub proof fn lemma_pack_round_trip<Inner>(tile: TileId, index: u64)
    requires
        tile.id <= TILE_ID_MASK,
        index < 0x80_0000_0000u64,
    ensures
        GraphEntityId::<Inner>::spec_from_tile_index(tile, index) & TILE_ID_MASK == tile.id,
        GraphEntityId::<Inner>::spec_from_tile_index(tile, index) >> TILE_ID_BITS == index,
{
    let t = tile.id;
    assert(t <= 0x1ff_ffffu64 && index < 0x80_0000_0000u64 ==> (t | (index << 25))
        & 0x1ff_ffffu64 == t) by (bit_vector);
    assert(t <= 0x1ff_ffffu64 && index < 0x80_0000_0000u64 ==> (t | (index << 25)) >> 25
        == index) by (bit_vector);
}

} // verus!
