//! Records paired with the tile that owns them.
//!
//! A record fetched out of a tile-scoped sequence loses the knowledge of
//! which tile it came from; `VEntity` carries that tile identifier along
//! with the record, so packed references into other record lists can be
//! built from it.

use crate::graph_id::{GraphEntityId, TileId};
use crate::records::{ValhallaDirectedEdge, ValhallaEdgeInfo};
use vstd::prelude::*;

verus! {

/// A record together with the identifier of the tile it was fetched from.
#[derive(Debug)]
pub struct VEntity<Inner> {
    pub inner: Inner,
    pub tile_id: TileId,
}

impl<Inner> VEntity<Inner> {
    pub fn new(tile_id: TileId, inner: Inner) -> (r: VEntity<Inner>)
        ensures
            r.inner == inner,
            r.tile_id == tile_id,
    {
        VEntity { inner, tile_id }
    }

    pub fn tile_id(&self) -> (r: TileId)
        ensures
            r == self.tile_id,
    {
        self.tile_id
    }

    pub fn inner<'a>(&'a self) -> (r: &'a Inner)
        ensures
            r == self.inner,
    {
        &self.inner
    }
}

/// Something a packed reference of kind `Inner` can be derived from, with
/// the owning tile already known.
pub trait HasEntityPointer<Inner> {
    /// The reference that `get_entity` builds.
    spec fn spec_entity(&self) -> GraphEntityId<Inner>;

    fn get_entity(&self) -> (r: GraphEntityId<Inner>)
        ensures
            r == self.spec_entity(),
    ;
}

/// Something a packed reference of kind `Inner` can be derived from, once a
/// caller supplies the identifier of the owning tile.
pub trait HasEntityPointerInner<Inner> {
    /// The reference that `get_unchecked` builds for a given tile.
    spec fn spec_entity_unchecked(&self, tile_id: TileId) -> GraphEntityId<Inner>;

    fn get_unchecked(&self, tile_id: &TileId) -> (r: GraphEntityId<Inner>)
        ensures
            r == self.spec_entity_unchecked(*tile_id),
    ;
}

impl HasEntityPointerInner<ValhallaEdgeInfo> for ValhallaDirectedEdge {
    /// The edge's shared edge info, addressed by the edge-info offset stored
    /// in the edge's second word.
    open spec fn spec_entity_unchecked(&self, tile_id: TileId) -> GraphEntityId<ValhallaEdgeInfo> {
        GraphEntityId {
            graph_entity_id: GraphEntityId::<ValhallaEdgeInfo>::spec_from_tile_index(
                tile_id,
                self.restrictions2.spec_edge_info_offset(),
            ),
            _phantom: core::marker::PhantomData,
        }
    }

    fn get_unchecked(&self, tile_id: &TileId) -> (r: GraphEntityId<ValhallaEdgeInfo>) {
        GraphEntityId::from_tile_index(tile_id, self.restrictions2.edge_info_offset())
    }
}

impl<Inner, T: HasEntityPointerInner<Inner>> HasEntityPointer<Inner> for VEntity<&T> {
    open spec fn spec_entity(&self) -> GraphEntityId<Inner> {
        self.inner.spec_entity_unchecked(self.tile_id)
    }

    fn get_entity(&self) -> (r: GraphEntityId<Inner>) {
        // The entity carries its own tile identifier, so the reference is
        // built against the right tile.
        self.inner.get_unchecked(&self.tile_id)
    }
}

} // verus!
