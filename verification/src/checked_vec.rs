//! A bounds-checked, owner-tagged list of records of one kind.
//!
//! Every record list decoded from a tile is wrapped in a `CheckedVec`
//! carrying the owning tile's identifier.  Lookup goes through a packed
//! reference: the reference's index portion is checked against the length,
//! while a reference whose tile portion disagrees with the owner is *not*
//! rejected — the index is used against this sequence regardless.  That
//! lookup semantics is deliberate; `tile_mismatch` makes the disagreement
//! observable so a caller can guard against it.

use crate::entity::VEntity;
use crate::graph_id::{GraphEntityId, TileId};
use vstd::prelude::*;

verus! {

/// An ordered list of records of one type, tagged with the tile that owns
/// it and addressed by packed references.
#[derive(Debug, Clone)]
pub struct CheckedVec<Inner> {
    graph_id: TileId,
    inner: Vec<Inner>,
}

impl<Inner> View for CheckedVec<Inner> {
    type V = Seq<Inner>;

    closed spec fn view(&self) -> Seq<Inner> {
        self.inner@
    }
}

impl<Inner> CheckedVec<Inner> {
    /// The identifier of the tile that owns this sequence.
    pub closed spec fn spec_tile_id(&self) -> TileId {
        self.graph_id
    }

    /// The list index a packed reference addresses: its index portion,
    /// truncated to `usize` exactly as the lookup does.
    pub open spec fn spec_index_of(index: GraphEntityId<Inner>) -> usize {
        index.spec_graph_index() as usize
    }

    pub fn new(graph_id: TileId) -> (r: Self)
        ensures
            r@ == Seq::<Inner>::empty(),
            r.spec_tile_id() == graph_id,
    {
        Self { graph_id, inner: Vec::new() }
    }

    pub fn push(&mut self, value: Inner)
        ensures
            final(self)@ == old(self)@.push(value),
            final(self).spec_tile_id() == old(self).spec_tile_id(),
    {
        self.inner.push(value);
    }

    /// Whether a reference's tile portion disagrees with the owner of this
    /// sequence.  `get` does not reject such a reference; callers that care
    /// must ask here.
    pub fn tile_mismatch(&self, index: &GraphEntityId<Inner>) -> (r: bool)
        ensures
            r == (index.spec_tile_id() != self.spec_tile_id().id),
    {
        index.tile_id().value() != self.graph_id.id
    }

    /// Fetches the record the reference's index portion addresses, paired
    /// with this sequence's own tile identifier.  The reference's tile
    /// portion is ignored: a caller holding a reference into another tile
    /// gets this tile's record at that index.
    pub fn get<'a>(&'a self, index: &GraphEntityId<Inner>) -> (r: Option<VEntity<&'a Inner>>)
        ensures
            match r {
                Some(e) => {
                    &&& Self::spec_index_of(*index) < self@.len()
                    &&& e.tile_id == self.spec_tile_id()
                    &&& *e.inner == self@[Self::spec_index_of(*index) as int]
                },
                None => Self::spec_index_of(*index) >= self@.len(),
            },
    {
        let index = index.graph_index();
        if index < self.inner.len() {
            Some(VEntity::new(self.graph_id, &self.inner[index]))
        } else {
            None
        }
    }

    /// The record at a plain list index.
    pub fn at<'a>(&'a self, index: usize) -> (r: &'a Inner)
        requires
            index < self@.len(),
        ensures
            *r == self@[index as int],
    {
        &self.inner[index]
    }

    pub fn len(&self) -> (r: usize)
        ensures
            r == self@.len(),
    {
        self.inner.len()
    }

    pub fn is_empty(&self) -> (r: bool)
        ensures
            r == (self@.len() == 0),
    {
        self.inner.is_empty()
    }

    /// Gives up the tag and hands back the plain record list.
    pub fn into_inner(self) -> (r: Vec<Inner>)
        ensures
            r@ == self@,
    {
        self.inner
    }

    pub fn clear(&mut self)
        ensures
            final(self)@ == Seq::<Inner>::empty(),
            final(self).spec_tile_id() == old(self).spec_tile_id(),
    {
        self.inner.clear();
    }

    pub fn pop(&mut self) -> (r: Option<Inner>)
        ensures
            old(self)@.len() == 0 ==> r is None && final(self)@ == old(self)@,
            old(self)@.len() > 0 ==> r == Some(old(self)@.last()) && final(self)@ == old(
                self,
            )@.drop_last(),
            final(self).spec_tile_id() == old(self).spec_tile_id(),
    {
        self.inner.pop()
    }

    /// Inserts at a list index, rejecting an index beyond the end.
    pub fn insert(&mut self, index: usize, value: Inner) -> (r: Result<(), &'static str>)
        ensures
            index <= old(self)@.len() ==> r is Ok && final(self)@ == old(self)@.insert(
                index as int,
                value,
            ),
            index > old(self)@.len() ==> r is Err && final(self)@ == old(self)@,
            final(self).spec_tile_id() == old(self).spec_tile_id(),
    {
        if index <= self.inner.len() {
            self.inner.insert(index, value);
            Ok(())
        } else {
            Err("Index out of bounds")
        }
    }

    /// Removes the record at a list index, returning nothing for an index
    /// beyond the end.
    pub fn remove(&mut self, index: usize) -> (r: Option<Inner>)
        ensures
            index < old(self)@.len() ==> r == Some(old(self)@[index as int]) && final(self)@ == old(
                self,
            )@.remove(index as int),
            index >= old(self)@.len() ==> r is None && final(self)@ == old(self)@,
            final(self).spec_tile_id() == old(self).spec_tile_id(),
    {
        if index < self.inner.len() {
            Some(self.inner.remove(index))
        } else {
            None
        }
    }

    /// Reserves room for at least `additional` further records; the
    /// contents are untouched.
    pub fn reserve_exact(&mut self, additional: usize)
        ensures
            final(self)@ == old(self)@,
            final(self).spec_tile_id() == old(self).spec_tile_id(),
    {
        self.inner.reserve(additional);
    }

    /// A view of `count` records starting at the reference's index portion.
    /// The range must be known valid from decoded counts: slicing out of
    /// bounds is a caller contract violation, which this signature refuses
    /// rather than aborts on.
    pub fn slice<'a>(&'a self, start: GraphEntityId<Inner>, count: usize) -> (r: &'a [Inner])
        requires
            Self::spec_index_of(start) + count <= self@.len(),
        ensures
            r@ == self@.subrange(
                Self::spec_index_of(start) as int,
                Self::spec_index_of(start) + count,
            ),
    {
        let _n: usize = self.inner.len();
        let lo = start.graph_index();
        &self.inner.as_slice()[lo..lo + count]
    }
}

} // verus!
