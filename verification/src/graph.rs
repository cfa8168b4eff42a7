//! The multi-tile graph assembler.
//!
//! A batch of decoded tiles is indexed by tile identifier, and every
//! directed edge's geometry is recovered across tile boundaries.  An edge
//! stores only its end node and the index of its opposing (reverse) edge at
//! that node; the start position is found by following the opposing edge
//! back.  The chain is: edge → end node's tile → end node → opposing edge in
//! the end node's outbound list → that edge's end node, which is the
//! original edge's start node.  The start node should lie in the original
//! tile, but its reference is resolved generically across the batch in case
//! it does not.
//!
//! Recovery is best-effort: an edge whose chain cannot be followed — the end
//! node's tile absent from the batch, a node index beyond its list, an
//! opposing index outside the node's edge range — is dropped from the
//! segment list, and the build never fails on its account.  The positions a
//! segment carries are the packed offset words of the two nodes plus each
//! owning tile's base-coordinate bits; turning them into projected
//! coordinates is floating-point work that belongs to the caller.

use crate::entity::VEntity;
use crate::graph_id::{GraphEntityId, TILE_ID_BITS, TILE_ID_MASK};
use crate::records::{ValhallaDirectedEdge, ValhallaNodeInfo, ValhallaNodeInfoPositionInfo};
use crate::tile::InfernoTile;
use vstd::prelude::*;

verus! {

/// Why a graph lookup failed.
#[derive(Clone, Copy, Debug, PartialEq, Eq, Structural)]
pub enum GraphError {
    /// The reference's tile is not in the batch this graph was built from.
    MissingTile,
}

/// What a spatial consumer needs to place one node: the packed position
/// word of the node and the base-coordinate bits of the tile that owns it.
#[derive(Clone, Copy, Debug, PartialEq, Eq, Structural)]
pub struct EdgeNodePoint {
    /// Raw bits of the owning tile's base latitude.
    pub base_lat_bits: u32,
    /// Raw bits of the owning tile's base longitude.
    pub base_lon_bits: u32,
    /// The node's packed latitude/longitude offsets.
    pub position_info: ValhallaNodeInfoPositionInfo,
}

/// One directed edge with its recovered start and end positions.
#[derive(Clone, Copy, Debug, PartialEq, Eq)]
pub struct EdgeSegment {
    /// Packed reference to the edge, in its own tile.
    pub edge: GraphEntityId<ValhallaDirectedEdge>,
    pub start: EdgeNodePoint,
    pub end: EdgeNodePoint,
}

/// The position data of a node of `tile`.
pub open spec fn spec_node_point(tile: InfernoTile, n: ValhallaNodeInfo) -> EdgeNodePoint {
    EdgeNodePoint {
        base_lat_bits: tile.spec_header().base_ll_lat_bits,
        base_lon_bits: tile.spec_header().base_ll_lon_bits,
        position_info: n.position_info,
    }
}

/// The index of the tile a reference with tile portion `id` resolves to:
/// the last tile of the batch whose identifier equals `id`, matching a map
/// built front to back where a later tile replaces an earlier one.
pub open spec fn spec_lookup_tile(tiles: Seq<InfernoTile>, id: u64) -> Option<int>
    decreases tiles.len(),
{
    if tiles.len() == 0 {
        None
    } else if tiles.last().spec_tile_id().id == id {
        Some(tiles.len() - 1)
    } else {
        spec_lookup_tile(tiles.drop_last(), id)
    }
}

/// `spec_lookup_tile` finds something exactly when some tile of the batch
/// carries the identifier, and what it finds carries it.
pub proof fn lemma_lookup_tile_finds(tiles: Seq<InfernoTile>, id: u64)
    ensures
        match spec_lookup_tile(tiles, id) {
            Some(i) => 0 <= i < tiles.len() && tiles[i].spec_tile_id().id == id && (forall|k: int|
                i < k < tiles.len() ==> (#[trigger] tiles[k]).spec_tile_id().id != id),
            None => forall|k: int|
                0 <= k < tiles.len() ==> (#[trigger] tiles[k]).spec_tile_id().id != id,
        },
    decreases tiles.len(),
{
    if tiles.len() > 0 && tiles.last().spec_tile_id().id != id {
        lemma_lookup_tile_finds(tiles.drop_last(), id);
        assert(forall|k: int|
            0 <= k < tiles.len() - 1 ==> tiles.drop_last()[k] == #[trigger] tiles[k]);
    }
}

/// The tile portion of an edge's end-node reference.
pub open spec fn spec_end_tile_of(edge: ValhallaDirectedEdge) -> u64 {
    edge.spec_end_node() & TILE_ID_MASK
}

/// The index portion of an edge's end-node reference, truncated to `usize`
/// exactly as the tile-scoped lookup does.
pub open spec fn spec_end_index_of(edge: ValhallaDirectedEdge) -> usize {
    (edge.spec_end_node() >> TILE_ID_BITS) as usize
}

/// The geometry recovery chain for edge `ei` of `tile`, against the batch
/// `tiles`.  `None` at any broken link: end-node tile absent, end-node index
/// out of range, opposing index outside the end node's outbound range, the
/// outbound range itself out of the tile's edge list, start-node tile
/// absent, or start-node index out of range.  Both node references are
/// resolved generically: each one's tile portion is looked up in the batch,
/// though the start node is expected to lie in the original tile.
pub open spec fn spec_resolve_edge(tiles: Seq<InfernoTile>, tile: InfernoTile, ei: int) -> Option<
    EdgeSegment,
>
    recommends
        0 <= ei < tile.spec_edges().len(),
{
    let edge = tile.spec_edges()[ei];
    match spec_lookup_tile(tiles, spec_end_tile_of(edge)) {
        None => None,
        Some(tj) => {
            let end_tile = tiles[tj];
            let end_idx = spec_end_index_of(edge);
            if end_idx >= end_tile.spec_nodes().len() {
                None
            } else {
                let end_node = end_tile.spec_nodes()[end_idx as int];
                let opp = edge.spec_opposing_edge_index();
                let first = end_node.data1.spec_edge_index();
                let count = end_node.data1.spec_edge_count();
                if opp >= count || first + count > end_tile.spec_edges().len() {
                    None
                } else {
                    let opp_edge = end_tile.spec_edges()[first + opp];
                    match spec_lookup_tile(tiles, spec_end_tile_of(opp_edge)) {
                        None => None,
                        Some(ts) => {
                            let start_tile = tiles[ts];
                            let start_idx = spec_end_index_of(opp_edge);
                            if start_idx >= start_tile.spec_nodes().len() {
                                None
                            } else {
                                let start_node = start_tile.spec_nodes()[start_idx as int];
                                Some(
                                    EdgeSegment {
                                        edge: GraphEntityId {
                                            graph_entity_id: GraphEntityId::<
                                                ValhallaDirectedEdge,
                                            >::spec_from_tile_index(tile.spec_tile_id(), ei as u64),
                                            _phantom: core::marker::PhantomData,
                                        },
                                        start: spec_node_point(start_tile, start_node),
                                        end: spec_node_point(end_tile, end_node),
                                    },
                                )
                            }
                        },
                    }
                }
            }
        },
    }
}

/// The segments recovered from the first `n` edges of `tile`, in edge
/// order, unresolvable edges dropped.
pub open spec fn spec_tile_segments_upto(
    tiles: Seq<InfernoTile>,
    tile: InfernoTile,
    n: int,
) -> Seq<EdgeSegment>
    decreases n,
{
    if n <= 0 {
        Seq::empty()
    } else {
        spec_tile_segments_upto(tiles, tile, n - 1) + match spec_resolve_edge(tiles, tile, n - 1) {
            Some(s) => seq![s],
            None => Seq::<EdgeSegment>::empty(),
        }
    }
}

/// The segments recovered from every edge of `tile`.
pub open spec fn spec_tile_segments(tiles: Seq<InfernoTile>, tile: InfernoTile) -> Seq<
    EdgeSegment,
> {
    spec_tile_segments_upto(tiles, tile, tile.spec_edges().len() as int)
}

/// Whether some tile of the batch carries the identifier.
pub open spec fn spec_has_tile_id(tiles: Seq<InfernoTile>, id: u64) -> bool {
    exists|k: int| 0 <= k < tiles.len() && (#[trigger] tiles[k]).spec_tile_id().id == id
}

/// The batch with duplicate identifiers dropped: of several tiles carrying
/// one identifier the last stays, as in a map filled front to back.
pub open spec fn spec_kept_tiles(tiles: Seq<InfernoTile>) -> Seq<InfernoTile>
    decreases tiles.len(),
{
    if tiles.len() == 0 {
        Seq::empty()
    } else {
        (if spec_has_tile_id(tiles.drop_first(), tiles[0].spec_tile_id().id) {
            Seq::<InfernoTile>::empty()
        } else {
            seq![tiles[0]]
        }) + spec_kept_tiles(tiles.drop_first())
    }
}

/// One tile of the graph: the tile and the spatial segments recovered from
/// its directed edges.
pub struct InfernoTileLoaded<'a> {
    pub tile: &'a InfernoTile,
    pub segments: Vec<EdgeSegment>,
}

/// A batch of decoded tiles, indexed by tile identifier, each with the
/// recovered geometry of its directed edges.  The index is held as a vector
/// whose lookup takes the last tile of each identifier, the semantics of a
/// map filled front to back.  Built once; read-only afterwards.  Building
/// never fails: an edge whose cross-tile chain breaks is dropped from its
/// tile's segments, nothing more.
pub struct InfernoTileGraph<'a> {
    tiles: Vec<InfernoTileLoaded<'a>>,
}

impl<'a> InfernoTileGraph<'a> {
    /// The loaded tiles, in batch order with duplicates dropped.
    pub closed spec fn spec_loaded(self) -> Seq<InfernoTileLoaded<'a>> {
        self.tiles@
    }

    /// The tiles the graph holds.
    pub open spec fn spec_tiles(self) -> Seq<InfernoTile> {
        self.spec_loaded().map_values(|l: InfernoTileLoaded<'a>| *l.tile)
    }

    /// Builds the graph from a batch of decoded tiles.  The graph holds the
    /// batch with duplicate identifiers dropped (the last tile of each
    /// identifier stays), and for each kept tile exactly the segments that
    /// the recovery chain resolves against the full batch.
    pub fn new(tiles: &'a [InfernoTile]) -> (r: Self)
        ensures
            r.spec_tiles() == spec_kept_tiles(tiles@),
            forall|k: int|
                0 <= k < r.spec_loaded().len() ==> (#[trigger] r.spec_loaded()[k]).segments@
                    == spec_tile_segments(tiles@, *r.spec_loaded()[k].tile),
    {
        let mut loaded: Vec<InfernoTileLoaded<'a>> = Vec::new();
        let n = tiles.len();
        proof {
            let f = |l: InfernoTileLoaded<'a>| *l.tile;
            assert(tiles@.skip(0) =~= tiles@);
            assert(loaded@.map_values(f) + spec_kept_tiles(tiles@) =~= spec_kept_tiles(tiles@));
        }
        let mut i: usize = 0;
        while i < n
            invariant
                i <= n,
                n == tiles@.len(),
                loaded@.map_values(|l: InfernoTileLoaded<'a>| *l.tile) + spec_kept_tiles(
                    tiles@.skip(i as int),
                ) == spec_kept_tiles(tiles@),
                forall|k: int|
                    0 <= k < loaded@.len() ==> (#[trigger] loaded@[k]).segments@
                        == spec_tile_segments(tiles@, *loaded@[k].tile),
            decreases n - i,
        {
            let ghost pre = loaded@;
            let tile = &tiles[i];
            let duplicated = has_tile_id_from(tiles, i + 1, tile.tile_id().value());
            if !duplicated {
                let segments = load_tile_segments(tiles, tile);
                loaded.push(InfernoTileLoaded { tile, segments });
            }
            proof {
                let f = |l: InfernoTileLoaded<'a>| *l.tile;
                assert(tiles@.skip(i as int).drop_first() =~= tiles@.skip(i + 1));
                assert(tiles@.skip(i as int)[0] == tiles@[i as int]);
                if !duplicated {
                    assert(loaded@.map_values(f) =~= pre.map_values(f).push(tiles@[i as int]));
                    assert(pre.map_values(f).push(tiles@[i as int]) + spec_kept_tiles(
                        tiles@.skip(i + 1),
                    ) =~= pre.map_values(f) + (seq![tiles@[i as int]] + spec_kept_tiles(
                        tiles@.skip(i + 1),
                    )));
                } else {
                    assert(pre.map_values(f) + (Seq::<InfernoTile>::empty() + spec_kept_tiles(
                        tiles@.skip(i + 1),
                    )) =~= pre.map_values(f) + spec_kept_tiles(tiles@.skip(i + 1)));
                }
            }
            i += 1;
        }
        proof {
            assert(tiles@.skip(n as int) =~= Seq::<InfernoTile>::empty());
            assert(loaded@.map_values(|l: InfernoTileLoaded<'a>| *l.tile) + Seq::<
                InfernoTile,
            >::empty() =~= loaded@.map_values(|l: InfernoTileLoaded<'a>| *l.tile));
        }
        InfernoTileGraph { tiles: loaded }
    }

    /// The loaded tiles with their recovered segments.
    pub fn loaded(&self) -> (r: &Vec<InfernoTileLoaded<'a>>)
        ensures
            r@ == self.spec_loaded(),
    {
        &self.tiles
    }

    /// Fetches a directed edge by reference, from the loaded tile whose
    /// identifier equals the reference's tile portion.  An edge reference
    /// into a loaded tile must carry an index within that tile's edge list;
    /// a reference into an absent tile is answered with `MissingTile`.
    pub fn directed_edge(
        &'a self,
        index: &GraphEntityId<ValhallaDirectedEdge>,
    ) -> (r: Result<VEntity<&'a ValhallaDirectedEdge>, GraphError>)
        requires
            match spec_lookup_tile(self.spec_tiles(), index.spec_tile_id()) {
                Some(t) => (index.spec_graph_index() as usize) < self.spec_tiles()[t].spec_edges().len(),
                None => true,
            },
        ensures
            match spec_lookup_tile(self.spec_tiles(), index.spec_tile_id()) {
                Some(t) => match r {
                    Ok(e) => *e.inner == self.spec_tiles()[t].spec_edges()[index.spec_graph_index() as usize as int],
                    Err(_) => false,
                },
                None => r == Err::<VEntity<&'a ValhallaDirectedEdge>, GraphError>(
                    GraphError::MissingTile,
                ),
            },
    {
        let tile_id = index.tile_id();
        match lookup_loaded(&self.tiles, tile_id.value()) {
            Some(t) => {
                proof {
                    lemma_lookup_tile_finds(self.spec_tiles(), index.spec_tile_id());
                    assert(self.spec_tiles()[t as int] == *self.tiles@[t as int].tile);
                }
                let entity = self.tiles[t].tile.directed_edges().get(index);
                match entity {
                    Some(e) => Ok(e),
                    None => {
                        // Excluded by the caller contract: a reference into a
                        // loaded tile carries a valid index.
                        proof {
                            assert(false);
                        }
                        Err(GraphError::MissingTile)
                    },
                }
            },
            None => Err(GraphError::MissingTile),
        }
    }
}

/// Whether any of `tiles[from..]` carries the identifier.
fn has_tile_id_from(tiles: &[InfernoTile], from: usize, id: u64) -> (r: bool)
    requires
        from <= tiles@.len(),
    ensures
        r == spec_has_tile_id(tiles@.skip(from as int), id),
{
    let n = tiles.len();
    let mut k = from;
    while k < n
        invariant
            from <= k <= n,
            n == tiles@.len(),
            forall|j: int| from <= j < k ==> (#[trigger] tiles@[j]).spec_tile_id().id != id,
        decreases n - k,
    {
        if tiles[k].tile_id().value() == id {
            proof {
                assert(tiles@.skip(from as int)[k - from] == tiles@[k as int]);
            }
            return true;
        }
        k += 1;
    }
    proof {
        assert forall|j: int| 0 <= j < tiles@.skip(from as int).len() implies (#[trigger] tiles@.skip(
            from as int,
        )[j]).spec_tile_id().id != id by {
            assert(tiles@.skip(from as int)[j] == tiles@[from + j]);
        }
    }
    false
}

/// Finds the last tile of the batch carrying the identifier.
fn lookup_tile_index(tiles: &[InfernoTile], id: u64) -> (r: Option<usize>)
    ensures
        match r {
            Some(i) => Some(i as int) == spec_lookup_tile(tiles@, id),
            None => spec_lookup_tile(tiles@, id) is None,
        },
{
    let mut k = tiles.len();
    proof {
        assert(tiles@.take(tiles@.len() as int) =~= tiles@);
    }
    while k > 0
        invariant
            k <= tiles@.len(),
            spec_lookup_tile(tiles@, id) == spec_lookup_tile(tiles@.take(k as int), id),
        decreases k,
    {
        let probe = k - 1;
        if tiles[probe].tile_id().value() == id {
            proof {
                assert(tiles@.take(k as int).last() == tiles@[probe as int]);
            }
            return Some(probe);
        }
        proof {
            assert(tiles@.take(k as int).last() == tiles@[probe as int]);
            assert(tiles@.take(k as int).drop_last() =~= tiles@.take(probe as int));
        }
        k = probe;
    }
    proof {
        assert(tiles@.take(0) =~= Seq::<InfernoTile>::empty());
    }
    None
}

/// Finds the last loaded tile carrying the identifier.
fn lookup_loaded<'a, 'b>(loaded: &'b Vec<InfernoTileLoaded<'a>>, id: u64) -> (r: Option<usize>)
    ensures
        match r {
            Some(i) => Some(i as int) == spec_lookup_tile(
                loaded@.map_values(|l: InfernoTileLoaded<'a>| *l.tile),
                id,
            ),
            None => spec_lookup_tile(
                loaded@.map_values(|l: InfernoTileLoaded<'a>| *l.tile),
                id,
            ) is None,
        },
{
    let ghost mapped = loaded@.map_values(|l: InfernoTileLoaded<'a>| *l.tile);
    let mut k = loaded.len();
    proof {
        assert(mapped.take(mapped.len() as int) =~= mapped);
    }
    while k > 0
        invariant
            k <= loaded@.len(),
            mapped == loaded@.map_values(|l: InfernoTileLoaded<'a>| *l.tile),
            spec_lookup_tile(mapped, id) == spec_lookup_tile(mapped.take(k as int), id),
        decreases k,
    {
        let probe = k - 1;
        if loaded[probe].tile.tile_id().value() == id {
            proof {
                assert(mapped.take(k as int).last() == mapped[probe as int]);
            }
            return Some(probe);
        }
        proof {
            assert(mapped.take(k as int).last() == mapped[probe as int]);
            assert(mapped.take(k as int).drop_last() =~= mapped.take(probe as int));
        }
        k = probe;
    }
    proof {
        assert(mapped.take(0) =~= Seq::<InfernoTile>::empty());
    }
    None
}

/// Follows the recovery chain for one edge.
fn resolve_edge(tiles: &[InfernoTile], tile: &InfernoTile, edge_index: usize) -> (r: Option<
    EdgeSegment,
>)
    requires
        edge_index < tile.spec_edges().len(),
    ensures
        r == spec_resolve_edge(tiles@, *tile, edge_index as int),
{
    let edge = *tile.directed_edges().at(edge_index);
    let end_ref = edge.end_node();
    let end_tid = end_ref.tile_id();
    let tj = match lookup_tile_index(tiles, end_tid.value()) {
        Some(tj) => tj,
        None => {
            return None;
        },
    };
    proof {
        lemma_lookup_tile_finds(tiles@, end_tid.id);
    }
    let end_tile = &tiles[tj];
    let end_ent = match end_tile.nodes().get(&end_ref) {
        Some(e) => e,
        None => {
            return None;
        },
    };
    let end_node = *end_ent.inner();
    let opp = edge.opposing_edge_index();
    let first = end_node.data1.edge_index() as usize;
    let count = end_node.data1.edge_count() as usize;
    if opp >= count {
        return None;
    }
    let edge_total = end_tile.directed_edges().len();
    if count > edge_total || first > edge_total - count {
        return None;
    }
    let opp_edge = *end_tile.directed_edges().at(first + opp);
    let start_ref = opp_edge.end_node();
    let start_tid = start_ref.tile_id();
    let ts = match lookup_tile_index(tiles, start_tid.value()) {
        Some(ts) => ts,
        None => {
            return None;
        },
    };
    proof {
        lemma_lookup_tile_finds(tiles@, start_tid.id);
    }
    let start_tile = &tiles[ts];
    let start_ent = match start_tile.nodes().get(&start_ref) {
        Some(e) => e,
        None => {
            return None;
        },
    };
    let start_node = *start_ent.inner();
    let (base_lat, base_lon) = start_tile.base_ll_bits();
    let (end_base_lat, end_base_lon) = end_tile.base_ll_bits();
    Some(
        EdgeSegment {
            edge: GraphEntityId::from_tile_index(&tile.tile_id(), edge_index),
            start: EdgeNodePoint {
                base_lat_bits: base_lat,
                base_lon_bits: base_lon,
                position_info: start_node.position_info,
            },
            end: EdgeNodePoint {
                base_lat_bits: end_base_lat,
                base_lon_bits: end_base_lon,
                position_info: end_node.position_info,
            },
        },
    )
}

/// Recovers the segments of every edge of `tile`, dropping the edges whose
/// chain breaks.
fn load_tile_segments(tiles: &[InfernoTile], tile: &InfernoTile) -> (r: Vec<EdgeSegment>)
    ensures
        r@ == spec_tile_segments(tiles@, *tile),
{
    let mut segments: Vec<EdgeSegment> = Vec::new();
    let n = tile.directed_edges().len();
    let mut i: usize = 0;
    while i < n
        invariant
            i <= n,
            n == tile.spec_edges().len(),
            segments@ == spec_tile_segments_upto(tiles@, *tile, i as int),
        decreases n - i,
    {
        let ghost pre = segments@;
        match resolve_edge(tiles, tile, i) {
            Some(s) => {
                segments.push(s);
                proof {
                    assert(segments@ =~= pre + seq![s]);
                }
            },
            None => {
                proof {
                    assert(pre + Seq::<EdgeSegment>::empty() =~= pre);
                }
            },
        }
        i += 1;
    }
    segments
}

// ---------------------------------------------------------------------------
// Laws of the recovery chain
// ---------------------------------------------------------------------------

/// When every link of the chain holds — the end node's tile is in the
/// batch, the end-node index is in range, the opposing index falls inside
/// the end node's outbound edge range, that range lies inside the end
/// tile's edge list, the opposing edge's end-node tile is in the batch, and
/// its end-node index is in range there — the edge is indexed, with its
/// start position taken from the recovered start node and its end position
/// from the end node.
pub proof fn lemma_resolved_edge_geometry(
    tiles: Seq<InfernoTile>,
    tile: InfernoTile,
    ei: int,
    tj: int,
    ts: int,
)
    requires
        0 <= ei < tile.spec_edges().len(),
        spec_lookup_tile(tiles, spec_end_tile_of(tile.spec_edges()[ei])) == Some(tj),
        0 <= tj < tiles.len(),
        spec_end_index_of(tile.spec_edges()[ei]) < tiles[tj].spec_nodes().len(),
        ({
            let edge = tile.spec_edges()[ei];
            let end_node = tiles[tj].spec_nodes()[spec_end_index_of(edge) as int];
            &&& edge.spec_opposing_edge_index() < end_node.data1.spec_edge_count()
            &&& end_node.data1.spec_edge_index() + end_node.data1.spec_edge_count()
                <= tiles[tj].spec_edges().len()
        }),
        ({
            let edge = tile.spec_edges()[ei];
            let end_node = tiles[tj].spec_nodes()[spec_end_index_of(edge) as int];
            let opp_edge = tiles[tj].spec_edges()[end_node.data1.spec_edge_index()
                + edge.spec_opposing_edge_index()];
            &&& spec_lookup_tile(tiles, spec_end_tile_of(opp_edge)) == Some(ts)
            &&& 0 <= ts < tiles.len()
            &&& spec_end_index_of(opp_edge) < tiles[ts].spec_nodes().len()
        }),
    ensures
        ({
            let edge = tile.spec_edges()[ei];
            let end_node = tiles[tj].spec_nodes()[spec_end_index_of(edge) as int];
            let opp_edge = tiles[tj].spec_edges()[end_node.data1.spec_edge_index()
                + edge.spec_opposing_edge_index()];
            let start_node = tiles[ts].spec_nodes()[spec_end_index_of(opp_edge) as int];
            spec_resolve_edge(tiles, tile, ei) matches Some(s) && s.start == spec_node_point(
                tiles[ts],
                start_node,
            ) && s.end == spec_node_point(tiles[tj], end_node) && s.edge.graph_entity_id
                == GraphEntityId::<ValhallaDirectedEdge>::spec_from_tile_index(
                tile.spec_tile_id(),
                ei as u64,
            )
        }),
{
}

/// An edge whose recovered start node — the opposing edge's end node —
/// lives in a tile the batch does not hold is dropped, even where its index
/// portion would fall inside some other tile's node list.
pub proof fn lemma_missing_start_tile_drops_edge(
    tiles: Seq<InfernoTile>,
    tile: InfernoTile,
    ei: int,
    tj: int,
)
    requires
        0 <= ei < tile.spec_edges().len(),
        spec_lookup_tile(tiles, spec_end_tile_of(tile.spec_edges()[ei])) == Some(tj),
        0 <= tj < tiles.len(),
        spec_end_index_of(tile.spec_edges()[ei]) < tiles[tj].spec_nodes().len(),
        ({
            let edge = tile.spec_edges()[ei];
            let end_node = tiles[tj].spec_nodes()[spec_end_index_of(edge) as int];
            &&& edge.spec_opposing_edge_index() < end_node.data1.spec_edge_count()
            &&& end_node.data1.spec_edge_index() + end_node.data1.spec_edge_count()
                <= tiles[tj].spec_edges().len()
        }),
        ({
            let edge = tile.spec_edges()[ei];
            let end_node = tiles[tj].spec_nodes()[spec_end_index_of(edge) as int];
            let opp_edge = tiles[tj].spec_edges()[end_node.data1.spec_edge_index()
                + edge.spec_opposing_edge_index()];
            forall|k: int|
                0 <= k < tiles.len() ==> (#[trigger] tiles[k]).spec_tile_id().id
                    != spec_end_tile_of(opp_edge)
        }),
    ensures
        spec_resolve_edge(tiles, tile, ei) is None,
{
    let edge = tile.spec_edges()[ei];
    let end_node = tiles[tj].spec_nodes()[spec_end_index_of(edge) as int];
    let opp_edge = tiles[tj].spec_edges()[end_node.data1.spec_edge_index()
        + edge.spec_opposing_edge_index()];
    let wanted = spec_end_tile_of(opp_edge);
    lemma_lookup_tile_finds(tiles, wanted);
    if spec_lookup_tile(tiles, wanted) is Some {
        let i = spec_lookup_tile(tiles, wanted)->Some_0;
        assert(tiles[i].spec_tile_id().id == wanted);
    }
}

/// An edge whose end node lives in a tile the batch does not hold is
/// dropped: it resolves to nothing, and the build goes on without it.
pub proof fn lemma_missing_tile_drops_edge(tiles: Seq<InfernoTile>, tile: InfernoTile, ei: int)
    requires
        0 <= ei < tile.spec_edges().len(),
        forall|k: int|
            0 <= k < tiles.len() ==> (#[trigger] tiles[k]).spec_tile_id().id != spec_end_tile_of(
                tile.spec_edges()[ei],
            ),
    ensures
        spec_resolve_edge(tiles, tile, ei) is None,
{
    let wanted = spec_end_tile_of(tile.spec_edges()[ei]);
    lemma_lookup_tile_finds(tiles, wanted);
    if spec_lookup_tile(tiles, wanted) is Some {
        let i = spec_lookup_tile(tiles, wanted)->Some_0;
        assert(tiles[i].spec_tile_id().id == wanted);
    }
}

} // verus!
