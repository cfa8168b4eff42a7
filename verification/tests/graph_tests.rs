use inferno_tiles::encode::encode_tile;
use inferno_tiles::entity::HasEntityPointer;
use inferno_tiles::graph::{GraphError, InfernoTileGraph};
use inferno_tiles::graph_id::{GraphEntityId, TileId};
use inferno_tiles::header::{
    ValhallaTileHeader, ValhallaTileHeaderCounts1, ValhallaTileHeaderCounts2,
    ValhallaTileHeaderCounts3, ValhallaTileHeaderCounts4, ValhallaTileHeaderCounts5,
    ValhallaTileHeaderMetadata,
};
use inferno_tiles::records::{
    ValhallaDirectedEdge, ValhallaDirectedEdgeData1, ValhallaDirectedEdgeData2,
    ValhallaDirectedEdgeData3, ValhallaDirectedEdgeData4, ValhallaDirectedEdgeRestrictions1,
    ValhallaDirectedEdgeRestrictions2, ValhallaEdgeInfo, ValhallaNodeInfo, ValhallaNodeInfoData1,
    ValhallaNodeInfoData2, ValhallaNodeInfoPositionInfo,
};
use inferno_tiles::tile::InfernoTile;

/// Builds a decoded tile holding the given nodes and edges.
fn build_tile(
    graphid: u64,
    base_lat_bits: u32,
    base_lon_bits: u32,
    nodes: Vec<ValhallaNodeInfo>,
    edges: Vec<ValhallaDirectedEdge>,
) -> InfernoTile {
    let tile_size = 272 + 32 * nodes.len() as u64 + 48 * edges.len() as u64 + 1;
    let h = ValhallaTileHeader {
        metadata: ValhallaTileHeaderMetadata { bits: graphid },
        base_ll_lat_bits: base_lat_bits,
        base_ll_lon_bits: base_lon_bits,
        version: vec![0u8; 16],
        dataset_id: 0,
        counts1: ValhallaTileHeaderCounts1 {
            bits: nodes.len() as u64 | ((edges.len() as u64) << 21),
        },
        counts2: ValhallaTileHeaderCounts2 { bits: 0 },
        counts3: ValhallaTileHeaderCounts3 { bits: 0 },
        counts4: ValhallaTileHeaderCounts4 { bits: 0 },
        counts5: ValhallaTileHeaderCounts5 { bits: 0 },
        spare_word1: 0,
        spare_word2: 0,
        complex_restriction_forward_offset: 0,
        complex_restriction_reverse_offset: 0,
        edge_info_offset: 0,
        text_list_offset: 0,
        date_created: 0,
        bin_offsets: vec![0u32; 25],
        late_connectivity_offset: 0,
        predicted_speeds_offset: 0,
        tile_size: tile_size as u32,
        empty_slots: vec![0u32; 11],
    };
    let bytes = encode_tile(&h, &nodes, &vec![], &edges, &vec![], &vec![0u8]);
    InfernoTile::from_valhalla(&bytes).unwrap()
}

/// A node whose outbound edges are `[edge_index, edge_index + edge_count)`.
fn node_with_edges(position_bits: u64, edge_index: u64, edge_count: u64) -> ValhallaNodeInfo {
    ValhallaNodeInfo {
        position_info: ValhallaNodeInfoPositionInfo { bits: position_bits },
        data1: ValhallaNodeInfoData1 { bits: edge_index | (edge_count << 21) },
        data2: ValhallaNodeInfoData2 { bits: 0 },
        headings: 0,
    }
}

/// An edge ending at the packed node reference, whose reverse edge sits at
/// `opp_index` in the end node's outbound list.
fn edge_to(end_node_packed: u64, opp_index: u64, edge_info_offset: u64) -> ValhallaDirectedEdge {
    ValhallaDirectedEdge {
        restrictions1: ValhallaDirectedEdgeRestrictions1 {
            bits: end_node_packed | (opp_index << 54),
        },
        restrictions2: ValhallaDirectedEdgeRestrictions2 { bits: edge_info_offset },
        data1: ValhallaDirectedEdgeData1 { bits: 0 },
        data2: ValhallaDirectedEdgeData2 { bits: 0 },
        data3: ValhallaDirectedEdgeData3 { bits: 0 },
        stop_impact_union_line_id: 0,
        data4: ValhallaDirectedEdgeData4 { bits: 0 },
    }
}

/// Two tiles: an edge of A ends at B's node, and B's opposing edge points
/// back at A's node.
fn cross_tile_pair() -> (InfernoTile, InfernoTile) {
    let tile_a = build_tile(
        5,
        0xa111_0000,
        0xa222_0000,
        vec![node_with_edges(0x0a0a, 0, 1)],
        vec![edge_to(9, 0, 77)],
    );
    let tile_b = build_tile(
        9,
        0xb111_0000,
        0xb222_0000,
        vec![node_with_edges(0x0b0b, 0, 1)],
        vec![edge_to(5, 0, 88)],
    );
    (tile_a, tile_b)
}

#[test]
fn cross_tile_edge_is_indexed_with_both_positions() {
    let (tile_a, tile_b) = cross_tile_pair();
    let tiles = vec![tile_a, tile_b];
    let graph = InfernoTileGraph::new(&tiles);
    let loaded = graph.loaded();
    assert_eq!(loaded.len(), 2);

    // Tile A's edge resolves: end node in B, start node recovered through
    // B's opposing edge back in A.
    let segments_a = &loaded[0].segments;
    assert_eq!(segments_a.len(), 1);
    let s = &segments_a[0];
    assert_eq!(s.edge.raw(), 5);
    assert_eq!(s.edge.tile_id().value(), 5);
    assert_eq!(s.edge.graph_index(), 0);
    assert_eq!(s.start.base_lat_bits, 0xa111_0000);
    assert_eq!(s.start.base_lon_bits, 0xa222_0000);
    assert_eq!(s.start.position_info.bits, 0x0a0a);
    assert_eq!(s.end.base_lat_bits, 0xb111_0000);
    assert_eq!(s.end.base_lon_bits, 0xb222_0000);
    assert_eq!(s.end.position_info.bits, 0x0b0b);

    // The reverse edge resolves symmetrically.
    let segments_b = &loaded[1].segments;
    assert_eq!(segments_b.len(), 1);
    assert_eq!(segments_b[0].edge.raw(), 9);
    assert_eq!(segments_b[0].start.position_info.bits, 0x0b0b);
    assert_eq!(segments_b[0].end.position_info.bits, 0x0a0a);
}

#[test]
fn missing_tile_drops_edge_without_failing() {
    let (tile_a, _tile_b) = cross_tile_pair();
    let tiles = vec![tile_a];
    let graph = InfernoTileGraph::new(&tiles);
    let loaded = graph.loaded();
    assert_eq!(loaded.len(), 1);
    // The one edge of A ends in the absent tile 9: it is excluded, and the
    // build still succeeds.
    assert_eq!(loaded[0].segments.len(), 0);
}

#[test]
fn out_of_range_opposing_index_drops_edge() {
    // The end node claims one outbound edge, but the edge stores opposing
    // index 3: the chain breaks and the edge is dropped.
    let tile = build_tile(
        5,
        0,
        0,
        vec![node_with_edges(0x0a0a, 0, 1)],
        vec![edge_to(5, 3, 0)],
    );
    let tiles = vec![tile];
    let graph = InfernoTileGraph::new(&tiles);
    assert_eq!(graph.loaded()[0].segments.len(), 0);
}

#[test]
fn missing_start_tile_drops_edge() {
    // The chain holds up to the opposing edge, but the opposing edge's
    // end-node reference names tile 7, absent from the batch.  Its index
    // portion (0) would fall inside this tile's own node list; the edge is
    // dropped regardless: the reference is resolved by its tile portion,
    // not against the original tile.
    let tile = build_tile(
        5,
        0,
        0,
        vec![node_with_edges(0x0a0a, 0, 2)],
        vec![edge_to(5, 1, 0), edge_to(7, 0, 0)],
    );
    let tiles = vec![tile];
    let graph = InfernoTileGraph::new(&tiles);
    assert_eq!(graph.loaded()[0].segments.len(), 0);
}

#[test]
fn start_node_resolved_across_batch() {
    // A's edge ends at B's node; B's opposing edge points into tile C, so
    // the recovered start node — and its base coordinates — come from C.
    let tile_a = build_tile(5, 0xaa, 0xaa, vec![], vec![edge_to(9, 0, 0)]);
    let tile_b = build_tile(
        9,
        0xbb,
        0xbb,
        vec![node_with_edges(0x0b0b, 0, 1)],
        vec![edge_to(13, 0, 0)],
    );
    let tile_c = build_tile(13, 0xcc, 0xdd, vec![node_with_edges(0x0c0c, 0, 1)], vec![]);
    let tiles = vec![tile_a, tile_b, tile_c];
    let graph = InfernoTileGraph::new(&tiles);
    let segments_a = &graph.loaded()[0].segments;
    assert_eq!(segments_a.len(), 1);
    assert_eq!(segments_a[0].start.base_lat_bits, 0xcc);
    assert_eq!(segments_a[0].start.base_lon_bits, 0xdd);
    assert_eq!(segments_a[0].start.position_info.bits, 0x0c0c);
    assert_eq!(segments_a[0].end.position_info.bits, 0x0b0b);
}

#[test]
fn duplicate_tile_ids_keep_the_last() {
    let first = build_tile(5, 0, 0, vec![node_with_edges(0x1111, 0, 1)], vec![]);
    let second = build_tile(5, 0, 0, vec![node_with_edges(0x2222, 0, 1)], vec![]);
    let tiles = vec![first, second];
    let graph = InfernoTileGraph::new(&tiles);
    let loaded = graph.loaded();
    assert_eq!(loaded.len(), 1);
    assert_eq!(loaded[0].tile.nodes().at(0).position_info.bits, 0x2222);
}

#[test]
fn directed_edge_lookup() {
    let (tile_a, tile_b) = cross_tile_pair();
    let tiles = vec![tile_a, tile_b];
    let graph = InfernoTileGraph::new(&tiles);

    let ok_ref: GraphEntityId<ValhallaDirectedEdge> = GraphEntityId::from_tile_index(
        &TileId::new(5),
        0,
    );
    let entity = graph.directed_edge(&ok_ref).unwrap();
    assert_eq!(entity.inner().end_node().raw(), 9);
    assert_eq!(entity.tile_id().value(), 5);

    // The entity knows its tile, so a packed edge-info reference can be
    // derived from it.
    let info_ref: GraphEntityId<ValhallaEdgeInfo> = entity.get_entity();
    assert_eq!(info_ref.raw(), 5 | (77 << 25));

    let missing: GraphEntityId<ValhallaDirectedEdge> = GraphEntityId::from_tile_index(
        &TileId::new(999),
        0,
    );
    assert_eq!(graph.directed_edge(&missing).unwrap_err(), GraphError::MissingTile);
}
