use inferno_tiles::graph_id::{GraphEntityId, TileId};
use inferno_tiles::records::{ValhallaDirectedEdge, ValhallaNodeInfo};

#[test]
fn pack_and_unpack_round_trip() {
    // Packing a tile identifier and an index is reversible for every index
    // that fits the remaining bit width.
    let cases: [(u64, usize); 5] = [(0, 0), (5, 0), (0x1ff_ffff, 1), (9, 12345), (2, (1 << 21) - 1)];
    for (tile, index) in cases {
        let id: GraphEntityId<ValhallaNodeInfo> = GraphEntityId::from_tile_index(
            &TileId::new(tile),
            index,
        );
        assert_eq!(id.tile_id().value(), tile);
        assert_eq!(id.graph_index(), index);
    }
}

#[test]
fn hierarchy_level_is_low_bits() {
    let id: GraphEntityId<ValhallaDirectedEdge> = GraphEntityId::new(0b1101);
    assert_eq!(id.hierarchy_level(), 0b101);
    // The level is part of the tile identifier.
    assert_eq!(id.tile_id().value(), 0b1101);
}

#[test]
fn packed_value_layout() {
    let id: GraphEntityId<ValhallaNodeInfo> = GraphEntityId::from_tile_index(&TileId::new(9), 3);
    assert_eq!(id.raw(), 9 | (3 << 25));
    let back: GraphEntityId<ValhallaNodeInfo> = GraphEntityId::new(id.raw());
    assert_eq!(back.tile_id().value(), 9);
    assert_eq!(back.graph_index(), 3);
}

#[test]
fn diagnostic_renderings() {
    assert_eq!(TileId::new(255).describe(), "ff");
    let id: GraphEntityId<ValhallaNodeInfo> = GraphEntityId::new(1234);
    assert_eq!(id.describe(), "1234");
}

#[test]
fn oversized_index_corrupts_tile_bits() {
    // An index wider than 39 bits spills into nothing (shifted out), and a
    // tile identifier wider than 25 bits collides with the index portion:
    // the scheme does not guard against either.
    let id: GraphEntityId<ValhallaNodeInfo> = GraphEntityId::from_tile_index(
        &TileId::new(1 << 30),
        0,
    );
    assert_ne!(id.tile_id().value(), 1 << 30);
    assert_eq!(id.graph_index(), 1 << 5);
}
