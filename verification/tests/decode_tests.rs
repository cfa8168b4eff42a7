use inferno_tiles::encode::encode_tile;
use inferno_tiles::header::{
    ValhallaTileHeader, ValhallaTileHeaderCounts1, ValhallaTileHeaderCounts2,
    ValhallaTileHeaderCounts3, ValhallaTileHeaderCounts4, ValhallaTileHeaderCounts5,
    ValhallaTileHeaderMetadata, HEADER_SIZE,
};
use inferno_tiles::records::{
    ValhallaAccessRestriction, ValhallaAccessRestrictionBitField, ValhallaDirectedEdge,
    ValhallaDirectedEdgeData1, ValhallaDirectedEdgeData2, ValhallaDirectedEdgeData3,
    ValhallaDirectedEdgeData4, ValhallaDirectedEdgeRestrictions1,
    ValhallaDirectedEdgeRestrictions2, ValhallaNodeInfo, ValhallaNodeInfoData1,
    ValhallaNodeInfoData2, ValhallaNodeInfoPositionInfo, ValhallaNodeTransition,
};
use inferno_tiles::tile::{DecodeError, InfernoTile};

fn make_header(
    graphid: u64,
    has_ext: bool,
    n_nodes: u64,
    n_transitions: u64,
    n_edges: u64,
    n_restrictions: u64,
    tile_size: u32,
) -> ValhallaTileHeader {
    ValhallaTileHeader {
        metadata: ValhallaTileHeaderMetadata { bits: graphid | ((has_ext as u64) << 63) },
        base_ll_lat_bits: 0x4248_0000,
        base_ll_lon_bits: 0xc120_0000,
        version: vec![0u8; 16],
        dataset_id: 7,
        counts1: ValhallaTileHeaderCounts1 { bits: n_nodes | (n_edges << 21) },
        counts2: ValhallaTileHeaderCounts2 { bits: n_transitions },
        counts3: ValhallaTileHeaderCounts3 { bits: 0 },
        counts4: ValhallaTileHeaderCounts4 { bits: 0 },
        counts5: ValhallaTileHeaderCounts5 { bits: n_restrictions },
        spare_word1: 0,
        spare_word2: 0,
        complex_restriction_forward_offset: 0,
        complex_restriction_reverse_offset: 0,
        edge_info_offset: 0,
        text_list_offset: 0,
        date_created: 0,
        bin_offsets: vec![0u32; 25],
        late_connectivity_offset: 0,
        predicted_speeds_offset: 0,
        tile_size,
        empty_slots: vec![0u32; 11],
    }
}

fn tile_size_for(
    has_ext: bool,
    n_nodes: u64,
    n_transitions: u64,
    n_edges: u64,
    n_restrictions: u64,
    tail_len: u64,
) -> u32 {
    let ext = if has_ext { 8 * n_edges } else { 0 };
    (272 + 32 * n_nodes + 8 * n_transitions + 48 * n_edges + ext + 16 * n_restrictions + tail_len)
        as u32
}

fn make_node(position_bits: u64, data1_bits: u64, headings: u64) -> ValhallaNodeInfo {
    ValhallaNodeInfo {
        position_info: ValhallaNodeInfoPositionInfo { bits: position_bits },
        data1: ValhallaNodeInfoData1 { bits: data1_bits },
        data2: ValhallaNodeInfoData2 { bits: 0 },
        headings,
    }
}

fn make_edge(r1_bits: u64, r2_bits: u64) -> ValhallaDirectedEdge {
    ValhallaDirectedEdge {
        restrictions1: ValhallaDirectedEdgeRestrictions1 { bits: r1_bits },
        restrictions2: ValhallaDirectedEdgeRestrictions2 { bits: r2_bits },
        data1: ValhallaDirectedEdgeData1 { bits: 0x1122 },
        data2: ValhallaDirectedEdgeData2 { bits: 0x3344 },
        data3: ValhallaDirectedEdgeData3 { bits: 0x5566 },
        stop_impact_union_line_id: 0xabcd,
        data4: ValhallaDirectedEdgeData4 { bits: 0x77 },
    }
}

fn write_u64_le(out: &mut Vec<u8>, offset: usize, value: u64) {
    let bytes = value.to_le_bytes();
    out[offset..offset + 8].copy_from_slice(&bytes);
}

fn write_u32_le(out: &mut Vec<u8>, offset: usize, value: u32) {
    let bytes = value.to_le_bytes();
    out[offset..offset + 4].copy_from_slice(&bytes);
}

#[test]
fn header_too_short_is_rejected() {
    let bytes = vec![0u8; HEADER_SIZE - 1];
    assert_eq!(
        InfernoTile::from_valhalla(&bytes).unwrap_err(),
        DecodeError::HeaderTooShort
    );
    assert_eq!(
        InfernoTile::from_valhalla(&[]).unwrap_err(),
        DecodeError::HeaderTooShort
    );
}

#[test]
fn size_mismatch_is_rejected() {
    // A header-only buffer whose declared tile size disagrees with its
    // actual length.
    let mut bytes = vec![0u8; HEADER_SIZE];
    write_u32_le(&mut bytes, 224, HEADER_SIZE as u32 + 4);
    assert_eq!(
        InfernoTile::from_valhalla(&bytes).unwrap_err(),
        DecodeError::SizeMismatch
    );
}

#[test]
fn truncated_node_records_are_rejected() {
    // Declared size and length agree, but the declared node count needs
    // more bytes than the buffer holds.
    let mut bytes = vec![0u8; HEADER_SIZE + 8];
    write_u32_le(&mut bytes, 224, (HEADER_SIZE + 8) as u32);
    write_u64_le(&mut bytes, 40, 3); // three nodes declared
    assert_eq!(
        InfernoTile::from_valhalla(&bytes).unwrap_err(),
        DecodeError::TruncatedRecords
    );
}

#[test]
fn record_ending_exactly_at_buffer_end_is_rejected() {
    // One transition record that ends exactly at the buffer end: the format
    // demands one spare byte after the last record of a list.
    let mut bytes = vec![0u8; HEADER_SIZE + 8];
    write_u32_le(&mut bytes, 224, (HEADER_SIZE + 8) as u32);
    write_u64_le(&mut bytes, 48, 1); // one transition declared
    assert_eq!(
        InfernoTile::from_valhalla(&bytes).unwrap_err(),
        DecodeError::TruncatedRecords
    );
    // With one spare byte the same records decode.
    let mut bytes = vec![0u8; HEADER_SIZE + 9];
    write_u32_le(&mut bytes, 224, (HEADER_SIZE + 9) as u32);
    write_u64_le(&mut bytes, 48, 1);
    let tile = InfernoTile::from_valhalla(&bytes).unwrap();
    assert_eq!(tile.node_transitions().len(), 1);
}

#[test]
fn empty_tile_decodes() {
    let h = make_header(42, false, 0, 0, 0, 0, tile_size_for(false, 0, 0, 0, 0, 1));
    let bytes = encode_tile(&h, &vec![], &vec![], &vec![], &vec![], &vec![0u8]);
    let tile = InfernoTile::from_valhalla(&bytes).unwrap();
    assert_eq!(tile.tile_id().value(), 42);
    assert_eq!(tile.nodes().len(), 0);
    assert_eq!(tile.node_transitions().len(), 0);
    assert_eq!(tile.directed_edges().len(), 0);
    assert_eq!(tile.access_restrictions().len(), 0);
    assert_eq!(tile.header(), &h);
}

#[test]
fn header_only_tile_round_trips() {
    // A tile of exactly 272 bytes: no records, no trailing sections.
    let h = make_header(3, false, 0, 0, 0, 0, HEADER_SIZE as u32);
    let bytes = encode_tile(&h, &vec![], &vec![], &vec![], &vec![], &vec![]);
    assert_eq!(bytes.len(), HEADER_SIZE);
    let tile = InfernoTile::from_valhalla(&bytes).unwrap();
    assert_eq!(tile.header(), &h);
    let bytes2 = encode_tile(tile.header(), &vec![], &vec![], &vec![], &vec![], &vec![]);
    assert_eq!(bytes, bytes2);
}

#[test]
fn decode_reads_records_exactly() {
    let nodes = vec![make_node(0x0102_0304, 0x0506, 0xdead_beef), make_node(0x1111, 0x2222, 0x3333)];
    let transitions = vec![ValhallaNodeTransition { bits: 0x4444 }];
    let edges = vec![make_edge(0x9999, 0x8888)];
    let restrictions = vec![ValhallaAccessRestriction {
        bitfield: ValhallaAccessRestrictionBitField { bits: 0x1234 },
        value: 0x5678,
    }];
    let h = make_header(
        42,
        false,
        2,
        1,
        1,
        1,
        tile_size_for(false, 2, 1, 1, 1, 3),
    );
    let bytes = encode_tile(&h, &nodes, &transitions, &edges, &restrictions, &vec![9u8, 8, 7]);
    let tile = InfernoTile::from_valhalla(&bytes).unwrap();
    assert_eq!(tile.nodes().len(), 2);
    assert_eq!(tile.nodes().at(0), &nodes[0]);
    assert_eq!(tile.nodes().at(1), &nodes[1]);
    assert_eq!(tile.node_transitions().at(0), &transitions[0]);
    assert_eq!(tile.directed_edges().at(0), &edges[0]);
    assert_eq!(tile.access_restrictions().at(0), &restrictions[0]);
    assert_eq!(tile.base_ll_bits(), (0x4248_0000, 0xc120_0000));
}

#[test]
fn extension_records_are_skipped() {
    // Same records, extension flag set: one unparsed 8-byte extension per
    // directed edge sits between the edges and the restrictions.
    let nodes = vec![make_node(1, 2, 3)];
    let edges = vec![make_edge(0x77, 0x66)];
    let restrictions = vec![ValhallaAccessRestriction {
        bitfield: ValhallaAccessRestrictionBitField { bits: 0xaa },
        value: 0xbb,
    }];
    let h = make_header(5, true, 1, 0, 1, 1, tile_size_for(true, 1, 0, 1, 1, 1));
    let bytes = encode_tile(&h, &nodes, &vec![], &edges, &restrictions, &vec![0u8]);
    let tile = InfernoTile::from_valhalla(&bytes).unwrap();
    assert_eq!(tile.directed_edges().at(0), &edges[0]);
    assert_eq!(tile.access_restrictions().at(0), &restrictions[0]);
}

#[test]
fn round_trip_preserves_records() {
    // Decode, re-encode the four record lists with the decoded header, and
    // decode again: the records must be identical.
    let nodes = vec![make_node(0xaaa, 0xbbb, 0xccc), make_node(0xddd, 0xeee, 0xfff)];
    let transitions = vec![
        ValhallaNodeTransition { bits: 0x123 },
        ValhallaNodeTransition { bits: 0x456 },
    ];
    let edges = vec![make_edge(0x111, 0x222), make_edge(0x333, 0x444)];
    let restrictions = vec![ValhallaAccessRestriction {
        bitfield: ValhallaAccessRestrictionBitField { bits: 0x555 },
        value: 0x666,
    }];
    let h = make_header(13, false, 2, 2, 2, 1, tile_size_for(false, 2, 2, 2, 1, 5));
    let bytes = encode_tile(&h, &nodes, &transitions, &edges, &restrictions, &vec![1u8; 5]);
    let tile = InfernoTile::from_valhalla(&bytes).unwrap();

    let decoded_nodes: Vec<_> = (0..tile.nodes().len()).map(|i| *tile.nodes().at(i)).collect();
    let decoded_transitions: Vec<_> =
        (0..tile.node_transitions().len()).map(|i| *tile.node_transitions().at(i)).collect();
    let decoded_edges: Vec<_> =
        (0..tile.directed_edges().len()).map(|i| *tile.directed_edges().at(i)).collect();
    let decoded_restrictions: Vec<_> = (0..tile.access_restrictions().len())
        .map(|i| *tile.access_restrictions().at(i))
        .collect();

    let bytes2 = encode_tile(
        tile.header(),
        &decoded_nodes,
        &decoded_transitions,
        &decoded_edges,
        &decoded_restrictions,
        &vec![1u8; 5],
    );
    assert_eq!(bytes, bytes2);
    let tile2 = InfernoTile::from_valhalla(&bytes2).unwrap();
    assert_eq!(tile2.header(), tile.header());
    for i in 0..nodes.len() {
        assert_eq!(tile2.nodes().at(i), &nodes[i]);
    }
    for i in 0..transitions.len() {
        assert_eq!(tile2.node_transitions().at(i), &transitions[i]);
    }
    for i in 0..edges.len() {
        assert_eq!(tile2.directed_edges().at(i), &edges[i]);
    }
    for i in 0..restrictions.len() {
        assert_eq!(tile2.access_restrictions().at(i), &restrictions[i]);
    }
}

#[test]
fn unparsed_sections_len_follows_counts() {
    let mut h = make_header(1, false, 0, 0, 0, 0, 0);
    // transfers 2, departures 3, stops 4; routes 5, schedules 6, signs 7;
    // admins 8.
    h.counts3 = ValhallaTileHeaderCounts3 { bits: 2 | (3 << 23) | (4 << 47) };
    h.counts4 = ValhallaTileHeaderCounts4 { bits: 5 | (6 << 12) | (7 << 24) };
    h.counts5 = ValhallaTileHeaderCounts5 { bits: 8 << 24 };
    let expected = 3 * 24 + 4 * 8 + 5 * 40 + 6 * 16 + 2 * 12 + 7 * 8 + 8 * 16;
    assert_eq!(h.unparsed_sections_len(), expected);
}
