use inferno_tiles::header::{
    ValhallaTileHeaderCounts1, ValhallaTileHeaderCounts2, ValhallaTileHeaderCounts3,
    ValhallaTileHeaderCounts4, ValhallaTileHeaderCounts5, ValhallaTileHeaderMetadata,
};
use inferno_tiles::records::{
    ValhallaAccessRestrictionBitField, ValhallaDirectedEdge, ValhallaDirectedEdgeData1,
    ValhallaDirectedEdgeData2, ValhallaDirectedEdgeData3, ValhallaDirectedEdgeData4,
    ValhallaDirectedEdgeRestrictions1, ValhallaDirectedEdgeRestrictions2,
    ValhallaNodeInfoData1, ValhallaNodeInfoData2, ValhallaNodeInfoPositionInfo, ValhallaSign,
};

#[test]
fn metadata_fields_unpack() {
    let m = ValhallaTileHeaderMetadata {
        bits: 0x2b | (3u64 << 46) | (5u64 << 50) | (7u64 << 54) | (9u64 << 58) | (1u64 << 62)
            | (1u64 << 63),
    };
    assert_eq!(m.graphid(), 0x2b);
    assert_eq!(m.density(), 3);
    assert_eq!(m.speed_quality(), 5);
    assert_eq!(m.exit_quality(), 7);
    assert_eq!(m.name_quality(), 9);
    assert!(m.has_elevation());
    assert!(m.has_ext_directededge());
}

#[test]
fn count_words_unpack() {
    let c1 = ValhallaTileHeaderCounts1 { bits: 100 | (200 << 21) | (300 << 42) };
    assert_eq!(c1.node_count(), 100);
    assert_eq!(c1.directed_edges_count(), 200);
    assert_eq!(c1.predicted_speeds_count(), 300);

    let c2 = ValhallaTileHeaderCounts2 { bits: 400 | (500 << 32) };
    assert_eq!(c2.transition_count(), 400);
    assert_eq!(c2.turn_lane_count(), 500);

    let c3 = ValhallaTileHeaderCounts3 { bits: 6 | (7 << 23) | (8 << 47) };
    assert_eq!(c3.transfer_count(), 6);
    assert_eq!(c3.departure_count(), 7);
    assert_eq!(c3.stop_count(), 8);

    let c4 = ValhallaTileHeaderCounts4 { bits: 9 | (10 << 12) | (11 << 24) };
    assert_eq!(c4.route_count(), 9);
    assert_eq!(c4.schedule_count(), 10);
    assert_eq!(c4.sign_count(), 11);

    let c5 = ValhallaTileHeaderCounts5 { bits: 12 | (13 << 24) };
    assert_eq!(c5.access_restriction_count(), 12);
    assert_eq!(c5.admin_count(), 13);
}

#[test]
fn node_position_unpacks() {
    let p = ValhallaNodeInfoPositionInfo {
        bits: 123_456 | (7u64 << 22) | (654_321u64 << 26) | (9u64 << 48) | (0xabcu64 << 52),
    };
    assert_eq!(p.lat_offset(), 123_456);
    assert_eq!(p.lat_offset7(), 7);
    assert_eq!(p.lon_offset(), 654_321);
    assert_eq!(p.lon_offset7(), 9);
    assert_eq!(p.access(), 0xabc);
}

#[test]
fn node_data_words_unpack() {
    let d1 = ValhallaNodeInfoData1 {
        bits: 77 | (5u64 << 21) | (9u64 << 28) | (101u64 << 40) | (3u64 << 49) | (4u64 << 53)
            | (6u64 << 57) | (1u64 << 61) | (1u64 << 63),
    };
    assert_eq!(d1.edge_index(), 77);
    assert_eq!(d1.edge_count(), 5);
    assert_eq!(d1.admin_index(), 9);
    assert_eq!(d1.timezone(), 101);
    assert_eq!(d1.intersection(), 3);
    assert_eq!(d1.node_type(), 4);
    assert_eq!(d1.density(), 6);
    assert!(d1.traffic_signal());
    assert!(!d1.mode_change());
    assert!(d1.is_named());

    let d2 = ValhallaNodeInfoData2 {
        bits: 88 | (3u64 << 21) | (0x1234u64 << 24) | (5u64 << 40) | (1u64 << 43) | (200u64 << 47),
    };
    assert_eq!(d2.transition_index(), 88);
    assert_eq!(d2.transition_count(), 3);
    assert_eq!(d2.local_driveability(), 0x1234);
    assert_eq!(d2.local_edge_count(), 5);
    assert!(d2.drive_on_right());
    assert!(!d2.tagged_access());
    assert_eq!(d2.elevation(), 200);
}

#[test]
fn directed_edge_words_unpack() {
    let r1 = ValhallaDirectedEdgeRestrictions1 {
        bits: 0x1234_5678 | (0xaau64 << 46) | (37u64 << 54) | (1u64 << 61) | (1u64 << 62),
    };
    assert_eq!(r1.end_node(), 0x1234_5678);
    assert_eq!(r1.restrictions(), 0xaa);
    assert_eq!(r1.opp_index(), 37);
    assert!(r1.is_forward());
    assert!(r1.leaves_tile());
    assert!(!r1.country_crossing());

    let e = ValhallaDirectedEdge {
        restrictions1: r1,
        restrictions2: ValhallaDirectedEdgeRestrictions2 { bits: 9876 | (1u64 << 63) },
        data1: ValhallaDirectedEdgeData1 { bits: 60 | (80u64 << 8) | (1u64 << 60) },
        data2: ValhallaDirectedEdgeData2 { bits: 0 },
        data3: ValhallaDirectedEdgeData3 { bits: 5 | (1500u64 << 32) | (9u64 << 56) },
        stop_impact_union_line_id: 0,
        data4: ValhallaDirectedEdgeData4 { bits: 3 | (4 << 7) | (1 << 28) },
    };
    assert_eq!(e.end_node().raw(), 0x1234_5678);
    assert_eq!(e.opposing_edge_index(), 37);
    assert_eq!(e.restrictions2.edge_info_offset(), 9876);
    assert!(e.restrictions2.not_thru());
    assert_eq!(e.data1.speed(), 60);
    assert_eq!(e.data1.free_flow_speed(), 80);
    assert!(e.data1.toll());
    assert_eq!(e.data3.turn_type(), 5);
    assert_eq!(e.data3.length_meters(), 1500);
    assert_eq!(e.data3.grade(), 9);
    assert_eq!(e.data4.local_edge_index(), 3);
    assert_eq!(e.data4.opposing_local_edge_index(), 4);
    assert!(e.data4.is_shortcut());
    assert!(!e.data4.link());
}

#[test]
fn access_restriction_and_sign_unpack() {
    let a = ValhallaAccessRestrictionBitField { bits: 4321 | (17u64 << 22) | (0x555u64 << 28) };
    assert_eq!(a.edge_index(), 4321);
    assert_eq!(a.access_type(), 17);
    assert_eq!(a.modes(), 0x555);

    let s = ValhallaSign { bits: 99 | (3u64 << 22) | (1u64 << 30) | (1u64 << 31) | (7u64 << 32) };
    assert_eq!(s.index(), 99);
    assert_eq!(s.sign_type(), 3);
    assert_eq!(s.route_num_type(), 1);
    assert!(s.tagged());
    assert_eq!(s.text_offset(), 7);
}
