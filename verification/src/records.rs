//! The fixed-size record types of the tile format.
//!
//! Each record is a small group of 64-bit or 32-bit words; most words pack
//! several narrow fields.  A record type here stores its raw words, and the
//! getters extract the packed fields by shift and mask.  The spec function
//! beside each getter names the extracted value, so contracts elsewhere can
//! speak of a record's fields without repeating the bit layout.

use crate::graph_id::{lemma_mask_bound, GraphEntityId};
use vstd::prelude::*;

verus! {

/// Size in bytes of one node record.
pub const NODE_INFO_SIZE: usize = 32;

/// Size in bytes of one node-transition record.
pub const NODE_TRANSITION_SIZE: usize = 8;

/// Size in bytes of one directed-edge record.
pub const DIRECTED_EDGE_SIZE: usize = 48;

/// Size in bytes of one directed-edge extension record (reserved payload,
/// skipped without parsing).
pub const DIRECTED_EDGE_EXT_SIZE: usize = 8;

/// Size in bytes of one access-restriction record.
pub const ACCESS_RESTRICTION_SIZE: usize = 16;

/// Size in bytes of one transit-departure record (skipped, never parsed).
pub const TRANSIT_DEPARTURE_SIZE: usize = 24;

/// Size in bytes of one transit-stop record (skipped, never parsed).
pub const TRANSIT_STOP_SIZE: usize = 8;

/// Size in bytes of one transit-route record (skipped, never parsed).
pub const TRANSIT_ROUTE_SIZE: usize = 40;

/// Size in bytes of one transit-schedule record (skipped, never parsed).
pub const TRANSIT_SCHEDULE_SIZE: usize = 16;

/// Size in bytes of one transit-transfer record (skipped, never parsed).
pub const TRANSIT_TRANSFER_SIZE: usize = 12;

/// Size in bytes of one sign record (skipped, never parsed).
pub const SIGN_SIZE: usize = 8;

/// Size in bytes of one administrative record (skipped, never parsed).
pub const ADMIN_SIZE: usize = 16;

/// Extracts the field of `bits` that starts at bit `shift` and is as wide as
/// `mask`.
pub fn field64(bits: u64, shift: u64, mask: u64) -> (r: u64)
    requires
        shift < 64,
    ensures
        r == (bits >> shift) & mask,
        r <= mask,
        shift == 0 ==> r == bits & mask,
{
    proof {
        lemma_mask_bound(bits >> shift, mask);
        assert(bits >> 0u64 == bits) by (bit_vector);
    }
    (bits >> shift) & mask
}

// ---------------------------------------------------------------------------
// Node records
// ---------------------------------------------------------------------------

/// One node of the road graph: a position packed against the tile's base
/// coordinates, the node's outbound-edge range, and its transition range.
#[derive(Clone, Copy, Debug, PartialEq, Eq, Structural)]
pub struct ValhallaNodeInfo {
    pub position_info: ValhallaNodeInfoPositionInfo,
    pub data1: ValhallaNodeInfoData1,
    pub data2: ValhallaNodeInfoData2,
    /// Headings of up to eight local edges, two-degree precision, kept for
    /// map matching; an opaque word here.
    pub headings: u64,
}

/// Packed position word of a node: latitude and longitude offsets from the
/// tile's base coordinates (six digits plus a seventh-digit part), and the
/// node's access mask.
#[derive(Clone, Copy, Debug, PartialEq, Eq, Structural)]
pub struct ValhallaNodeInfoPositionInfo {
    pub bits: u64,
}

impl ValhallaNodeInfoPositionInfo {
    /// Latitude offset from the tile base latitude, six-digit precision.
    pub open spec fn spec_lat_offset(self) -> u64 {
        self.bits & 0x3f_ffff
    }

    /// Seventh digit of the latitude offset.
    pub open spec fn spec_lat_offset7(self) -> u64 {
        (self.bits >> 22) & 0xf
    }

    /// Longitude offset from the tile base longitude, six-digit precision.
    pub open spec fn spec_lon_offset(self) -> u64 {
        (self.bits >> 26) & 0x3f_ffff
    }

    /// Seventh digit of the longitude offset.
    pub open spec fn spec_lon_offset7(self) -> u64 {
        (self.bits >> 48) & 0xf
    }

    /// Access through the node, a mode bit mask.
    pub open spec fn spec_access(self) -> u64 {
        (self.bits >> 52) & 0xfff
    }

    pub fn lat_offset(&self) -> (r: u32)
        ensures
            r as u64 == self.spec_lat_offset(),
    {
        field64(self.bits, 0, 0x3f_ffff) as u32
    }

    pub fn lat_offset7(&self) -> (r: u8)
        ensures
            r as u64 == self.spec_lat_offset7(),
    {
        field64(self.bits, 22, 0xf) as u8
    }

    pub fn lon_offset(&self) -> (r: u32)
        ensures
            r as u64 == self.spec_lon_offset(),
    {
        field64(self.bits, 26, 0x3f_ffff) as u32
    }

    pub fn lon_offset7(&self) -> (r: u8)
        ensures
            r as u64 == self.spec_lon_offset7(),
    {
        field64(self.bits, 48, 0xf) as u8
    }

    pub fn access(&self) -> (r: u16)
        ensures
            r as u64 == self.spec_access(),
    {
        field64(self.bits, 52, 0xfff) as u16
    }
}

/// First packed data word of a node: its outbound-edge range and
/// classification fields.
#[derive(Clone, Copy, Debug, PartialEq, Eq, Structural)]
pub struct ValhallaNodeInfoData1 {
    pub bits: u64,
}

impl ValhallaNodeInfoData1 {
    /// Index, within the node's own tile, of its first outbound directed
    /// edge.
    pub open spec fn spec_edge_index(self) -> u64 {
        self.bits & 0x1f_ffff
    }

    /// Number of outbound edges on this level.
    pub open spec fn spec_edge_count(self) -> u64 {
        (self.bits >> 21) & 0x7f
    }

    /// Index into the tile's administrative information list.
    pub open spec fn spec_admin_index(self) -> u64 {
        (self.bits >> 28) & 0xfff
    }

    /// Time zone index.
    pub open spec fn spec_timezone(self) -> u64 {
        (self.bits >> 40) & 0x1ff
    }

    /// Intersection type.
    pub open spec fn spec_intersection(self) -> u64 {
        (self.bits >> 49) & 0xf
    }

    /// Node type.
    pub open spec fn spec_node_type(self) -> u64 {
        (self.bits >> 53) & 0xf
    }

    /// Relative road density.
    pub open spec fn spec_density(self) -> u64 {
        (self.bits >> 57) & 0xf
    }

    /// Whether a traffic signal stands at the node.
    pub open spec fn spec_traffic_signal(self) -> bool {
        (self.bits >> 61) & 1 == 1
    }

    /// Whether a mode change is allowed at the node.
    pub open spec fn spec_mode_change(self) -> bool {
        (self.bits >> 62) & 1 == 1
    }

    /// Whether the intersection is named.
    pub open spec fn spec_is_named(self) -> bool {
        (self.bits >> 63) & 1 == 1
    }

    pub fn edge_index(&self) -> (r: u32)
        ensures
            r as u64 == self.spec_edge_index(),
    {
        field64(self.bits, 0, 0x1f_ffff) as u32
    }

    pub fn edge_count(&self) -> (r: u32)
        ensures
            r as u64 == self.spec_edge_count(),
    {
        field64(self.bits, 21, 0x7f) as u32
    }

    pub fn admin_index(&self) -> (r: u16)
        ensures
            r as u64 == self.spec_admin_index(),
    {
        field64(self.bits, 28, 0xfff) as u16
    }

    pub fn timezone(&self) -> (r: u32)
        ensures
            r as u64 == self.spec_timezone(),
    {
        field64(self.bits, 40, 0x1ff) as u32
    }

    pub fn intersection(&self) -> (r: u32)
        ensures
            r as u64 == self.spec_intersection(),
    {
        field64(self.bits, 49, 0xf) as u32
    }

    pub fn node_type(&self) -> (r: u32)
        ensures
            r as u64 == self.spec_node_type(),
    {
        field64(self.bits, 53, 0xf) as u32
    }

    pub fn density(&self) -> (r: u32)
        ensures
            r as u64 == self.spec_density(),
    {
        field64(self.bits, 57, 0xf) as u32
    }

    pub fn traffic_signal(&self) -> (r: bool)
        ensures
            r == self.spec_traffic_signal(),
    {
        field64(self.bits, 61, 1) == 1
    }

    pub fn mode_change(&self) -> (r: bool)
        ensures
            r == self.spec_mode_change(),
    {
        field64(self.bits, 62, 1) == 1
    }

    pub fn is_named(&self) -> (r: bool)
        ensures
            r == self.spec_is_named(),
    {
        field64(self.bits, 63, 1) == 1
    }
}

/// Second packed data word of a node: its transition range and further
/// attributes.
#[derive(Clone, Copy, Debug, PartialEq, Eq, Structural)]
pub struct ValhallaNodeInfoData2 {
    pub bits: u64,
}

impl ValhallaNodeInfoData2 {
    /// Index of the node's first transition record.
    pub open spec fn spec_transition_index(self) -> u64 {
        self.bits & 0x1f_ffff
    }

    /// Number of transitions from the node.
    pub open spec fn spec_transition_count(self) -> u64 {
        (self.bits >> 21) & 0x7
    }

    /// Driveability of up to eight local edges.
    pub open spec fn spec_local_driveability(self) -> u64 {
        (self.bits >> 24) & 0xffff
    }

    /// Number of regular edges across all levels.
    pub open spec fn spec_local_edge_count(self) -> u64 {
        (self.bits >> 40) & 0x7
    }

    /// Driving side: right when set.
    pub open spec fn spec_drive_on_right(self) -> bool {
        (self.bits >> 43) & 1 == 1
    }

    /// Whether access was initially tagged.
    pub open spec fn spec_tagged_access(self) -> bool {
        (self.bits >> 44) & 1 == 1
    }

    /// Whether access is private.
    pub open spec fn spec_private_access(self) -> bool {
        (self.bits >> 45) & 1 == 1
    }

    /// Whether a toll here is cash only.
    pub open spec fn spec_cash_only_toll(self) -> bool {
        (self.bits >> 46) & 1 == 1
    }

    /// Encoded elevation in meters.
    pub open spec fn spec_elevation(self) -> u64 {
        (self.bits >> 47) & 0x7fff
    }

    /// Time-zone extension bit kept for compatibility.
    pub open spec fn spec_timezone_ext_1(self) -> bool {
        (self.bits >> 62) & 1 == 1
    }

    pub fn transition_index(&self) -> (r: u32)
        ensures
            r as u64 == self.spec_transition_index(),
    {
        field64(self.bits, 0, 0x1f_ffff) as u32
    }

    pub fn transition_count(&self) -> (r: u32)
        ensures
            r as u64 == self.spec_transition_count(),
    {
        field64(self.bits, 21, 0x7) as u32
    }

    pub fn local_driveability(&self) -> (r: u32)
        ensures
            r as u64 == self.spec_local_driveability(),
    {
        field64(self.bits, 24, 0xffff) as u32
    }

    pub fn local_edge_count(&self) -> (r: u32)
        ensures
            r as u64 == self.spec_local_edge_count(),
    {
        field64(self.bits, 40, 0x7) as u32
    }

    pub fn drive_on_right(&self) -> (r: bool)
        ensures
            r == self.spec_drive_on_right(),
    {
        field64(self.bits, 43, 1) == 1
    }

    pub fn tagged_access(&self) -> (r: bool)
        ensures
            r == self.spec_tagged_access(),
    {
        field64(self.bits, 44, 1) == 1
    }

    pub fn private_access(&self) -> (r: bool)
        ensures
            r == self.spec_private_access(),
    {
        field64(self.bits, 45, 1) == 1
    }

    pub fn cash_only_toll(&self) -> (r: bool)
        ensures
            r == self.spec_cash_only_toll(),
    {
        field64(self.bits, 46, 1) == 1
    }

    pub fn elevation(&self) -> (r: u16)
        ensures
            r as u64 == self.spec_elevation(),
    {
        field64(self.bits, 47, 0x7fff) as u16
    }

    pub fn timezone_ext_1(&self) -> (r: bool)
        ensures
            r == self.spec_timezone_ext_1(),
    {
        field64(self.bits, 62, 1) == 1
    }
}

/// A transition between the same physical node on two hierarchy levels.
#[derive(Clone, Copy, Debug, PartialEq, Eq, Structural)]
pub struct ValhallaNodeTransition {
    pub bits: u64,
}

impl ValhallaNodeTransition {
    /// Packed reference to the corresponding node on the other level.
    pub open spec fn spec_end_node(self) -> u64 {
        self.bits & 0x3fff_ffff_ffff
    }

    /// Whether the transition leads up the hierarchy.
    pub open spec fn spec_up(self) -> bool {
        (self.bits >> 46) & 1 == 1
    }

    pub fn end_node(&self) -> (r: u64)
        ensures
            r == self.spec_end_node(),
    {
        field64(self.bits, 0, 0x3fff_ffff_ffff)
    }

    pub fn up(&self) -> (r: bool)
        ensures
            r == self.spec_up(),
    {
        field64(self.bits, 46, 1) == 1
    }
}

// ---------------------------------------------------------------------------
// Directed-edge records
// ---------------------------------------------------------------------------

/// One direction of travel along a road segment.  The record stores only its
/// end node and the index of its opposing edge at that node — never its own
/// start node, which must be recovered through the opposing edge.
#[derive(Clone, Copy, Debug, PartialEq, Eq, Structural)]
pub struct ValhallaDirectedEdge {
    /// Mostly data related to edge restrictions.
    pub restrictions1: ValhallaDirectedEdgeRestrictions1,
    pub restrictions2: ValhallaDirectedEdgeRestrictions2,
    pub data1: ValhallaDirectedEdgeData1,
    pub data2: ValhallaDirectedEdgeData2,
    pub data3: ValhallaDirectedEdgeData3,
    /// Either a stop-impact pair or a transit line identifier; the two
    /// share this word because schedule-based edges need no stop impact.
    pub stop_impact_union_line_id: u32,
    pub data4: ValhallaDirectedEdgeData4,
}

impl ValhallaDirectedEdge {
    /// The packed value of the end-node reference.
    pub open spec fn spec_end_node(self) -> u64 {
        self.restrictions1.spec_end_node()
    }

    /// The stored index of the opposing edge within the end node's
    /// outbound-edge list.
    pub open spec fn spec_opposing_edge_index(self) -> u64 {
        self.restrictions1.spec_opp_index()
    }

    /// Packed reference to the edge's end node.
    pub fn end_node(&self) -> (r: GraphEntityId<ValhallaNodeInfo>)
        ensures
            r.graph_entity_id == self.spec_end_node(),
    {
        GraphEntityId::new(self.restrictions1.end_node())
    }

    /// Index of the opposing (reverse) edge within the end node's local
    /// outbound-edge list.
    pub fn opposing_edge_index(&self) -> (r: usize)
        ensures
            r as u64 == self.spec_opposing_edge_index(),
    {
        self.restrictions1.opp_index()
    }
}

/// First word of a directed edge: end node, restriction mask, opposing-edge
/// index and flags.
#[derive(Clone, Copy, Debug, PartialEq, Eq, Structural)]
pub struct ValhallaDirectedEdgeRestrictions1 {
    pub bits: u64,
}

impl ValhallaDirectedEdgeRestrictions1 {
    /// Packed reference to the edge's end node.
    pub open spec fn spec_end_node(self) -> u64 {
        self.bits & 0x3fff_ffff_ffff
    }

    /// Mask of restricted local edge indexes at the end node.
    pub open spec fn spec_restrictions(self) -> u64 {
        (self.bits >> 46) & 0xff
    }

    /// Opposing directed edge index.
    pub open spec fn spec_opp_index(self) -> u64 {
        (self.bits >> 54) & 0x7f
    }

    /// Whether the edge info is stored forward.
    pub open spec fn spec_is_forward(self) -> bool {
        (self.bits >> 61) & 1 == 1
    }

    /// Whether the edge ends in a different tile.
    pub open spec fn spec_leaves_tile(self) -> bool {
        (self.bits >> 62) & 1 == 1
    }

    /// Whether the edge crosses into a new country.
    pub open spec fn spec_country_crossing(self) -> bool {
        (self.bits >> 63) & 1 == 1
    }

    pub fn end_node(&self) -> (r: u64)
        ensures
            r == self.spec_end_node(),
    {
        field64(self.bits, 0, 0x3fff_ffff_ffff)
    }

    pub fn restrictions(&self) -> (r: u64)
        ensures
            r == self.spec_restrictions(),
    {
        field64(self.bits, 46, 0xff)
    }

    pub fn opp_index(&self) -> (r: usize)
        ensures
            r as u64 == self.spec_opp_index(),
    {
        field64(self.bits, 54, 0x7f) as usize
    }

    pub fn is_forward(&self) -> (r: bool)
        ensures
            r == self.spec_is_forward(),
    {
        field64(self.bits, 61, 1) == 1
    }

    pub fn leaves_tile(&self) -> (r: bool)
        ensures
            r == self.spec_leaves_tile(),
    {
        field64(self.bits, 62, 1) == 1
    }

    pub fn country_crossing(&self) -> (r: bool)
        ensures
            r == self.spec_country_crossing(),
    {
        field64(self.bits, 63, 1) == 1
    }
}

/// Second word of a directed edge: offset of its shared edge info and
/// complex-restriction fields.
#[derive(Clone, Copy, Debug, PartialEq, Eq, Structural)]
pub struct ValhallaDirectedEdgeRestrictions2 {
    pub bits: u64,
}

impl ValhallaDirectedEdgeRestrictions2 {
    /// Offset of the edge's shared edge-info record.
    pub open spec fn spec_edge_info_offset(self) -> u64 {
        self.bits & 0x1ff_ffff
    }

    /// General access restriction per mode.
    pub open spec fn spec_access_restriction(self) -> u64 {
        (self.bits >> 25) & 0xfff
    }

    /// Complex restriction starting on this edge, per mode.
    pub open spec fn spec_start_restriction(self) -> u64 {
        (self.bits >> 37) & 0xfff
    }

    /// Complex restriction ending on this edge, per mode.
    pub open spec fn spec_end_restriction(self) -> u64 {
        (self.bits >> 49) & 0xfff
    }

    /// Whether the edge is part of a complex restriction.
    pub open spec fn spec_complex_restriction(self) -> bool {
        (self.bits >> 61) & 1 == 1
    }

    /// Whether access is allowed to destination traffic only.
    pub open spec fn spec_destination_only(self) -> bool {
        (self.bits >> 62) & 1 == 1
    }

    /// Whether the edge leads to a no-through region.
    pub open spec fn spec_not_thru(self) -> bool {
        (self.bits >> 63) & 1 == 1
    }

    pub fn edge_info_offset(&self) -> (r: usize)
        ensures
            r as u64 == self.spec_edge_info_offset(),
    {
        field64(self.bits, 0, 0x1ff_ffff) as usize
    }

    pub fn access_restriction(&self) -> (r: u64)
        ensures
            r == self.spec_access_restriction(),
    {
        field64(self.bits, 25, 0xfff)
    }

    pub fn start_restriction(&self) -> (r: u64)
        ensures
            r == self.spec_start_restriction(),
    {
        field64(self.bits, 37, 0xfff)
    }

    pub fn end_restriction(&self) -> (r: u64)
        ensures
            r == self.spec_end_restriction(),
    {
        field64(self.bits, 49, 0xfff)
    }

    pub fn complex_restriction(&self) -> (r: bool)
        ensures
            r == self.spec_complex_restriction(),
    {
        field64(self.bits, 61, 1) == 1
    }

    pub fn destination_only(&self) -> (r: bool)
        ensures
            r == self.spec_destination_only(),
    {
        field64(self.bits, 62, 1) == 1
    }

    pub fn not_thru(&self) -> (r: bool)
        ensures
            r == self.spec_not_thru(),
    {
        field64(self.bits, 63, 1) == 1
    }
}

/// Third word of a directed edge: speeds, use type and classification.
#[derive(Clone, Copy, Debug, PartialEq, Eq, Structural)]
pub struct ValhallaDirectedEdgeData1 {
    pub bits: u64,
}

impl ValhallaDirectedEdgeData1 {
    /// Speed in kph; values above 250 mark special cases.
    pub open spec fn spec_speed(self) -> u64 {
        self.bits & 0xff
    }

    /// Speed with no traffic, kph.
    pub open spec fn spec_free_flow_speed(self) -> u64 {
        (self.bits >> 8) & 0xff
    }

    /// Speed with traffic, kph.
    pub open spec fn spec_constrained_flow_speed(self) -> u64 {
        (self.bits >> 16) & 0xff
    }

    /// Truck speed, kph.
    pub open spec fn spec_truck_speed(self) -> u64 {
        (self.bits >> 24) & 0xff
    }

    /// Name consistency with the other local edges at the start node.
    pub open spec fn spec_name_consistency(self) -> u64 {
        (self.bits >> 32) & 0xff
    }

    /// Specific use type.
    pub open spec fn spec_use_type(self) -> u64 {
        (self.bits >> 40) & 0x3f
    }

    /// Number of lanes.
    pub open spec fn spec_lane_count(self) -> u64 {
        (self.bits >> 46) & 0xf
    }

    /// Relative road density along the edge.
    pub open spec fn spec_density(self) -> u64 {
        (self.bits >> 50) & 0xf
    }

    /// Classification (importance) of the road.
    pub open spec fn spec_classification(self) -> u64 {
        (self.bits >> 54) & 0x7
    }

    /// Surface smoothness.
    pub open spec fn spec_surface(self) -> u64 {
        (self.bits >> 57) & 0x7
    }

    /// Whether the edge is part of a toll road.
    pub open spec fn spec_toll(self) -> bool {
        (self.bits >> 60) & 1 == 1
    }

    /// Whether the edge is part of a roundabout.
    pub open spec fn spec_roundabout(self) -> bool {
        (self.bits >> 61) & 1 == 1
    }

    /// Whether the edge belongs to a truck route.
    pub open spec fn spec_truck_route(self) -> bool {
        (self.bits >> 62) & 1 == 1
    }

    /// Whether predicted-speed records exist for the edge.
    pub open spec fn spec_predicted_speed(self) -> bool {
        (self.bits >> 63) & 1 == 1
    }

    pub fn speed(&self) -> (r: u8)
        ensures
            r as u64 == self.spec_speed(),
    {
        field64(self.bits, 0, 0xff) as u8
    }

    pub fn free_flow_speed(&self) -> (r: u8)
        ensures
            r as u64 == self.spec_free_flow_speed(),
    {
        field64(self.bits, 8, 0xff) as u8
    }

    pub fn constrained_flow_speed(&self) -> (r: u8)
        ensures
            r as u64 == self.spec_constrained_flow_speed(),
    {
        field64(self.bits, 16, 0xff) as u8
    }

    pub fn truck_speed(&self) -> (r: u8)
        ensures
            r as u64 == self.spec_truck_speed(),
    {
        field64(self.bits, 24, 0xff) as u8
    }

    pub fn name_consistency(&self) -> (r: u8)
        ensures
            r as u64 == self.spec_name_consistency(),
    {
        field64(self.bits, 32, 0xff) as u8
    }

    pub fn use_type(&self) -> (r: u8)
        ensures
            r as u64 == self.spec_use_type(),
    {
        field64(self.bits, 40, 0x3f) as u8
    }

    pub fn lane_count(&self) -> (r: u8)
        ensures
            r as u64 == self.spec_lane_count(),
    {
        field64(self.bits, 46, 0xf) as u8
    }

    pub fn density(&self) -> (r: u8)
        ensures
            r as u64 == self.spec_density(),
    {
        field64(self.bits, 50, 0xf) as u8
    }

    pub fn classification(&self) -> (r: u8)
        ensures
            r as u64 == self.spec_classification(),
    {
        field64(self.bits, 54, 0x7) as u8
    }

    pub fn surface(&self) -> (r: u8)
        ensures
            r as u64 == self.spec_surface(),
    {
        field64(self.bits, 57, 0x7) as u8
    }

    pub fn toll(&self) -> (r: bool)
        ensures
            r == self.spec_toll(),
    {
        field64(self.bits, 60, 1) == 1
    }

    pub fn roundabout(&self) -> (r: bool)
        ensures
            r == self.spec_roundabout(),
    {
        field64(self.bits, 61, 1) == 1
    }

    pub fn truck_route(&self) -> (r: bool)
        ensures
            r == self.spec_truck_route(),
    {
        field64(self.bits, 62, 1) == 1
    }

    pub fn predicted_speed(&self) -> (r: bool)
        ensures
            r == self.spec_predicted_speed(),
    {
        field64(self.bits, 63, 1) == 1
    }
}

/// Fourth word of a directed edge: access masks, slopes and many flags.
/// Kept as an opaque word; none of its fields take part in decoding or
/// graph assembly.
#[derive(Clone, Copy, Debug, PartialEq, Eq, Structural)]
pub struct ValhallaDirectedEdgeData2 {
    pub bits: u64,
}

/// Fifth word of a directed edge: turn type, length and grade.
#[derive(Clone, Copy, Debug, PartialEq, Eq, Structural)]
pub struct ValhallaDirectedEdgeData3 {
    pub bits: u64,
}

impl ValhallaDirectedEdgeData3 {
    /// Turn type.
    pub open spec fn spec_turn_type(self) -> u64 {
        self.bits & 0xff_ffff
    }

    /// Whether an edge lies to the left, between the "from" edge and this
    /// one.
    pub open spec fn spec_edge_to_left(self) -> u64 {
        (self.bits >> 24) & 0xff
    }

    /// Length in meters.
    pub open spec fn spec_length_meters(self) -> u64 {
        (self.bits >> 32) & 0xff_ffff
    }

    /// Weighted estimate of the grade.
    pub open spec fn spec_grade(self) -> u64 {
        (self.bits >> 56) & 0xf
    }

    /// Curvature factor.
    pub open spec fn spec_curvature(self) -> u64 {
        (self.bits >> 60) & 0xf
    }

    pub fn turn_type(&self) -> (r: u32)
        ensures
            r as u64 == self.spec_turn_type(),
    {
        field64(self.bits, 0, 0xff_ffff) as u32
    }

    pub fn edge_to_left(&self) -> (r: u8)
        ensures
            r as u64 == self.spec_edge_to_left(),
    {
        field64(self.bits, 24, 0xff) as u8
    }

    pub fn length_meters(&self) -> (r: u32)
        ensures
            r as u64 == self.spec_length_meters(),
    {
        field64(self.bits, 32, 0xff_ffff) as u32
    }

    pub fn grade(&self) -> (r: u8)
        ensures
            r as u64 == self.spec_grade(),
    {
        field64(self.bits, 56, 0xf) as u8
    }

    pub fn curvature(&self) -> (r: u8)
        ensures
            r as u64 == self.spec_curvature(),
    {
        field64(self.bits, 60, 0xf) as u8
    }
}

/// Final 32-bit word of a directed edge: local-level indexes and shortcut
/// flags.
#[derive(Clone, Copy, Debug, PartialEq, Eq, Structural)]
pub struct ValhallaDirectedEdgeData4 {
    pub bits: u32,
}

impl ValhallaDirectedEdgeData4 {
    /// Index of the edge on the local level.
    pub open spec fn spec_local_edge_index(self) -> u32 {
        self.bits & 0x7f
    }

    /// Opposing local edge index, for costing and U-turn detection.
    pub open spec fn spec_opposing_local_edge_index(self) -> u32 {
        (self.bits >> 7) & 0x7f
    }

    /// Shortcut mask.
    pub open spec fn spec_shortcut_mask(self) -> u32 {
        (self.bits >> 14) & 0x7f
    }

    /// Mask of shortcuts superseding the edge.
    pub open spec fn spec_superceded(self) -> u32 {
        (self.bits >> 21) & 0x7f
    }

    /// Whether the edge is itself a shortcut.
    pub open spec fn spec_is_shortcut(self) -> bool {
        (self.bits >> 28) & 1 == 1
    }

    /// Speed type used when setting default speeds.
    pub open spec fn spec_speed_type(self) -> u32 {
        (self.bits >> 29) & 1
    }

    /// Whether the edge has names.
    pub open spec fn spec_is_named(self) -> bool {
        (self.bits >> 30) & 1 == 1
    }

    /// Whether the edge is a ramp or turn channel.
    pub open spec fn spec_link(self) -> bool {
        (self.bits >> 31) & 1 == 1
    }

    pub fn local_edge_index(&self) -> (r: u8)
        ensures
            r as u64 == self.spec_local_edge_index(),
    {
        proof {
            lemma_mask_bound32(self.bits, 0x7f);
        }
        (self.bits & 0x7f) as u8
    }

    pub fn opposing_local_edge_index(&self) -> (r: u8)
        ensures
            r as u64 == self.spec_opposing_local_edge_index(),
    {
        proof {
            lemma_mask_bound32(self.bits >> 7, 0x7f);
        }
        ((self.bits >> 7) & 0x7f) as u8
    }

    pub fn shortcut_mask(&self) -> (r: u8)
        ensures
            r as u64 == self.spec_shortcut_mask(),
    {
        proof {
            lemma_mask_bound32(self.bits >> 14, 0x7f);
        }
        ((self.bits >> 14) & 0x7f) as u8
    }

    pub fn superceded(&self) -> (r: u8)
        ensures
            r as u64 == self.spec_superceded(),
    {
        proof {
            lemma_mask_bound32(self.bits >> 21, 0x7f);
        }
        ((self.bits >> 21) & 0x7f) as u8
    }

    pub fn is_shortcut(&self) -> (r: bool)
        ensures
            r == self.spec_is_shortcut(),
    {
        (self.bits >> 28) & 1 == 1
    }

    pub fn speed_type(&self) -> (r: u8)
        ensures
            r as u64 == self.spec_speed_type(),
    {
        proof {
            lemma_mask_bound32(self.bits >> 29, 1);
        }
        ((self.bits >> 29) & 1) as u8
    }

    pub fn is_named(&self) -> (r: bool)
        ensures
            r == self.spec_is_named(),
    {
        (self.bits >> 30) & 1 == 1
    }

    pub fn link(&self) -> (r: bool)
        ensures
            r == self.spec_link(),
    {
        (self.bits >> 31) & 1 == 1
    }
}

/// A masked 32-bit value never exceeds the mask.
pub proof fn lemma_mask_bound32(x: u32, m: u32)
    ensures
        x & m <= m,
{
    assert(x & m <= m) by (bit_vector);
}

// ---------------------------------------------------------------------------
// Access restrictions
// ---------------------------------------------------------------------------

/// A restriction attached to one directed edge: which edge, which kind of
/// restriction, which travel modes, and a value whose meaning depends on
/// the kind.
#[derive(Clone, Copy, Debug, PartialEq, Eq, Structural)]
pub struct ValhallaAccessRestriction {
    pub bitfield: ValhallaAccessRestrictionBitField,
    /// Value of the restriction; its meaning depends on the type field.
    pub value: u64,
}

/// Packed word of an access restriction.
#[derive(Clone, Copy, Debug, PartialEq, Eq, Structural)]
pub struct ValhallaAccessRestrictionBitField {
    pub bits: u64,
}

impl ValhallaAccessRestrictionBitField {
    /// Index of the directed edge the restriction applies to.
    pub open spec fn spec_edge_index(self) -> u64 {
        self.bits & 0x3f_ffff
    }

    /// Access type of the restriction.
    pub open spec fn spec_access_type(self) -> u64 {
        (self.bits >> 22) & 0x3f
    }

    /// Travel modes the restriction applies to.
    pub open spec fn spec_modes(self) -> u64 {
        (self.bits >> 28) & 0xfff
    }

    pub fn edge_index(&self) -> (r: usize)
        ensures
            r as u64 == self.spec_edge_index(),
    {
        field64(self.bits, 0, 0x3f_ffff) as usize
    }

    pub fn access_type(&self) -> (r: u8)
        ensures
            r as u64 == self.spec_access_type(),
    {
        field64(self.bits, 22, 0x3f) as u8
    }

    pub fn modes(&self) -> (r: u16)
        ensures
            r as u64 == self.spec_modes(),
    {
        field64(self.bits, 28, 0xfff) as u16
    }
}

// ---------------------------------------------------------------------------
// Records that are sized but never parsed
// ---------------------------------------------------------------------------

/// An exit or guide sign attached to an edge or node.  Sign records are
/// skipped by the decoder; the type is kept for its packed layout.
#[derive(Clone, Copy, Debug, PartialEq, Eq, Structural)]
pub struct ValhallaSign {
    pub bits: u64,
}

impl ValhallaSign {
    /// Index of the edge or node the sign belongs to.
    pub open spec fn spec_index(self) -> u64 {
        self.bits & 0x3f_ffff
    }

    /// Sign type.
    pub open spec fn spec_sign_type(self) -> u64 {
        (self.bits >> 22) & 0xff
    }

    /// Route number type.
    pub open spec fn spec_route_num_type(self) -> u64 {
        (self.bits >> 30) & 1
    }

    /// Whether the sign text is tagged.
    pub open spec fn spec_tagged(self) -> bool {
        (self.bits >> 31) & 1 == 1
    }

    /// Offset of the sign's text in the tile's text list.
    pub open spec fn spec_text_offset(self) -> u64 {
        (self.bits >> 32) & 0xffff_ffff
    }

    pub fn index(&self) -> (r: u32)
        ensures
            r as u64 == self.spec_index(),
    {
        field64(self.bits, 0, 0x3f_ffff) as u32
    }

    pub fn sign_type(&self) -> (r: u8)
        ensures
            r as u64 == self.spec_sign_type(),
    {
        field64(self.bits, 22, 0xff) as u8
    }

    pub fn route_num_type(&self) -> (r: u8)
        ensures
            r as u64 == self.spec_route_num_type(),
    {
        field64(self.bits, 30, 1) as u8
    }

    pub fn tagged(&self) -> (r: bool)
        ensures
            r == self.spec_tagged(),
    {
        field64(self.bits, 31, 1) == 1
    }

    pub fn text_offset(&self) -> (r: u32)
        ensures
            r as u64 == self.spec_text_offset(),
    {
        field64(self.bits, 32, 0xffff_ffff) as u32
    }
}

/// Shared per-way edge information.  Edge-info records live in a section
/// the decoder skips; the type exists as the kind tag of packed references
/// built from a directed edge's edge-info offset.
#[derive(Clone, Copy, Debug, PartialEq, Eq, Structural)]
pub struct ValhallaEdgeInfo {
    pub way_id: u32,
    pub bitfield1: u32,
    pub bitfield2: u32,
}

} // verus!
