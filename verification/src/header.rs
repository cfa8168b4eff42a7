//! The fixed-size tile header.
//!
//! The header opens every tile buffer: 272 bytes holding the tile's own
//! packed identifier, its base coordinates, record counts for every section
//! that follows, section offsets, and the declared total tile size that the
//! decoder checks the buffer against.  Counts and metadata are packed into
//! 64-bit words, read and written here field by field.

use crate::bytes_util::{read_u32_at, read_u64_at, word32_at, word64_at};
use crate::records::field64;
use vstd::prelude::*;

verus! {

/// Size in bytes of the fixed tile header.
pub const HEADER_SIZE: usize = 272;

/// Packed identity word of a tile: the tile's own packed identifier plus
/// quality fields and the extension flag.
#[derive(Clone, Copy, Debug, PartialEq, Eq, Structural)]
pub struct ValhallaTileHeaderMetadata {
    pub bits: u64,
}

impl ValhallaTileHeaderMetadata {
    /// The tile's own packed identifier (level and tile id, index zero).
    pub open spec fn spec_graphid(self) -> u64 {
        self.bits & 0x3fff_ffff_ffff
    }

    /// Relative road density of the tile.
    pub open spec fn spec_density(self) -> u64 {
        (self.bits >> 46) & 0xf
    }

    pub open spec fn spec_speed_quality(self) -> u64 {
        (self.bits >> 50) & 0xf
    }

    pub open spec fn spec_exit_quality(self) -> u64 {
        (self.bits >> 54) & 0xf
    }

    pub open spec fn spec_name_quality(self) -> u64 {
        (self.bits >> 58) & 0xf
    }

    /// Whether the tile carries elevation data.
    pub open spec fn spec_has_elevation(self) -> bool {
        (self.bits >> 62) & 1 == 1
    }

    /// Whether one extension record per directed edge follows the
    /// directed-edge section.
    pub open spec fn spec_has_ext_directededge(self) -> bool {
        (self.bits >> 63) & 1 == 1
    }

    pub fn graphid(&self) -> (r: u64)
        ensures
            r == self.spec_graphid(),
    {
        field64(self.bits, 0, 0x3fff_ffff_ffff)
    }

    pub fn density(&self) -> (r: u8)
        ensures
            r as u64 == self.spec_density(),
    {
        field64(self.bits, 46, 0xf) as u8
    }

    pub fn speed_quality(&self) -> (r: u8)
        ensures
            r as u64 == self.spec_speed_quality(),
    {
        field64(self.bits, 50, 0xf) as u8
    }

    pub fn exit_quality(&self) -> (r: u8)
        ensures
            r as u64 == self.spec_exit_quality(),
    {
        field64(self.bits, 54, 0xf) as u8
    }

    pub fn name_quality(&self) -> (r: u8)
        ensures
            r as u64 == self.spec_name_quality(),
    {
        field64(self.bits, 58, 0xf) as u8
    }

    pub fn has_elevation(&self) -> (r: bool)
        ensures
            r == self.spec_has_elevation(),
    {
        field64(self.bits, 62, 1) == 1
    }

    pub fn has_ext_directededge(&self) -> (r: bool)
        ensures
            r == self.spec_has_ext_directededge(),
    {
        field64(self.bits, 63, 1) == 1
    }
}

/// First packed count word: nodes, directed edges and predicted speeds.
#[derive(Clone, Copy, Debug, PartialEq, Eq, Structural)]
pub struct ValhallaTileHeaderCounts1 {
    pub bits: u64,
}

impl ValhallaTileHeaderCounts1 {
    /// Number of node records.
    pub open spec fn spec_node_count(self) -> u64 {
        self.bits & 0x1f_ffff
    }

    /// Number of directed-edge records.
    pub open spec fn spec_directed_edges_count(self) -> u64 {
        (self.bits >> 21) & 0x1f_ffff
    }

    /// Number of predicted-speed records.
    pub open spec fn spec_predicted_speeds_count(self) -> u64 {
        (self.bits >> 42) & 0x1f_ffff
    }

    pub fn node_count(&self) -> (r: usize)
        ensures
            r as u64 == self.spec_node_count(),
            r <= 0x1f_ffff,
    {
        field64(self.bits, 0, 0x1f_ffff) as usize
    }

    pub fn directed_edges_count(&self) -> (r: usize)
        ensures
            r as u64 == self.spec_directed_edges_count(),
            r <= 0x1f_ffff,
    {
        field64(self.bits, 21, 0x1f_ffff) as usize
    }

    pub fn predicted_speeds_count(&self) -> (r: usize)
        ensures
            r as u64 == self.spec_predicted_speeds_count(),
            r <= 0x1f_ffff,
    {
        field64(self.bits, 42, 0x1f_ffff) as usize
    }
}

/// Second packed count word: node transitions and turn lanes.
#[derive(Clone, Copy, Debug, PartialEq, Eq, Structural)]
pub struct ValhallaTileHeaderCounts2 {
    pub bits: u64,
}

impl ValhallaTileHeaderCounts2 {
    /// Number of node-transition records.
    pub open spec fn spec_transition_count(self) -> u64 {
        self.bits & 0x3f_ffff
    }

    /// Number of turn-lane records.
    pub open spec fn spec_turn_lane_count(self) -> u64 {
        (self.bits >> 32) & 0x1f_ffff
    }

    pub fn transition_count(&self) -> (r: usize)
        ensures
            r as u64 == self.spec_transition_count(),
            r <= 0x3f_ffff,
    {
        field64(self.bits, 0, 0x3f_ffff) as usize
    }

    pub fn turn_lane_count(&self) -> (r: usize)
        ensures
            r as u64 == self.spec_turn_lane_count(),
            r <= 0x1f_ffff,
    {
        field64(self.bits, 32, 0x1f_ffff) as usize
    }
}

/// Third packed count word: transit transfers, departures and stops.
#[derive(Clone, Copy, Debug, PartialEq, Eq, Structural)]
pub struct ValhallaTileHeaderCounts3 {
    pub bits: u64,
}

impl ValhallaTileHeaderCounts3 {
    /// Number of transit-transfer records.
    pub open spec fn spec_transfer_count(self) -> u64 {
        self.bits & 0xffff
    }

    /// Number of transit-departure records.
    pub open spec fn spec_departure_count(self) -> u64 {
        (self.bits >> 23) & 0xff_ffff
    }

    /// Number of transit-stop records.
    pub open spec fn spec_stop_count(self) -> u64 {
        (self.bits >> 47) & 0xffff
    }

    pub fn transfer_count(&self) -> (r: usize)
        ensures
            r as u64 == self.spec_transfer_count(),
            r <= 0xffff,
    {
        field64(self.bits, 0, 0xffff) as usize
    }

    pub fn departure_count(&self) -> (r: usize)
        ensures
            r as u64 == self.spec_departure_count(),
            r <= 0xff_ffff,
    {
        field64(self.bits, 23, 0xff_ffff) as usize
    }

    pub fn stop_count(&self) -> (r: usize)
        ensures
            r as u64 == self.spec_stop_count(),
            r <= 0xffff,
    {
        field64(self.bits, 47, 0xffff) as usize
    }
}

/// Fourth packed count word: transit routes and schedules, and signs.
#[derive(Clone, Copy, Debug, PartialEq, Eq, Structural)]
pub struct ValhallaTileHeaderCounts4 {
    pub bits: u64,
}

impl ValhallaTileHeaderCounts4 {
    /// Number of transit-route records.
    pub open spec fn spec_route_count(self) -> u64 {
        self.bits & 0xfff
    }

    /// Number of transit-schedule records.
    pub open spec fn spec_schedule_count(self) -> u64 {
        (self.bits >> 12) & 0xfff
    }

    /// Number of sign records.
    pub open spec fn spec_sign_count(self) -> u64 {
        (self.bits >> 24) & 0xff_ffff
    }

    pub fn route_count(&self) -> (r: usize)
        ensures
            r as u64 == self.spec_route_count(),
            r <= 0xfff,
    {
        field64(self.bits, 0, 0xfff) as usize
    }

    pub fn schedule_count(&self) -> (r: usize)
        ensures
            r as u64 == self.spec_schedule_count(),
            r <= 0xfff,
    {
        field64(self.bits, 12, 0xfff) as usize
    }

    pub fn sign_count(&self) -> (r: usize)
        ensures
            r as u64 == self.spec_sign_count(),
            r <= 0xff_ffff,
    {
        field64(self.bits, 24, 0xff_ffff) as usize
    }
}

/// Fifth packed count word: access restrictions and administrative records.
#[derive(Clone, Copy, Debug, PartialEq, Eq, Structural)]
pub struct ValhallaTileHeaderCounts5 {
    pub bits: u64,
}

impl ValhallaTileHeaderCounts5 {
    /// Number of access-restriction records.
    pub open spec fn spec_access_restriction_count(self) -> u64 {
        self.bits & 0xff_ffff
    }

    /// Number of administrative records.
    pub open spec fn spec_admin_count(self) -> u64 {
        (self.bits >> 24) & 0xffff
    }

    pub fn access_restriction_count(&self) -> (r: usize)
        ensures
            r as u64 == self.spec_access_restriction_count(),
            r <= 0xff_ffff,
    {
        field64(self.bits, 0, 0xff_ffff) as usize
    }

    pub fn admin_count(&self) -> (r: usize)
        ensures
            r as u64 == self.spec_admin_count(),
            r <= 0xffff,
    {
        field64(self.bits, 24, 0xffff) as usize
    }
}

/// The decoded form of the 272-byte tile header.  Base coordinates are two
/// single-precision floats on disk; they are carried here as their raw bit
/// patterns, to be interpreted by whoever owns the floating-point math.
#[derive(Clone, Debug, PartialEq, Eq)]
pub struct ValhallaTileHeader {
    pub metadata: ValhallaTileHeaderMetadata,
    /// Raw bits of the tile's base latitude (a single-precision float on
    /// disk).
    pub base_ll_lat_bits: u32,
    /// Raw bits of the tile's base longitude.
    pub base_ll_lon_bits: u32,
    /// Version string, 16 bytes.
    pub version: Vec<u8>,
    pub dataset_id: u64,
    pub counts1: ValhallaTileHeaderCounts1,
    pub counts2: ValhallaTileHeaderCounts2,
    pub counts3: ValhallaTileHeaderCounts3,
    pub counts4: ValhallaTileHeaderCounts4,
    pub counts5: ValhallaTileHeaderCounts5,
    pub spare_word1: u64,
    pub spare_word2: u64,
    pub complex_restriction_forward_offset: u32,
    pub complex_restriction_reverse_offset: u32,
    pub edge_info_offset: u32,
    pub text_list_offset: u32,
    pub date_created: u32,
    /// Offsets of the 25 spatial bins.
    pub bin_offsets: Vec<u32>,
    pub late_connectivity_offset: u32,
    pub predicted_speeds_offset: u32,
    /// Declared total size of the tile; the decoder requires the buffer
    /// length to equal it exactly.
    pub tile_size: u32,
    /// Unused slots reserved by the format, 11 words.
    pub empty_slots: Vec<u32>,
}

impl ValhallaTileHeader {
    /// The three list fields have their fixed lengths.
    pub open spec fn wf(self) -> bool {
        &&& self.version@.len() == 16
        &&& self.bin_offsets@.len() == 25
        &&& self.empty_slots@.len() == 11
    }

    /// Every field equals the corresponding stretch of the first 272 bytes
    /// of `b`.
    pub open spec fn matches_bytes(self, b: Seq<u8>) -> bool {
        &&& self.metadata.bits == word64_at(b, 0)
        &&& self.base_ll_lat_bits == word32_at(b, 8)
        &&& self.base_ll_lon_bits == word32_at(b, 12)
        &&& self.version@ == b.subrange(16, 32)
        &&& self.dataset_id == word64_at(b, 32)
        &&& self.counts1.bits == word64_at(b, 40)
        &&& self.counts2.bits == word64_at(b, 48)
        &&& self.counts3.bits == word64_at(b, 56)
        &&& self.counts4.bits == word64_at(b, 64)
        &&& self.counts5.bits == word64_at(b, 72)
        &&& self.spare_word1 == word64_at(b, 80)
        &&& self.spare_word2 == word64_at(b, 88)
        &&& self.complex_restriction_forward_offset == word32_at(b, 96)
        &&& self.complex_restriction_reverse_offset == word32_at(b, 100)
        &&& self.edge_info_offset == word32_at(b, 104)
        &&& self.text_list_offset == word32_at(b, 108)
        &&& self.date_created == word32_at(b, 112)
        &&& forall|i: int| 0 <= i < 25 ==> self.bin_offsets@[i] == word32_at(b, 116 + 4 * i)
        &&& self.late_connectivity_offset == word32_at(b, 216)
        &&& self.predicted_speeds_offset == word32_at(b, 220)
        &&& self.tile_size == word32_at(b, 224)
        &&& forall|i: int| 0 <= i < 11 ==> self.empty_slots@[i] == word32_at(b, 228 + 4 * i)
    }

    /// Reads the header out of the first 272 bytes of `b`.
    pub fn read_from(b: &[u8]) -> (r: ValhallaTileHeader)
        requires
            b@.len() >= HEADER_SIZE,
        ensures
            r.wf(),
            r.matches_bytes(b@),
    {
        let mut version: Vec<u8> = Vec::new();
        let mut vi: usize = 0;
        while vi < 16
            invariant
                vi <= 16,
                b@.len() >= 272,
                version@.len() == vi,
                forall|j: int| 0 <= j < vi ==> version@[j] == b@[16 + j],
            decreases 16 - vi,
        {
            version.push(b[16 + vi]);
            vi += 1;
        }
        proof {
            assert(version@ =~= b@.subrange(16, 32));
        }
        let mut bin_offsets: Vec<u32> = Vec::new();
        let mut bi: usize = 0;
        while bi < 25
            invariant
                bi <= 25,
                b@.len() >= 272,
                bin_offsets@.len() == bi,
                forall|j: int| 0 <= j < bi ==> bin_offsets@[j] == word32_at(b@, 116 + 4 * j),
            decreases 25 - bi,
        {
            bin_offsets.push(read_u32_at(b, 116 + 4 * bi));
            bi += 1;
        }
        let mut empty_slots: Vec<u32> = Vec::new();
        let mut ei: usize = 0;
        while ei < 11
            invariant
                ei <= 11,
                b@.len() >= 272,
                empty_slots@.len() == ei,
                forall|j: int| 0 <= j < ei ==> empty_slots@[j] == word32_at(b@, 228 + 4 * j),
            decreases 11 - ei,
        {
            empty_slots.push(read_u32_at(b, 228 + 4 * ei));
            ei += 1;
        }
        ValhallaTileHeader {
            metadata: ValhallaTileHeaderMetadata { bits: read_u64_at(b, 0) },
            base_ll_lat_bits: read_u32_at(b, 8),
            base_ll_lon_bits: read_u32_at(b, 12),
            version,
            dataset_id: read_u64_at(b, 32),
            counts1: ValhallaTileHeaderCounts1 { bits: read_u64_at(b, 40) },
            counts2: ValhallaTileHeaderCounts2 { bits: read_u64_at(b, 48) },
            counts3: ValhallaTileHeaderCounts3 { bits: read_u64_at(b, 56) },
            counts4: ValhallaTileHeaderCounts4 { bits: read_u64_at(b, 64) },
            counts5: ValhallaTileHeaderCounts5 { bits: read_u64_at(b, 72) },
            spare_word1: read_u64_at(b, 80),
            spare_word2: read_u64_at(b, 88),
            complex_restriction_forward_offset: read_u32_at(b, 96),
            complex_restriction_reverse_offset: read_u32_at(b, 100),
            edge_info_offset: read_u32_at(b, 104),
            text_list_offset: read_u32_at(b, 108),
            date_created: read_u32_at(b, 112),
            bin_offsets,
            late_connectivity_offset: read_u32_at(b, 216),
            predicted_speeds_offset: read_u32_at(b, 220),
            tile_size: read_u32_at(b, 224),
            empty_slots,
        }
    }

    /// Total byte length of the sections the decoder skips by arithmetic
    /// alone: transit departures, stops, routes, schedules and transfers,
    /// signs and administrative records.  The decoder never validates these
    /// counts against the buffer, so corruption there goes undetected; this
    /// length says where the skipped sections would end.
    pub open spec fn spec_unparsed_sections_len(self) -> u64 {
        (self.counts3.spec_departure_count() * 24 + self.counts3.spec_stop_count() * 8
            + self.counts4.spec_route_count() * 40 + self.counts4.spec_schedule_count() * 16
            + self.counts3.spec_transfer_count() * 12 + self.counts4.spec_sign_count() * 8
            + self.counts5.spec_admin_count() * 16) as u64
    }

    /// See [`Self::spec_unparsed_sections_len`].
    pub fn unparsed_sections_len(&self) -> (r: u64)
        ensures
            r == self.spec_unparsed_sections_len(),
    {
        let departures = self.counts3.departure_count() as u64 * 24;
        let stops = self.counts3.stop_count() as u64 * 8;
        let routes = self.counts4.route_count() as u64 * 40;
        let schedules = self.counts4.schedule_count() as u64 * 16;
        let transfers = self.counts3.transfer_count() as u64 * 12;
        let signs = self.counts4.sign_count() as u64 * 8;
        let admins = self.counts5.admin_count() as u64 * 16;
        departures + stops + routes + schedules + transfers + signs + admins
    }
}

} // verus!
