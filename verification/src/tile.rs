//! The tile decoder.
//!
//! `InfernoTile::from_valhalla` turns one raw byte buffer into a decoded
//! tile, or into a `DecodeError` with nothing constructed.  The spec
//! functions in this module say exactly which buffers decode and what each
//! one decodes to; the decoder is proved against them.
//!
//! Layout of a buffer: the 272-byte header, then `node_count` node records,
//! `transition_count` node-transition records, `directed_edges_count`
//! directed-edge records, one unparsed extension record per directed edge
//! when the header's extension flag is set, and
//! `access_restriction_count` access-restriction records.  Whatever follows
//! (transit data, signs, administrative records) is left unread; only the
//! header's declared tile size ties the buffer length down.
//!
//! Each record list demands one spare byte after its last record: a record
//! ending exactly at the buffer end is rejected, a quirk of the format kept
//! deliberately.

use crate::bytes_util::{read_u32_at, read_u64_at, word32_at, word64_at};
use crate::checked_vec::CheckedVec;
use crate::graph_id::{GraphEntityId, TileId};
use crate::header::{
    ValhallaTileHeader, ValhallaTileHeaderCounts1, ValhallaTileHeaderCounts2,
    ValhallaTileHeaderCounts5, ValhallaTileHeaderMetadata, HEADER_SIZE,
};
use crate::records::{
    ValhallaAccessRestriction, ValhallaAccessRestrictionBitField, ValhallaDirectedEdge,
    ValhallaDirectedEdgeData1, ValhallaDirectedEdgeData2, ValhallaDirectedEdgeData3,
    ValhallaDirectedEdgeData4, ValhallaDirectedEdgeRestrictions1,
    ValhallaDirectedEdgeRestrictions2, ValhallaNodeInfo, ValhallaNodeInfoData1,
    ValhallaNodeInfoData2, ValhallaNodeInfoPositionInfo, ValhallaNodeTransition,
    ACCESS_RESTRICTION_SIZE, DIRECTED_EDGE_EXT_SIZE, DIRECTED_EDGE_SIZE, NODE_INFO_SIZE,
    NODE_TRANSITION_SIZE,
};
use vstd::prelude::*;

verus! {

/// Why a buffer failed to decode.
#[derive(Clone, Copy, Debug, PartialEq, Eq, Structural)]
pub enum DecodeError {
    /// The buffer is shorter than the fixed header.
    HeaderTooShort,
    /// The header's declared tile size does not equal the buffer length.
    SizeMismatch,
    /// Some declared record count does not fit in the buffer.
    TruncatedRecords,
}

// ---------------------------------------------------------------------------
// What a buffer declares
// ---------------------------------------------------------------------------

/// The header's identity word.
pub open spec fn spec_metadata(b: Seq<u8>) -> ValhallaTileHeaderMetadata {
    ValhallaTileHeaderMetadata { bits: word64_at(b, 0) }
}

/// The tile's own packed identifier, from the header.
pub open spec fn spec_graphid(b: Seq<u8>) -> u64 {
    spec_metadata(b).spec_graphid()
}

/// Number of node records the buffer declares.
pub open spec fn spec_node_count(b: Seq<u8>) -> int {
    ValhallaTileHeaderCounts1 { bits: word64_at(b, 40) }.spec_node_count() as int
}

/// Number of directed-edge records the buffer declares.
pub open spec fn spec_edge_count(b: Seq<u8>) -> int {
    ValhallaTileHeaderCounts1 { bits: word64_at(b, 40) }.spec_directed_edges_count() as int
}

/// Number of node-transition records the buffer declares.
pub open spec fn spec_transition_count(b: Seq<u8>) -> int {
    ValhallaTileHeaderCounts2 { bits: word64_at(b, 48) }.spec_transition_count() as int
}

/// Number of access-restriction records the buffer declares.
pub open spec fn spec_restriction_count(b: Seq<u8>) -> int {
    ValhallaTileHeaderCounts5 { bits: word64_at(b, 72) }.spec_access_restriction_count() as int
}

/// Whether one extension record per directed edge follows the edges.
pub open spec fn spec_has_ext(b: Seq<u8>) -> bool {
    spec_metadata(b).spec_has_ext_directededge()
}

/// The total tile size the header declares.
pub open spec fn spec_tile_size(b: Seq<u8>) -> int {
    word32_at(b, 224) as int
}

/// Offset just past the node records.
pub open spec fn spec_nodes_end(b: Seq<u8>) -> int {
    HEADER_SIZE + NODE_INFO_SIZE * spec_node_count(b)
}

/// Offset just past the node-transition records.
pub open spec fn spec_transitions_end(b: Seq<u8>) -> int {
    spec_nodes_end(b) + NODE_TRANSITION_SIZE * spec_transition_count(b)
}

/// Offset just past the directed-edge records.
pub open spec fn spec_edges_end(b: Seq<u8>) -> int {
    spec_transitions_end(b) + DIRECTED_EDGE_SIZE * spec_edge_count(b)
}

/// Offset of the access-restriction records: past the directed edges, and
/// past their unparsed extension records when the extension flag is set.
pub open spec fn spec_restrictions_off(b: Seq<u8>) -> int {
    spec_edges_end(b) + if spec_has_ext(b) {
        DIRECTED_EDGE_EXT_SIZE * spec_edge_count(b)
    } else {
        0
    }
}

/// Offset just past the access-restriction records.
pub open spec fn spec_restrictions_end(b: Seq<u8>) -> int {
    spec_restrictions_off(b) + ACCESS_RESTRICTION_SIZE * spec_restriction_count(b)
}

// ---------------------------------------------------------------------------
// Whether a buffer decodes, and to what
// ---------------------------------------------------------------------------

/// The error a buffer decodes to, if any.  Checks run in the decoder's
/// order: header length first, declared size next, then each record list in
/// turn.  A record list with a nonzero count must end strictly before the
/// buffer end — the one-spare-byte quirk.
pub open spec fn spec_decode_error(b: Seq<u8>) -> Option<DecodeError> {
    if b.len() < HEADER_SIZE {
        Some(DecodeError::HeaderTooShort)
    } else if spec_tile_size(b) != b.len() {
        Some(DecodeError::SizeMismatch)
    } else if spec_node_count(b) > 0 && spec_nodes_end(b) >= b.len() {
        Some(DecodeError::TruncatedRecords)
    } else if spec_transition_count(b) > 0 && spec_transitions_end(b) >= b.len() {
        Some(DecodeError::TruncatedRecords)
    } else if spec_edge_count(b) > 0 && spec_edges_end(b) >= b.len() {
        Some(DecodeError::TruncatedRecords)
    } else if spec_restriction_count(b) > 0 && spec_restrictions_end(b) >= b.len() {
        Some(DecodeError::TruncatedRecords)
    } else {
        None
    }
}

/// Whether a buffer decodes.
pub open spec fn spec_decode_ok(b: Seq<u8>) -> bool {
    spec_decode_error(b) is None
}

/// A buffer shorter than the fixed header fails with `HeaderTooShort`.
pub proof fn lemma_short_buffer_fails(b: Seq<u8>)
    requires
        b.len() < HEADER_SIZE,
    ensures
        spec_decode_error(b) == Some(DecodeError::HeaderTooShort),
{
}

/// A buffer whose length disagrees with the header's declared tile size
/// fails with `SizeMismatch`.
pub proof fn lemma_size_mismatch_fails(b: Seq<u8>)
    requires
        b.len() >= HEADER_SIZE,
        spec_tile_size(b) != b.len(),
    ensures
        spec_decode_error(b) == Some(DecodeError::SizeMismatch),
{
}

/// A buffer truncated somewhere inside a declared record list — any of the
/// four lists — fails with `TruncatedRecords`.
pub proof fn lemma_truncated_records_fail(b: Seq<u8>)
    requires
        b.len() >= HEADER_SIZE,
        spec_tile_size(b) == b.len(),
        (spec_node_count(b) > 0 && spec_nodes_end(b) >= b.len()) || (spec_transition_count(b) > 0
            && spec_transitions_end(b) >= b.len()) || (spec_edge_count(b) > 0 && spec_edges_end(b)
            >= b.len()) || (spec_restriction_count(b) > 0 && spec_restrictions_end(b) >= b.len()),
    ensures
        spec_decode_error(b) == Some(DecodeError::TruncatedRecords),
{
}

/// The node record whose 32 bytes start at `off`.
pub open spec fn spec_node_at(b: Seq<u8>, off: int) -> ValhallaNodeInfo {
    ValhallaNodeInfo {
        position_info: ValhallaNodeInfoPositionInfo { bits: word64_at(b, off) },
        data1: ValhallaNodeInfoData1 { bits: word64_at(b, off + 8) },
        data2: ValhallaNodeInfoData2 { bits: word64_at(b, off + 16) },
        headings: word64_at(b, off + 24),
    }
}

/// The node-transition record whose 8 bytes start at `off`.
pub open spec fn spec_transition_at(b: Seq<u8>, off: int) -> ValhallaNodeTransition {
    ValhallaNodeTransition { bits: word64_at(b, off) }
}

/// The directed-edge record whose 48 bytes start at `off`.
pub open spec fn spec_edge_at(b: Seq<u8>, off: int) -> ValhallaDirectedEdge {
    ValhallaDirectedEdge {
        restrictions1: ValhallaDirectedEdgeRestrictions1 { bits: word64_at(b, off) },
        restrictions2: ValhallaDirectedEdgeRestrictions2 { bits: word64_at(b, off + 8) },
        data1: ValhallaDirectedEdgeData1 { bits: word64_at(b, off + 16) },
        data2: ValhallaDirectedEdgeData2 { bits: word64_at(b, off + 24) },
        data3: ValhallaDirectedEdgeData3 { bits: word64_at(b, off + 32) },
        stop_impact_union_line_id: word32_at(b, off + 40),
        data4: ValhallaDirectedEdgeData4 { bits: word32_at(b, off + 44) },
    }
}

/// The access-restriction record whose 16 bytes start at `off`.
pub open spec fn spec_restriction_at(b: Seq<u8>, off: int) -> ValhallaAccessRestriction {
    ValhallaAccessRestriction {
        bitfield: ValhallaAccessRestrictionBitField { bits: word64_at(b, off) },
        value: word64_at(b, off + 8),
    }
}

/// The node records a decodable buffer holds.
pub open spec fn decoded_nodes(b: Seq<u8>) -> Seq<ValhallaNodeInfo> {
    Seq::new(
        spec_node_count(b) as nat,
        |i: int| spec_node_at(b, HEADER_SIZE + NODE_INFO_SIZE * i),
    )
}

/// The node-transition records a decodable buffer holds.
pub open spec fn decoded_transitions(b: Seq<u8>) -> Seq<ValhallaNodeTransition> {
    Seq::new(
        spec_transition_count(b) as nat,
        |i: int| spec_transition_at(b, spec_nodes_end(b) + NODE_TRANSITION_SIZE * i),
    )
}

/// The directed-edge records a decodable buffer holds.
pub open spec fn decoded_edges(b: Seq<u8>) -> Seq<ValhallaDirectedEdge> {
    Seq::new(
        spec_edge_count(b) as nat,
        |i: int| spec_edge_at(b, spec_transitions_end(b) + DIRECTED_EDGE_SIZE * i),
    )
}

/// The access-restriction records a decodable buffer holds.
pub open spec fn decoded_restrictions(b: Seq<u8>) -> Seq<ValhallaAccessRestriction> {
    Seq::new(
        spec_restriction_count(b) as nat,
        |i: int| spec_restriction_at(b, spec_restrictions_off(b) + ACCESS_RESTRICTION_SIZE * i),
    )
}

// ---------------------------------------------------------------------------
// Record readers
// ---------------------------------------------------------------------------

fn read_node_at(b: &[u8], off: usize) -> (r: ValhallaNodeInfo)
    requires
        off + NODE_INFO_SIZE <= b@.len(),
    ensures
        r == spec_node_at(b@, off as int),
{
    let _blen: usize = b.len();
    ValhallaNodeInfo {
        position_info: ValhallaNodeInfoPositionInfo { bits: read_u64_at(b, off) },
        data1: ValhallaNodeInfoData1 { bits: read_u64_at(b, off + 8) },
        data2: ValhallaNodeInfoData2 { bits: read_u64_at(b, off + 16) },
        headings: read_u64_at(b, off + 24),
    }
}

fn read_transition_at(b: &[u8], off: usize) -> (r: ValhallaNodeTransition)
    requires
        off + NODE_TRANSITION_SIZE <= b@.len(),
    ensures
        r == spec_transition_at(b@, off as int),
{
    ValhallaNodeTransition { bits: read_u64_at(b, off) }
}

fn read_edge_at(b: &[u8], off: usize) -> (r: ValhallaDirectedEdge)
    requires
        off + DIRECTED_EDGE_SIZE <= b@.len(),
    ensures
        r == spec_edge_at(b@, off as int),
{
    let _blen: usize = b.len();
    ValhallaDirectedEdge {
        restrictions1: ValhallaDirectedEdgeRestrictions1 { bits: read_u64_at(b, off) },
        restrictions2: ValhallaDirectedEdgeRestrictions2 { bits: read_u64_at(b, off + 8) },
        data1: ValhallaDirectedEdgeData1 { bits: read_u64_at(b, off + 16) },
        data2: ValhallaDirectedEdgeData2 { bits: read_u64_at(b, off + 24) },
        data3: ValhallaDirectedEdgeData3 { bits: read_u64_at(b, off + 32) },
        stop_impact_union_line_id: read_u32_at(b, off + 40),
        data4: ValhallaDirectedEdgeData4 { bits: read_u32_at(b, off + 44) },
    }
}

fn read_restriction_at(b: &[u8], off: usize) -> (r: ValhallaAccessRestriction)
    requires
        off + ACCESS_RESTRICTION_SIZE <= b@.len(),
    ensures
        r == spec_restriction_at(b@, off as int),
{
    let _blen: usize = b.len();
    ValhallaAccessRestriction {
        bitfield: ValhallaAccessRestrictionBitField { bits: read_u64_at(b, off) },
        value: read_u64_at(b, off + 8),
    }
}

// ---------------------------------------------------------------------------
// The decoded tile
// ---------------------------------------------------------------------------

/// The decoded form of one tile buffer: the header plus the four parsed
/// record lists, each tagged with the tile's identifier.  Built atomically
/// by the decoder — a failed decode constructs nothing — and immutable
/// afterwards.
#[derive(Clone, Debug)]
pub struct InfernoTile {
    tile_id: TileId,
    header: ValhallaTileHeader,
    nodes: CheckedVec<ValhallaNodeInfo>,
    node_transitions: CheckedVec<ValhallaNodeTransition>,
    directed_edges: CheckedVec<ValhallaDirectedEdge>,
    access_restrictions: CheckedVec<ValhallaAccessRestriction>,
}

impl InfernoTile {
    pub closed spec fn spec_tile_id(self) -> TileId {
        self.tile_id
    }

    pub closed spec fn spec_header(self) -> ValhallaTileHeader {
        self.header
    }

    pub closed spec fn spec_nodes_cv(self) -> CheckedVec<ValhallaNodeInfo> {
        self.nodes
    }

    pub closed spec fn spec_transitions_cv(self) -> CheckedVec<ValhallaNodeTransition> {
        self.node_transitions
    }

    pub closed spec fn spec_edges_cv(self) -> CheckedVec<ValhallaDirectedEdge> {
        self.directed_edges
    }

    pub closed spec fn spec_restrictions_cv(self) -> CheckedVec<ValhallaAccessRestriction> {
        self.access_restrictions
    }

    /// The decoded node records.
    pub open spec fn spec_nodes(self) -> Seq<ValhallaNodeInfo> {
        self.spec_nodes_cv()@
    }

    /// The decoded node-transition records.
    pub open spec fn spec_transitions(self) -> Seq<ValhallaNodeTransition> {
        self.spec_transitions_cv()@
    }

    /// The decoded directed-edge records.
    pub open spec fn spec_edges(self) -> Seq<ValhallaDirectedEdge> {
        self.spec_edges_cv()@
    }

    /// The decoded access-restriction records.
    pub open spec fn spec_restrictions(self) -> Seq<ValhallaAccessRestriction> {
        self.spec_restrictions_cv()@
    }

    /// A decoded tile is internally consistent: the header's list fields
    /// have their fixed lengths and all four record lists carry the tile's
    /// own identifier.
    pub open spec fn wf(self) -> bool {
        &&& self.spec_header().wf()
        &&& self.spec_nodes_cv().spec_tile_id() == self.spec_tile_id()
        &&& self.spec_transitions_cv().spec_tile_id() == self.spec_tile_id()
        &&& self.spec_edges_cv().spec_tile_id() == self.spec_tile_id()
        &&& self.spec_restrictions_cv().spec_tile_id() == self.spec_tile_id()
    }

    pub fn tile_id(&self) -> (r: TileId)
        ensures
            r == self.spec_tile_id(),
    {
        self.tile_id
    }

    /// The decoded header.
    pub fn header(&self) -> (r: &ValhallaTileHeader)
        ensures
            *r == self.spec_header(),
    {
        &self.header
    }

    /// Raw bit patterns of the tile's base latitude and longitude (two
    /// single-precision floats on disk).
    pub fn base_ll_bits(&self) -> (r: (u32, u32))
        ensures
            r.0 == self.spec_header().base_ll_lat_bits,
            r.1 == self.spec_header().base_ll_lon_bits,
    {
        (self.header.base_ll_lat_bits, self.header.base_ll_lon_bits)
    }

    pub fn nodes(&self) -> (r: &CheckedVec<ValhallaNodeInfo>)
        ensures
            *r == self.spec_nodes_cv(),
    {
        &self.nodes
    }

    pub fn node_transitions(&self) -> (r: &CheckedVec<ValhallaNodeTransition>)
        ensures
            *r == self.spec_transitions_cv(),
    {
        &self.node_transitions
    }

    pub fn directed_edges(&self) -> (r: &CheckedVec<ValhallaDirectedEdge>)
        ensures
            *r == self.spec_edges_cv(),
    {
        &self.directed_edges
    }

    pub fn access_restrictions(&self) -> (r: &CheckedVec<ValhallaAccessRestriction>)
        ensures
            *r == self.spec_restrictions_cv(),
    {
        &self.access_restrictions
    }

    /// A view of `count` node records starting at a reference's index.  The
    /// range must be known valid from the decoded counts.
    pub fn node_slice<'a>(
        &'a self,
        start: GraphEntityId<ValhallaNodeInfo>,
        count: usize,
    ) -> (r: &'a [ValhallaNodeInfo])
        requires
            CheckedVec::spec_index_of(start) + count <= self.spec_nodes().len(),
        ensures
            r@ == self.spec_nodes().subrange(
                CheckedVec::spec_index_of(start) as int,
                CheckedVec::spec_index_of(start) + count,
            ),
    {
        self.nodes.slice(start, count)
    }

    /// A view of `count` directed-edge records starting at a reference's
    /// index.
    pub fn edge_slice<'a>(
        &'a self,
        start: GraphEntityId<ValhallaDirectedEdge>,
        count: usize,
    ) -> (r: &'a [ValhallaDirectedEdge])
        requires
            CheckedVec::spec_index_of(start) + count <= self.spec_edges().len(),
        ensures
            r@ == self.spec_edges().subrange(
                CheckedVec::spec_index_of(start) as int,
                CheckedVec::spec_index_of(start) + count,
            ),
    {
        self.directed_edges.slice(start, count)
    }

    /// A view of `count` node-transition records starting at a reference's
    /// index.
    pub fn transition_slice<'a>(
        &'a self,
        start: GraphEntityId<ValhallaNodeTransition>,
        count: usize,
    ) -> (r: &'a [ValhallaNodeTransition])
        requires
            CheckedVec::spec_index_of(start) + count <= self.spec_transitions().len(),
        ensures
            r@ == self.spec_transitions().subrange(
                CheckedVec::spec_index_of(start) as int,
                CheckedVec::spec_index_of(start) + count,
            ),
    {
        self.node_transitions.slice(start, count)
    }

    /// Decodes one tile buffer.  Succeeds exactly on the buffers
    /// `spec_decode_ok` accepts, and then returns precisely the records the
    /// buffer spells out; fails with the error `spec_decode_error` names,
    /// and constructs nothing.
    pub fn from_valhalla(bytes: &[u8]) -> (r: Result<InfernoTile, DecodeError>)
        ensures
            r is Ok <==> spec_decode_ok(bytes@),
            match r {
                Ok(t) => {
                    &&& t.wf()
                    &&& t.spec_header().wf()
                    &&& t.spec_header().matches_bytes(bytes@)
                    &&& t.spec_tile_id().id == spec_graphid(bytes@)
                    &&& t.spec_nodes() == decoded_nodes(bytes@)
                    &&& t.spec_transitions() == decoded_transitions(bytes@)
                    &&& t.spec_edges() == decoded_edges(bytes@)
                    &&& t.spec_restrictions() == decoded_restrictions(bytes@)
                },
                Err(e) => spec_decode_error(bytes@) == Some(e),
            },
    {
        let blen: usize = bytes.len();
        if blen < HEADER_SIZE {
            return Err(DecodeError::HeaderTooShort);
        }
        let header = ValhallaTileHeader::read_from(bytes);

        if header.tile_size as usize != blen {
            return Err(DecodeError::SizeMismatch);
        }

        let node_count = header.counts1.node_count();
        let transition_count = header.counts2.transition_count();
        let edge_count = header.counts1.directed_edges_count();
        let restriction_count = header.counts5.access_restriction_count();
        let has_ext = header.metadata.has_ext_directededge();

        // Every record list must end strictly before the buffer end; the
        // section offsets are computed in 64 bits so no count can wrap them.
        let nodes_end_w: u64 = HEADER_SIZE as u64 + NODE_INFO_SIZE as u64 * node_count as u64;
        if node_count > 0 && nodes_end_w >= blen as u64 {
            return Err(DecodeError::TruncatedRecords);
        }
        let transitions_end_w: u64 = nodes_end_w + NODE_TRANSITION_SIZE as u64
            * transition_count as u64;
        if transition_count > 0 && transitions_end_w >= blen as u64 {
            return Err(DecodeError::TruncatedRecords);
        }
        let edges_end_w: u64 = transitions_end_w + DIRECTED_EDGE_SIZE as u64 * edge_count as u64;
        if edge_count > 0 && edges_end_w >= blen as u64 {
            return Err(DecodeError::TruncatedRecords);
        }
        let restrictions_off_w: u64 = edges_end_w + if has_ext {
            DIRECTED_EDGE_EXT_SIZE as u64 * edge_count as u64
        } else {
            0
        };
        let restrictions_end_w: u64 = restrictions_off_w + ACCESS_RESTRICTION_SIZE as u64
            * restriction_count as u64;
        if restriction_count > 0 && restrictions_end_w >= blen as u64 {
            return Err(DecodeError::TruncatedRecords);
        }

        let tile_id = TileId::new(header.metadata.graphid());
        let mut nodes = CheckedVec::<ValhallaNodeInfo>::new(tile_id);
        let mut node_transitions = CheckedVec::<ValhallaNodeTransition>::new(tile_id);
        let mut directed_edges = CheckedVec::<ValhallaDirectedEdge>::new(tile_id);
        let mut access_restrictions = CheckedVec::<ValhallaAccessRestriction>::new(tile_id);

        proof {
            assert(spec_node_count(bytes@) == node_count);
            assert(spec_transition_count(bytes@) == transition_count);
            assert(spec_edge_count(bytes@) == edge_count);
            assert(spec_restriction_count(bytes@) == restriction_count);
            assert(spec_decode_ok(bytes@));
        }

        nodes.reserve_exact(node_count);
        let mut i: usize = 0;
        while i < node_count
            invariant
                i <= node_count,
                nodes@.len() == i,
                forall|j: int|
                    0 <= j < i ==> nodes@[j] == spec_node_at(
                        bytes@,
                        HEADER_SIZE + NODE_INFO_SIZE * j,
                    ),
                nodes.spec_tile_id() == tile_id,
                node_count > 0 ==> HEADER_SIZE + NODE_INFO_SIZE * node_count < blen,
                node_count as int == spec_node_count(bytes@),
                blen == bytes@.len(),
            decreases node_count - i,
        {
            nodes.push(read_node_at(bytes, HEADER_SIZE + NODE_INFO_SIZE * i));
            i += 1;
        }
        proof {
            assert(nodes@ =~= decoded_nodes(bytes@));
        }

        let nodes_end: usize = HEADER_SIZE + NODE_INFO_SIZE * node_count;
        node_transitions.reserve_exact(transition_count);
        let mut i: usize = 0;
        while i < transition_count
            invariant
                i <= transition_count,
                node_transitions@.len() == i,
                forall|j: int|
                    0 <= j < i ==> node_transitions@[j] == spec_transition_at(
                        bytes@,
                        nodes_end + NODE_TRANSITION_SIZE * j,
                    ),
                node_transitions.spec_tile_id() == tile_id,
                nodes_end as int == spec_nodes_end(bytes@),
                nodes_end <= blen,
                transition_count > 0 ==> nodes_end + NODE_TRANSITION_SIZE * transition_count
                    < blen,
                transition_count as int == spec_transition_count(bytes@),
                blen == bytes@.len(),
            decreases transition_count - i,
        {
            node_transitions.push(read_transition_at(bytes, nodes_end + NODE_TRANSITION_SIZE * i));
            i += 1;
        }
        proof {
            assert(node_transitions@ =~= decoded_transitions(bytes@));
        }

        let transitions_end: usize = nodes_end + NODE_TRANSITION_SIZE * transition_count;
        directed_edges.reserve_exact(edge_count);
        let mut i: usize = 0;
        while i < edge_count
            invariant
                i <= edge_count,
                directed_edges@.len() == i,
                forall|j: int|
                    0 <= j < i ==> directed_edges@[j] == spec_edge_at(
                        bytes@,
                        transitions_end + DIRECTED_EDGE_SIZE * j,
                    ),
                directed_edges.spec_tile_id() == tile_id,
                transitions_end as int == spec_transitions_end(bytes@),
                transitions_end <= blen,
                edge_count > 0 ==> transitions_end + DIRECTED_EDGE_SIZE * edge_count < blen,
                edge_count as int == spec_edge_count(bytes@),
                blen == bytes@.len(),
            decreases edge_count - i,
        {
            directed_edges.push(read_edge_at(bytes, transitions_end + DIRECTED_EDGE_SIZE * i));
            i += 1;
        }
        proof {
            assert(directed_edges@ =~= decoded_edges(bytes@));
        }

        // The extension records, when present, are skipped without parsing.
        let restrictions_off: usize = transitions_end + DIRECTED_EDGE_SIZE * edge_count + if has_ext {
            DIRECTED_EDGE_EXT_SIZE * edge_count
        } else {
            0
        };
        let mut i: usize = 0;
        while i < restriction_count
            invariant
                i <= restriction_count,
                access_restrictions@.len() == i,
                forall|j: int|
                    0 <= j < i ==> access_restrictions@[j] == spec_restriction_at(
                        bytes@,
                        restrictions_off + ACCESS_RESTRICTION_SIZE * j,
                    ),
                access_restrictions.spec_tile_id() == tile_id,
                restrictions_off as int == spec_restrictions_off(bytes@),
                restriction_count > 0 ==> restrictions_off + ACCESS_RESTRICTION_SIZE
                    * restriction_count < blen,
                restriction_count as int == spec_restriction_count(bytes@),
                blen == bytes@.len(),
            decreases restriction_count - i,
        {
            access_restrictions.push(
                read_restriction_at(bytes, restrictions_off + ACCESS_RESTRICTION_SIZE * i),
            );
            i += 1;
        }
        proof {
            assert(access_restrictions@ =~= decoded_restrictions(bytes@));
        }

        Ok(
            InfernoTile {
                tile_id,
                header,
                nodes,
                node_transitions,
                directed_edges,
                access_restrictions,
            },
        )
    }
}

} // verus!
