//! A tile encoder: the inverse of the decoder, for building tile buffers
//! from a header and four record lists.
//!
//! `encode_tile`'s contract is the round-trip law of the format: the buffer
//! it builds decodes, and decodes to exactly the header and records that
//! went in.  Together with the decoder's contract this says that decoding a
//! buffer, re-encoding the four record sequences, and decoding again yields
//! identical records — for every well-formed header and record list, not
//! just tested ones.

use crate::bytes_util::{
    lemma_word32_round_trip, lemma_word64_round_trip, push_u32_le, push_u64_le, word32_at,
    word64_at,
};
use crate::header::{ValhallaTileHeader, HEADER_SIZE};
use crate::records::{
    ValhallaAccessRestriction, ValhallaDirectedEdge, ValhallaNodeInfo, ValhallaNodeTransition,
    ACCESS_RESTRICTION_SIZE, DIRECTED_EDGE_EXT_SIZE, DIRECTED_EDGE_SIZE, NODE_INFO_SIZE,
    NODE_TRANSITION_SIZE,
};
use crate::tile::{
    decoded_edges, decoded_nodes, decoded_restrictions, decoded_transitions, spec_decode_ok,
    spec_edge_at, spec_edge_count, spec_edges_end, spec_node_at, spec_node_count, spec_nodes_end,
    spec_restriction_at, spec_restriction_count, spec_restrictions_end, spec_restrictions_off,
    spec_transition_at, spec_transition_count, spec_transitions_end,
};
use vstd::bytes::{spec_u32_to_le_bytes, spec_u64_to_le_bytes};
use vstd::prelude::*;

verus! {

/// The 32 bytes of one node record.
pub open spec fn spec_node_bytes(n: ValhallaNodeInfo) -> Seq<u8> {
    spec_u64_to_le_bytes(n.position_info.bits) + spec_u64_to_le_bytes(n.data1.bits)
        + spec_u64_to_le_bytes(n.data2.bits) + spec_u64_to_le_bytes(n.headings)
}

/// The 8 bytes of one node-transition record.
pub open spec fn spec_transition_bytes(t: ValhallaNodeTransition) -> Seq<u8> {
    spec_u64_to_le_bytes(t.bits)
}

/// The 48 bytes of one directed-edge record.
pub open spec fn spec_edge_bytes(e: ValhallaDirectedEdge) -> Seq<u8> {
    spec_u64_to_le_bytes(e.restrictions1.bits) + spec_u64_to_le_bytes(e.restrictions2.bits)
        + spec_u64_to_le_bytes(e.data1.bits) + spec_u64_to_le_bytes(e.data2.bits)
        + spec_u64_to_le_bytes(e.data3.bits) + spec_u32_to_le_bytes(e.stop_impact_union_line_id)
        + spec_u32_to_le_bytes(e.data4.bits)
}

/// The 16 bytes of one access-restriction record.
pub open spec fn spec_restriction_bytes(a: ValhallaAccessRestriction) -> Seq<u8> {
    spec_u64_to_le_bytes(a.bitfield.bits) + spec_u64_to_le_bytes(a.value)
}

// ---------------------------------------------------------------------------
// Sequence plumbing
// ---------------------------------------------------------------------------

/// A subrange of a subrange is a subrange of the original.
pub proof fn lemma_subrange_of_subrange(s: Seq<u8>, a: int, b: int, c: int, d: int)
    requires
        0 <= a <= b <= s.len(),
        0 <= c <= d <= b - a,
    ensures
        s.subrange(a, b).subrange(c, d) == s.subrange(a + c, a + d),
{
    assert(s.subrange(a, b).subrange(c, d) =~= s.subrange(a + c, a + d));
}

/// Pointwise form of a prefix equality, so indexing facts flow through
/// snapshots of a buffer under construction.
pub proof fn lemma_prefix_pointwise(a: Seq<u8>, p: Seq<u8>, n: int)
    requires
        0 <= n <= a.len(),
        a.subrange(0, n) == p,
    ensures
        forall|k: int| 0 <= k < n ==> a[k] == p[k],
{
    assert forall|k: int| 0 <= k < n implies a[k] == p[k] by {
        assert(a.subrange(0, n)[k] == a[k]);
    }
}

/// Pointwise form of a range equality.
pub proof fn lemma_range_pointwise(a: Seq<u8>, p: Seq<u8>, lo: int, hi: int)
    requires
        0 <= lo <= hi <= a.len(),
        a.subrange(lo, hi) == p,
    ensures
        forall|k: int| lo <= k < hi ==> a[k] == p[k - lo],
{
    assert forall|k: int| lo <= k < hi implies a[k] == p[k - lo] by {
        assert(a.subrange(lo, hi)[k - lo] == a[k]);
    }
}

/// Where the eight bytes at `off` are the encoding of `x`, the word at
/// `off` is `x`.
pub proof fn lemma_word64_from_piece(b: Seq<u8>, off: int, x: u64)
    requires
        b.subrange(off, off + 8) == spec_u64_to_le_bytes(x),
    ensures
        word64_at(b, off) == x,
{
    lemma_word64_round_trip(x);
}

/// Where the four bytes at `off` are the encoding of `x`, the word at
/// `off` is `x`.
pub proof fn lemma_word32_from_piece(b: Seq<u8>, off: int, x: u32)
    requires
        b.subrange(off, off + 4) == spec_u32_to_le_bytes(x),
    ensures
        word32_at(b, off) == x,
{
    lemma_word32_round_trip(x);
}

/// A header that matches the first 272 bytes of a buffer matches any buffer
/// that starts with those bytes.
pub proof fn lemma_matches_prefix(h: ValhallaTileHeader, full: Seq<u8>, hdr: Seq<u8>)
    requires
        hdr.len() == HEADER_SIZE,
        full.len() >= HEADER_SIZE,
        full.subrange(0, HEADER_SIZE as int) == hdr,
        h.matches_bytes(hdr),
    ensures
        h.matches_bytes(full),
{
    assert forall|off: int| 0 <= off && off + 8 <= HEADER_SIZE implies word64_at(full, off)
        == word64_at(hdr, off) by {
        lemma_subrange_of_subrange(full, 0, HEADER_SIZE as int, off, off + 8);
    }
    assert forall|off: int| 0 <= off && off + 4 <= HEADER_SIZE implies word32_at(full, off)
        == word32_at(hdr, off) by {
        lemma_subrange_of_subrange(full, 0, HEADER_SIZE as int, off, off + 4);
    }
    assert(full.subrange(16, 32) == hdr.subrange(16, 32)) by {
        lemma_subrange_of_subrange(full, 0, HEADER_SIZE as int, 16, 32);
    }
}

/// Where the 32 bytes at `off` encode a node record, decoding there yields
/// that record.
proof fn lemma_node_extract(b: Seq<u8>, off: int, n: ValhallaNodeInfo)
    requires
        0 <= off,
        off + NODE_INFO_SIZE <= b.len(),
        b.subrange(off, off + NODE_INFO_SIZE) == spec_node_bytes(n),
    ensures
        spec_node_at(b, off) == n,
{
    lemma_word64_round_trip(n.position_info.bits);
    lemma_word64_round_trip(n.data1.bits);
    lemma_word64_round_trip(n.data2.bits);
    lemma_word64_round_trip(n.headings);
    let nb = spec_node_bytes(n);
    assert(nb.subrange(0, 8) =~= spec_u64_to_le_bytes(n.position_info.bits));
    assert(nb.subrange(8, 16) =~= spec_u64_to_le_bytes(n.data1.bits));
    assert(nb.subrange(16, 24) =~= spec_u64_to_le_bytes(n.data2.bits));
    assert(nb.subrange(24, 32) =~= spec_u64_to_le_bytes(n.headings));
    lemma_subrange_of_subrange(b, off, off + 32, 0, 8);
    lemma_subrange_of_subrange(b, off, off + 32, 8, 16);
    lemma_subrange_of_subrange(b, off, off + 32, 16, 24);
    lemma_subrange_of_subrange(b, off, off + 32, 24, 32);
    lemma_word64_from_piece(b, off, n.position_info.bits);
    lemma_word64_from_piece(b, off + 8, n.data1.bits);
    lemma_word64_from_piece(b, off + 16, n.data2.bits);
    lemma_word64_from_piece(b, off + 24, n.headings);
}

/// Where the 8 bytes at `off` encode a node-transition record, decoding
/// there yields that record.
proof fn lemma_transition_extract(b: Seq<u8>, off: int, t: ValhallaNodeTransition)
    requires
        0 <= off,
        off + NODE_TRANSITION_SIZE <= b.len(),
        b.subrange(off, off + NODE_TRANSITION_SIZE) == spec_transition_bytes(t),
    ensures
        spec_transition_at(b, off) == t,
{
    lemma_word64_from_piece(b, off, t.bits);
}

/// Where the 48 bytes at `off` encode a directed-edge record, decoding
/// there yields that record.
proof fn lemma_edge_extract(b: Seq<u8>, off: int, e: ValhallaDirectedEdge)
    requires
        0 <= off,
        off + DIRECTED_EDGE_SIZE <= b.len(),
        b.subrange(off, off + DIRECTED_EDGE_SIZE) == spec_edge_bytes(e),
    ensures
        spec_edge_at(b, off) == e,
{
    lemma_word64_round_trip(e.restrictions1.bits);
    lemma_word64_round_trip(e.restrictions2.bits);
    lemma_word64_round_trip(e.data1.bits);
    lemma_word64_round_trip(e.data2.bits);
    lemma_word64_round_trip(e.data3.bits);
    lemma_word32_round_trip(e.stop_impact_union_line_id);
    lemma_word32_round_trip(e.data4.bits);
    let eb = spec_edge_bytes(e);
    assert(eb.subrange(0, 8) =~= spec_u64_to_le_bytes(e.restrictions1.bits));
    assert(eb.subrange(8, 16) =~= spec_u64_to_le_bytes(e.restrictions2.bits));
    assert(eb.subrange(16, 24) =~= spec_u64_to_le_bytes(e.data1.bits));
    assert(eb.subrange(24, 32) =~= spec_u64_to_le_bytes(e.data2.bits));
    assert(eb.subrange(32, 40) =~= spec_u64_to_le_bytes(e.data3.bits));
    assert(eb.subrange(40, 44) =~= spec_u32_to_le_bytes(e.stop_impact_union_line_id));
    assert(eb.subrange(44, 48) =~= spec_u32_to_le_bytes(e.data4.bits));
    lemma_subrange_of_subrange(b, off, off + 48, 0, 8);
    lemma_subrange_of_subrange(b, off, off + 48, 8, 16);
    lemma_subrange_of_subrange(b, off, off + 48, 16, 24);
    lemma_subrange_of_subrange(b, off, off + 48, 24, 32);
    lemma_subrange_of_subrange(b, off, off + 48, 32, 40);
    lemma_subrange_of_subrange(b, off, off + 48, 40, 44);
    lemma_subrange_of_subrange(b, off, off + 48, 44, 48);
    lemma_word64_from_piece(b, off, e.restrictions1.bits);
    lemma_word64_from_piece(b, off + 8, e.restrictions2.bits);
    lemma_word64_from_piece(b, off + 16, e.data1.bits);
    lemma_word64_from_piece(b, off + 24, e.data2.bits);
    lemma_word64_from_piece(b, off + 32, e.data3.bits);
    lemma_word32_from_piece(b, off + 40, e.stop_impact_union_line_id);
    lemma_word32_from_piece(b, off + 44, e.data4.bits);
}

/// Where the 16 bytes at `off` encode an access-restriction record,
/// decoding there yields that record.
proof fn lemma_restriction_extract(b: Seq<u8>, off: int, a: ValhallaAccessRestriction)
    requires
        0 <= off,
        off + ACCESS_RESTRICTION_SIZE <= b.len(),
        b.subrange(off, off + ACCESS_RESTRICTION_SIZE) == spec_restriction_bytes(a),
    ensures
        spec_restriction_at(b, off) == a,
{
    lemma_word64_round_trip(a.bitfield.bits);
    lemma_word64_round_trip(a.value);
    let ab = spec_restriction_bytes(a);
    assert(ab.subrange(0, 8) =~= spec_u64_to_le_bytes(a.bitfield.bits));
    assert(ab.subrange(8, 16) =~= spec_u64_to_le_bytes(a.value));
    lemma_subrange_of_subrange(b, off, off + 16, 0, 8);
    lemma_subrange_of_subrange(b, off, off + 16, 8, 16);
    lemma_word64_from_piece(b, off, a.bitfield.bits);
    lemma_word64_from_piece(b, off + 8, a.value);
}

// ---------------------------------------------------------------------------
// Writers
// ---------------------------------------------------------------------------

/// Appends the 32 bytes of one node record.
fn push_node(out: &mut Vec<u8>, n: &ValhallaNodeInfo)
    ensures
        final(out)@ == old(out)@ + spec_node_bytes(*n),
        final(out)@.len() == old(out)@.len() + NODE_INFO_SIZE,
{
    push_u64_le(out, n.position_info.bits);
    push_u64_le(out, n.data1.bits);
    push_u64_le(out, n.data2.bits);
    push_u64_le(out, n.headings);
    proof {
        lemma_word64_round_trip(n.position_info.bits);
        lemma_word64_round_trip(n.data1.bits);
        lemma_word64_round_trip(n.data2.bits);
        lemma_word64_round_trip(n.headings);
        assert(final(out)@ =~= old(out)@ + spec_node_bytes(*n));
    }
}

/// Appends the 8 bytes of one node-transition record.
fn push_transition(out: &mut Vec<u8>, t: &ValhallaNodeTransition)
    ensures
        final(out)@ == old(out)@ + spec_transition_bytes(*t),
        final(out)@.len() == old(out)@.len() + NODE_TRANSITION_SIZE,
{
    push_u64_le(out, t.bits);
    proof {
        lemma_word64_round_trip(t.bits);
    }
}

/// Appends the 48 bytes of one directed-edge record.
fn push_edge(out: &mut Vec<u8>, e: &ValhallaDirectedEdge)
    ensures
        final(out)@ == old(out)@ + spec_edge_bytes(*e),
        final(out)@.len() == old(out)@.len() + DIRECTED_EDGE_SIZE,
{
    push_u64_le(out, e.restrictions1.bits);
    push_u64_le(out, e.restrictions2.bits);
    push_u64_le(out, e.data1.bits);
    push_u64_le(out, e.data2.bits);
    push_u64_le(out, e.data3.bits);
    push_u32_le(out, e.stop_impact_union_line_id);
    push_u32_le(out, e.data4.bits);
    proof {
        lemma_word64_round_trip(e.restrictions1.bits);
        lemma_word64_round_trip(e.restrictions2.bits);
        lemma_word64_round_trip(e.data1.bits);
        lemma_word64_round_trip(e.data2.bits);
        lemma_word64_round_trip(e.data3.bits);
        lemma_word32_round_trip(e.stop_impact_union_line_id);
        lemma_word32_round_trip(e.data4.bits);
        assert(final(out)@ =~= old(out)@ + spec_edge_bytes(*e));
    }
}

/// Appends the 16 bytes of one access-restriction record.
fn push_restriction(out: &mut Vec<u8>, a: &ValhallaAccessRestriction)
    ensures
        final(out)@ == old(out)@ + spec_restriction_bytes(*a),
        final(out)@.len() == old(out)@.len() + ACCESS_RESTRICTION_SIZE,
{
    push_u64_le(out, a.bitfield.bits);
    push_u64_le(out, a.value);
    proof {
        lemma_word64_round_trip(a.bitfield.bits);
        lemma_word64_round_trip(a.value);
        assert(final(out)@ =~= old(out)@ + spec_restriction_bytes(*a));
    }
}

/// Writes the 272 header bytes into an empty buffer.
fn write_header(out: &mut Vec<u8>, h: &ValhallaTileHeader)
    requires
        old(out)@.len() == 0,
        h.wf(),
    ensures
        final(out)@.len() == HEADER_SIZE,
        h.matches_bytes(final(out)@),
{
    push_u64_le(out, h.metadata.bits);
    push_u32_le(out, h.base_ll_lat_bits);
    push_u32_le(out, h.base_ll_lon_bits);
    let ghost before_version = out@;
    let mut vi: usize = 0;
    while vi < 16
        invariant
            vi <= 16,
            h.wf(),
            before_version.len() == 16,
            out@.len() == 16 + vi,
            out@.subrange(0, 16) == before_version,
            out@.subrange(16, 16 + vi as int) == h.version@.subrange(0, vi as int),
        decreases 16 - vi,
    {
        let ghost prev = out@;
        out.push(h.version[vi]);
        proof {
            assert(out@.subrange(0, 16) =~= prev.subrange(0, 16));
            assert(out@.subrange(16, 16 + vi + 1) =~= h.version@.subrange(0, vi + 1));
        }
        vi += 1;
    }
    let ghost after_version = out@;
    proof {
        lemma_prefix_pointwise(after_version, before_version, 16);
    }
    push_u64_le(out, h.dataset_id);
    push_u64_le(out, h.counts1.bits);
    push_u64_le(out, h.counts2.bits);
    push_u64_le(out, h.counts3.bits);
    push_u64_le(out, h.counts4.bits);
    push_u64_le(out, h.counts5.bits);
    push_u64_le(out, h.spare_word1);
    push_u64_le(out, h.spare_word2);
    push_u32_le(out, h.complex_restriction_forward_offset);
    push_u32_le(out, h.complex_restriction_reverse_offset);
    push_u32_le(out, h.edge_info_offset);
    push_u32_le(out, h.text_list_offset);
    push_u32_le(out, h.date_created);
    let ghost before_bins = out@;
    let mut bi: usize = 0;
    while bi < 25
        invariant
            bi <= 25,
            h.wf(),
            before_bins.len() == 116,
            out@.len() == 116 + 4 * bi,
            out@.subrange(0, 116) == before_bins,
            forall|j: int|
                0 <= j < bi ==> out@.subrange(116 + 4 * j, 116 + 4 * j + 4)
                    == spec_u32_to_le_bytes(h.bin_offsets@[j]),
        decreases 25 - bi,
    {
        let ghost prev = out@;
        push_u32_le(out, h.bin_offsets[bi]);
        proof {
            lemma_word32_round_trip(h.bin_offsets@[bi as int]);
            assert(out@.subrange(0, 116) =~= before_bins);
            assert forall|j: int| 0 <= j < bi + 1 implies out@.subrange(
                116 + 4 * j,
                116 + 4 * j + 4,
            ) == spec_u32_to_le_bytes(h.bin_offsets@[j]) by {
                if j < bi {
                    assert(out@.subrange(116 + 4 * j, 116 + 4 * j + 4) =~= prev.subrange(
                        116 + 4 * j,
                        116 + 4 * j + 4,
                    ));
                } else {
                    assert(out@.subrange(116 + 4 * j, 116 + 4 * j + 4) =~= spec_u32_to_le_bytes(
                        h.bin_offsets@[j],
                    ));
                }
            }
        }
        bi += 1;
    }
    let ghost after_bins = out@;
    proof {
        lemma_prefix_pointwise(after_bins, before_bins, 116);
    }
    push_u32_le(out, h.late_connectivity_offset);
    push_u32_le(out, h.predicted_speeds_offset);
    push_u32_le(out, h.tile_size);
    let ghost before_empty = out@;
    let mut ei: usize = 0;
    while ei < 11
        invariant
            ei <= 11,
            h.wf(),
            before_empty.len() == 228,
            out@.len() == 228 + 4 * ei,
            out@.subrange(0, 228) == before_empty,
            forall|j: int|
                0 <= j < ei ==> out@.subrange(228 + 4 * j, 228 + 4 * j + 4)
                    == spec_u32_to_le_bytes(h.empty_slots@[j]),
        decreases 11 - ei,
    {
        let ghost prev = out@;
        push_u32_le(out, h.empty_slots[ei]);
        proof {
            assert(out@.subrange(0, 228) =~= before_empty);
            assert forall|j: int| 0 <= j < ei + 1 implies out@.subrange(
                228 + 4 * j,
                228 + 4 * j + 4,
            ) == spec_u32_to_le_bytes(h.empty_slots@[j]) by {
                if j < ei {
                    assert(out@.subrange(228 + 4 * j, 228 + 4 * j + 4) =~= prev.subrange(
                        228 + 4 * j,
                        228 + 4 * j + 4,
                    ));
                } else {
                    assert(out@.subrange(228 + 4 * j, 228 + 4 * j + 4) =~= spec_u32_to_le_bytes(
                        h.empty_slots@[j],
                    ));
                }
            }
        }
        ei += 1;
    }

    proof {
        let b = out@;
        lemma_prefix_pointwise(b, before_empty, 228);
        assert(b.subrange(0, 8) =~= spec_u64_to_le_bytes(h.metadata.bits));
        lemma_word64_from_piece(b, 0, h.metadata.bits);
        assert(b.subrange(8, 12) =~= spec_u32_to_le_bytes(h.base_ll_lat_bits));
        lemma_word32_from_piece(b, 8, h.base_ll_lat_bits);
        assert(b.subrange(12, 16) =~= spec_u32_to_le_bytes(h.base_ll_lon_bits));
        lemma_word32_from_piece(b, 12, h.base_ll_lon_bits);
        assert(h.version@.subrange(0, 16) =~= h.version@);
        lemma_range_pointwise(after_version, h.version@, 16, 32);
        assert(b.subrange(16, 32) =~= h.version@);
        assert(b.subrange(32, 40) =~= spec_u64_to_le_bytes(h.dataset_id));
        lemma_word64_from_piece(b, 32, h.dataset_id);
        assert(b.subrange(40, 48) =~= spec_u64_to_le_bytes(h.counts1.bits));
        lemma_word64_from_piece(b, 40, h.counts1.bits);
        assert(b.subrange(48, 56) =~= spec_u64_to_le_bytes(h.counts2.bits));
        lemma_word64_from_piece(b, 48, h.counts2.bits);
        assert(b.subrange(56, 64) =~= spec_u64_to_le_bytes(h.counts3.bits));
        lemma_word64_from_piece(b, 56, h.counts3.bits);
        assert(b.subrange(64, 72) =~= spec_u64_to_le_bytes(h.counts4.bits));
        lemma_word64_from_piece(b, 64, h.counts4.bits);
        assert(b.subrange(72, 80) =~= spec_u64_to_le_bytes(h.counts5.bits));
        lemma_word64_from_piece(b, 72, h.counts5.bits);
        assert(b.subrange(80, 88) =~= spec_u64_to_le_bytes(h.spare_word1));
        lemma_word64_from_piece(b, 80, h.spare_word1);
        assert(b.subrange(88, 96) =~= spec_u64_to_le_bytes(h.spare_word2));
        lemma_word64_from_piece(b, 88, h.spare_word2);
        assert(b.subrange(96, 100) =~= spec_u32_to_le_bytes(
            h.complex_restriction_forward_offset,
        ));
        lemma_word32_from_piece(b, 96, h.complex_restriction_forward_offset);
        assert(b.subrange(100, 104) =~= spec_u32_to_le_bytes(
            h.complex_restriction_reverse_offset,
        ));
        lemma_word32_from_piece(b, 100, h.complex_restriction_reverse_offset);
        assert(b.subrange(104, 108) =~= spec_u32_to_le_bytes(h.edge_info_offset));
        lemma_word32_from_piece(b, 104, h.edge_info_offset);
        assert(b.subrange(108, 112) =~= spec_u32_to_le_bytes(h.text_list_offset));
        lemma_word32_from_piece(b, 108, h.text_list_offset);
        assert(b.subrange(112, 116) =~= spec_u32_to_le_bytes(h.date_created));
        lemma_word32_from_piece(b, 112, h.date_created);
        assert forall|i: int| 0 <= i < 25 implies h.bin_offsets@[i] == word32_at(b, 116 + 4 * i) by {
            assert(b.subrange(116 + 4 * i, 116 + 4 * i + 4) =~= after_bins.subrange(
                116 + 4 * i,
                116 + 4 * i + 4,
            ));
            lemma_word32_from_piece(b, 116 + 4 * i, h.bin_offsets@[i]);
        }
        assert(b.subrange(216, 220) =~= spec_u32_to_le_bytes(h.late_connectivity_offset));
        lemma_word32_from_piece(b, 216, h.late_connectivity_offset);
        assert(b.subrange(220, 224) =~= spec_u32_to_le_bytes(h.predicted_speeds_offset));
        lemma_word32_from_piece(b, 220, h.predicted_speeds_offset);
        assert(b.subrange(224, 228) =~= spec_u32_to_le_bytes(h.tile_size));
        lemma_word32_from_piece(b, 224, h.tile_size);
        assert forall|i: int| 0 <= i < 11 implies h.empty_slots@[i] == word32_at(b, 228 + 4 * i) by {
            lemma_word32_from_piece(b, 228 + 4 * i, h.empty_slots@[i]);
        }
    }
}

/// Builds the tile buffer a header and four record lists describe: header,
/// node records, node-transition records, directed-edge records, zeroed
/// extension records when the header's flag asks for them, access
/// restrictions, and the trailing unparsed sections.  Unless every record
/// list is empty, the trailing sections must hold at least one byte, so
/// every record list ends strictly before the buffer end as the decoder
/// demands.
///
/// The contract is the round-trip law: the built buffer decodes, the header
/// read back matches `h`, and the records read back are exactly the four
/// lists that went in.
pub fn encode_tile(
    h: &ValhallaTileHeader,
    nodes: &Vec<ValhallaNodeInfo>,
    transitions: &Vec<ValhallaNodeTransition>,
    edges: &Vec<ValhallaDirectedEdge>,
    restrictions: &Vec<ValhallaAccessRestriction>,
    tail: &Vec<u8>,
) -> (out: Vec<u8>)
    requires
        h.wf(),
        h.counts1.spec_node_count() == nodes@.len(),
        h.counts2.spec_transition_count() == transitions@.len(),
        h.counts1.spec_directed_edges_count() == edges@.len(),
        h.counts5.spec_access_restriction_count() == restrictions@.len(),
        tail@.len() >= 1 || (nodes@.len() == 0 && transitions@.len() == 0 && edges@.len() == 0
            && restrictions@.len() == 0),
        h.tile_size as int == HEADER_SIZE + NODE_INFO_SIZE * nodes@.len() + NODE_TRANSITION_SIZE
            * transitions@.len() + DIRECTED_EDGE_SIZE * edges@.len() + (
        if h.metadata.spec_has_ext_directededge() {
            DIRECTED_EDGE_EXT_SIZE * edges@.len()
        } else {
            0
        }) + ACCESS_RESTRICTION_SIZE * restrictions@.len() + tail@.len(),
    ensures
        out@.len() == h.tile_size,
        spec_decode_ok(out@),
        h.matches_bytes(out@),
        decoded_nodes(out@) == nodes@,
        decoded_transitions(out@) == transitions@,
        decoded_edges(out@) == edges@,
        decoded_restrictions(out@) == restrictions@,
        out@.subrange(spec_restrictions_end(out@), out@.len() as int) == tail@,
{
    let n_nodes = nodes.len();
    let n_transitions = transitions.len();
    let n_edges = edges.len();
    let n_restrictions = restrictions.len();
    let n_tail = tail.len();
    let has_ext = h.metadata.has_ext_directededge();

    let mut out: Vec<u8> = Vec::new();
    write_header(&mut out, h);
    let ghost hdr = out@;

    let nodes_end: usize = HEADER_SIZE + NODE_INFO_SIZE * n_nodes;
    let mut i: usize = 0;
    while i < n_nodes
        invariant
            i <= n_nodes,
            n_nodes == nodes@.len(),
            hdr.len() == HEADER_SIZE,
            nodes_end == HEADER_SIZE + NODE_INFO_SIZE * n_nodes,
            out@.len() == HEADER_SIZE + NODE_INFO_SIZE * i,
            out@.subrange(0, HEADER_SIZE as int) == hdr,
            forall|j: int|
                0 <= j < i ==> out@.subrange(
                    HEADER_SIZE + NODE_INFO_SIZE * j,
                    HEADER_SIZE + NODE_INFO_SIZE * j + NODE_INFO_SIZE,
                ) == spec_node_bytes(nodes@[j]),
        decreases n_nodes - i,
    {
        let ghost prev = out@;
        push_node(&mut out, &nodes[i]);
        proof {
            lemma_prefix_pointwise(prev, hdr, HEADER_SIZE as int);
            assert(out@.subrange(0, HEADER_SIZE as int) =~= hdr);
            assert forall|j: int| 0 <= j < i + 1 implies out@.subrange(
                HEADER_SIZE + NODE_INFO_SIZE * j,
                HEADER_SIZE + NODE_INFO_SIZE * j + NODE_INFO_SIZE,
            ) == spec_node_bytes(nodes@[j]) by {
                if j < i {
                    assert(out@.subrange(
                        HEADER_SIZE + NODE_INFO_SIZE * j,
                        HEADER_SIZE + NODE_INFO_SIZE * j + NODE_INFO_SIZE,
                    ) =~= prev.subrange(
                        HEADER_SIZE + NODE_INFO_SIZE * j,
                        HEADER_SIZE + NODE_INFO_SIZE * j + NODE_INFO_SIZE,
                    ));
                } else {
                    assert(out@.subrange(
                        HEADER_SIZE + NODE_INFO_SIZE * j,
                        HEADER_SIZE + NODE_INFO_SIZE * j + NODE_INFO_SIZE,
                    ) =~= spec_node_bytes(nodes@[j]));
                }
            }
        }
        i += 1;
    }
    let ghost nodes_done = out@;

    let transitions_end: usize = nodes_end + NODE_TRANSITION_SIZE * n_transitions;
    let mut i: usize = 0;
    while i < n_transitions
        invariant
            i <= n_transitions,
            n_transitions == transitions@.len(),
            nodes_done.len() == nodes_end,
            transitions_end == nodes_end + NODE_TRANSITION_SIZE * n_transitions,
            out@.len() == nodes_end + NODE_TRANSITION_SIZE * i,
            out@.subrange(0, nodes_end as int) == nodes_done,
            forall|j: int|
                0 <= j < i ==> out@.subrange(
                    nodes_end + NODE_TRANSITION_SIZE * j,
                    nodes_end + NODE_TRANSITION_SIZE * j + NODE_TRANSITION_SIZE,
                ) == spec_transition_bytes(transitions@[j]),
        decreases n_transitions - i,
    {
        let ghost prev = out@;
        push_transition(&mut out, &transitions[i]);
        proof {
            lemma_prefix_pointwise(prev, nodes_done, nodes_end as int);
            assert(out@.subrange(0, nodes_end as int) =~= nodes_done);
            assert forall|j: int| 0 <= j < i + 1 implies out@.subrange(
                nodes_end + NODE_TRANSITION_SIZE * j,
                nodes_end + NODE_TRANSITION_SIZE * j + NODE_TRANSITION_SIZE,
            ) == spec_transition_bytes(transitions@[j]) by {
                if j < i {
                    assert(out@.subrange(
                        nodes_end + NODE_TRANSITION_SIZE * j,
                        nodes_end + NODE_TRANSITION_SIZE * j + NODE_TRANSITION_SIZE,
                    ) =~= prev.subrange(
                        nodes_end + NODE_TRANSITION_SIZE * j,
                        nodes_end + NODE_TRANSITION_SIZE * j + NODE_TRANSITION_SIZE,
                    ));
                } else {
                    assert(out@.subrange(
                        nodes_end + NODE_TRANSITION_SIZE * j,
                        nodes_end + NODE_TRANSITION_SIZE * j + NODE_TRANSITION_SIZE,
                    ) =~= spec_transition_bytes(transitions@[j]));
                }
            }
        }
        i += 1;
    }
    let ghost transitions_done = out@;

    let edges_end: usize = transitions_end + DIRECTED_EDGE_SIZE * n_edges;
    let mut i: usize = 0;
    while i < n_edges
        invariant
            i <= n_edges,
            n_edges == edges@.len(),
            transitions_done.len() == transitions_end,
            edges_end == transitions_end + DIRECTED_EDGE_SIZE * n_edges,
            out@.len() == transitions_end + DIRECTED_EDGE_SIZE * i,
            out@.subrange(0, transitions_end as int) == transitions_done,
            forall|j: int|
                0 <= j < i ==> out@.subrange(
                    transitions_end + DIRECTED_EDGE_SIZE * j,
                    transitions_end + DIRECTED_EDGE_SIZE * j + DIRECTED_EDGE_SIZE,
                ) == spec_edge_bytes(edges@[j]),
        decreases n_edges - i,
    {
        let ghost prev = out@;
        push_edge(&mut out, &edges[i]);
        proof {
            lemma_prefix_pointwise(prev, transitions_done, transitions_end as int);
            assert(out@.subrange(0, transitions_end as int) =~= transitions_done);
            assert forall|j: int| 0 <= j < i + 1 implies out@.subrange(
                transitions_end + DIRECTED_EDGE_SIZE * j,
                transitions_end + DIRECTED_EDGE_SIZE * j + DIRECTED_EDGE_SIZE,
            ) == spec_edge_bytes(edges@[j]) by {
                if j < i {
                    assert(out@.subrange(
                        transitions_end + DIRECTED_EDGE_SIZE * j,
                        transitions_end + DIRECTED_EDGE_SIZE * j + DIRECTED_EDGE_SIZE,
                    ) =~= prev.subrange(
                        transitions_end + DIRECTED_EDGE_SIZE * j,
                        transitions_end + DIRECTED_EDGE_SIZE * j + DIRECTED_EDGE_SIZE,
                    ));
                } else {
                    assert(out@.subrange(
                        transitions_end + DIRECTED_EDGE_SIZE * j,
                        transitions_end + DIRECTED_EDGE_SIZE * j + DIRECTED_EDGE_SIZE,
                    ) =~= spec_edge_bytes(edges@[j]));
                }
            }
        }
        i += 1;
    }
    let ghost edges_done = out@;

    let ext_len: usize = if has_ext {
        DIRECTED_EDGE_EXT_SIZE * n_edges
    } else {
        0
    };
    let restrictions_off: usize = edges_end + ext_len;
    let mut i: usize = 0;
    while i < ext_len
        invariant
            i <= ext_len,
            edges_done.len() == edges_end,
            restrictions_off == edges_end + ext_len,
            out@.len() == edges_end + i,
            out@.subrange(0, edges_end as int) == edges_done,
        decreases ext_len - i,
    {
        let ghost prev = out@;
        out.push(0u8);
        proof {
            lemma_prefix_pointwise(prev, edges_done, edges_end as int);
            assert(out@.subrange(0, edges_end as int) =~= edges_done);
        }
        i += 1;
    }
    let ghost ext_done = out@;

    let restrictions_end: usize = restrictions_off + ACCESS_RESTRICTION_SIZE * n_restrictions;
    let mut i: usize = 0;
    while i < n_restrictions
        invariant
            i <= n_restrictions,
            n_restrictions == restrictions@.len(),
            ext_done.len() == restrictions_off,
            restrictions_end == restrictions_off + ACCESS_RESTRICTION_SIZE * n_restrictions,
            out@.len() == restrictions_off + ACCESS_RESTRICTION_SIZE * i,
            out@.subrange(0, restrictions_off as int) == ext_done,
            forall|j: int|
                0 <= j < i ==> out@.subrange(
                    restrictions_off + ACCESS_RESTRICTION_SIZE * j,
                    restrictions_off + ACCESS_RESTRICTION_SIZE * j + ACCESS_RESTRICTION_SIZE,
                ) == spec_restriction_bytes(restrictions@[j]),
        decreases n_restrictions - i,
    {
        let ghost prev = out@;
        push_restriction(&mut out, &restrictions[i]);
        proof {
            lemma_prefix_pointwise(prev, ext_done, restrictions_off as int);
            assert(out@.subrange(0, restrictions_off as int) =~= ext_done);
            assert forall|j: int| 0 <= j < i + 1 implies out@.subrange(
                restrictions_off + ACCESS_RESTRICTION_SIZE * j,
                restrictions_off + ACCESS_RESTRICTION_SIZE * j + ACCESS_RESTRICTION_SIZE,
            ) == spec_restriction_bytes(restrictions@[j]) by {
                if j < i {
                    assert(out@.subrange(
                        restrictions_off + ACCESS_RESTRICTION_SIZE * j,
                        restrictions_off + ACCESS_RESTRICTION_SIZE * j + ACCESS_RESTRICTION_SIZE,
                    ) =~= prev.subrange(
                        restrictions_off + ACCESS_RESTRICTION_SIZE * j,
                        restrictions_off + ACCESS_RESTRICTION_SIZE * j + ACCESS_RESTRICTION_SIZE,
                    ));
                } else {
                    assert(out@.subrange(
                        restrictions_off + ACCESS_RESTRICTION_SIZE * j,
                        restrictions_off + ACCESS_RESTRICTION_SIZE * j + ACCESS_RESTRICTION_SIZE,
                    ) =~= spec_restriction_bytes(restrictions@[j]));
                }
            }
        }
        i += 1;
    }
    let ghost restrictions_done = out@;

    let mut i: usize = 0;
    while i < n_tail
        invariant
            i <= n_tail,
            n_tail == tail@.len(),
            restrictions_done.len() == restrictions_end,
            out@.len() == restrictions_end + i,
            out@.subrange(0, restrictions_end as int) == restrictions_done,
            forall|j: int| 0 <= j < i ==> out@[restrictions_end + j] == tail@[j],
        decreases n_tail - i,
    {
        let ghost prev = out@;
        out.push(tail[i]);
        proof {
            lemma_prefix_pointwise(prev, restrictions_done, restrictions_end as int);
            assert(out@.subrange(0, restrictions_end as int) =~= restrictions_done);
        }
        i += 1;
    }

    proof {
        let b = out@;
        // Reach each finished region of the final buffer from its snapshot.
        lemma_prefix_pointwise(b, restrictions_done, restrictions_end as int);
        lemma_prefix_pointwise(restrictions_done, ext_done, restrictions_off as int);
        lemma_prefix_pointwise(ext_done, edges_done, edges_end as int);
        lemma_prefix_pointwise(edges_done, transitions_done, transitions_end as int);
        lemma_prefix_pointwise(transitions_done, nodes_done, nodes_end as int);
        lemma_prefix_pointwise(nodes_done, hdr, HEADER_SIZE as int);

        assert(b.subrange(0, HEADER_SIZE as int) =~= hdr);
        lemma_matches_prefix(*h, b, hdr);

        // The count and size words of the built buffer are h's.
        assert(spec_node_count(b) == nodes@.len());
        assert(spec_transition_count(b) == transitions@.len());
        assert(spec_edge_count(b) == edges@.len());
        assert(spec_restriction_count(b) == restrictions@.len());
        assert(spec_nodes_end(b) == nodes_end);
        assert(spec_transitions_end(b) == transitions_end);
        assert(spec_edges_end(b) == edges_end);
        assert(spec_restrictions_off(b) == restrictions_off);
        assert(spec_restrictions_end(b) == restrictions_end);

        assert forall|j: int| 0 <= j < nodes@.len() implies spec_node_at(
            b,
            HEADER_SIZE + NODE_INFO_SIZE * j,
        ) == nodes@[j] by {
            assert(b.subrange(
                HEADER_SIZE + NODE_INFO_SIZE * j,
                HEADER_SIZE + NODE_INFO_SIZE * j + NODE_INFO_SIZE,
            ) =~= nodes_done.subrange(
                HEADER_SIZE + NODE_INFO_SIZE * j,
                HEADER_SIZE + NODE_INFO_SIZE * j + NODE_INFO_SIZE,
            ));
            lemma_node_extract(b, HEADER_SIZE + NODE_INFO_SIZE * j, nodes@[j]);
        }
        assert(decoded_nodes(b) =~= nodes@);

        assert forall|j: int| 0 <= j < transitions@.len() implies spec_transition_at(
            b,
            nodes_end + NODE_TRANSITION_SIZE * j,
        ) == transitions@[j] by {
            assert(b.subrange(
                nodes_end + NODE_TRANSITION_SIZE * j,
                nodes_end + NODE_TRANSITION_SIZE * j + NODE_TRANSITION_SIZE,
            ) =~= transitions_done.subrange(
                nodes_end + NODE_TRANSITION_SIZE * j,
                nodes_end + NODE_TRANSITION_SIZE * j + NODE_TRANSITION_SIZE,
            ));
            lemma_transition_extract(b, nodes_end + NODE_TRANSITION_SIZE * j, transitions@[j]);
        }
        assert(decoded_transitions(b) =~= transitions@);

        assert forall|j: int| 0 <= j < edges@.len() implies spec_edge_at(
            b,
            transitions_end + DIRECTED_EDGE_SIZE * j,
        ) == edges@[j] by {
            assert(b.subrange(
                transitions_end + DIRECTED_EDGE_SIZE * j,
                transitions_end + DIRECTED_EDGE_SIZE * j + DIRECTED_EDGE_SIZE,
            ) =~= edges_done.subrange(
                transitions_end + DIRECTED_EDGE_SIZE * j,
                transitions_end + DIRECTED_EDGE_SIZE * j + DIRECTED_EDGE_SIZE,
            ));
            lemma_edge_extract(b, transitions_end + DIRECTED_EDGE_SIZE * j, edges@[j]);
        }
        assert(decoded_edges(b) =~= edges@);

        assert forall|j: int| 0 <= j < restrictions@.len() implies spec_restriction_at(
            b,
            restrictions_off + ACCESS_RESTRICTION_SIZE * j,
        ) == restrictions@[j] by {
            assert(b.subrange(
                restrictions_off + ACCESS_RESTRICTION_SIZE * j,
                restrictions_off + ACCESS_RESTRICTION_SIZE * j + ACCESS_RESTRICTION_SIZE,
            ) =~= restrictions_done.subrange(
                restrictions_off + ACCESS_RESTRICTION_SIZE * j,
                restrictions_off + ACCESS_RESTRICTION_SIZE * j + ACCESS_RESTRICTION_SIZE,
            ));
            lemma_restriction_extract(
                b,
                restrictions_off + ACCESS_RESTRICTION_SIZE * j,
                restrictions@[j],
            );
        }
        assert(decoded_restrictions(b) =~= restrictions@);

        assert(b.subrange(spec_restrictions_end(b), b.len() as int) =~= tail@);
        assert(spec_decode_ok(b));
    }
    out
}

} // verus!

