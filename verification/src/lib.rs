//! Decoder and multi-tile graph assembler for a bit-packed binary map-tile
//! format.
//!
//! A tile arrives as one raw byte buffer: a fixed-size header followed by
//! fixed-size node, node-transition, directed-edge and access-restriction
//! records, then further sections that are skipped, not parsed.  The decoder
//! validates the buffer against the header's declared size.  Records
//! reference each other — possibly across tiles — through a packed 64-bit
//! value holding a hierarchy level, a tile identifier and an intra-tile
//! record index.
//!
//! [`tile::InfernoTile::from_valhalla`] decodes one buffer;
//! [`encode::encode_tile`] is its proved inverse;
//! [`graph::InfernoTileGraph::new`] assembles a batch of decoded tiles and
//! recovers each directed edge's cross-tile geometry.

pub mod bytes_util;
pub mod checked_vec;
pub mod encode;
pub mod entity;
pub mod graph;
pub mod graph_id;
pub mod header;
pub mod records;
pub mod tile;
