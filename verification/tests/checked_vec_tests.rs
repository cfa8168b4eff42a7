use inferno_tiles::checked_vec::CheckedVec;
use inferno_tiles::graph_id::{GraphEntityId, TileId};
use inferno_tiles::records::ValhallaNodeTransition;

fn t(bits: u64) -> ValhallaNodeTransition {
    ValhallaNodeTransition { bits }
}

#[test]
fn push_len_get() {
    let mut cv: CheckedVec<ValhallaNodeTransition> = CheckedVec::new(TileId::new(7));
    assert!(cv.is_empty());
    cv.push(t(10));
    cv.push(t(20));
    assert_eq!(cv.len(), 2);
    assert!(!cv.is_empty());

    let ok = GraphEntityId::from_tile_index(&TileId::new(7), 1);
    let entity = cv.get(&ok).unwrap();
    assert_eq!(entity.inner().bits, 20);
    assert_eq!(entity.tile_id().value(), 7);

    let out_of_range = GraphEntityId::from_tile_index(&TileId::new(7), 2);
    assert!(cv.get(&out_of_range).is_none());
}

#[test]
fn mismatched_tile_is_observable_but_not_rejected() {
    // A reference into another tile is answered from this sequence anyway —
    // the index portion alone decides — and the mismatch is observable.
    let mut cv: CheckedVec<ValhallaNodeTransition> = CheckedVec::new(TileId::new(7));
    cv.push(t(10));
    let foreign = GraphEntityId::from_tile_index(&TileId::new(8), 0);
    assert!(cv.tile_mismatch(&foreign));
    let entity = cv.get(&foreign).unwrap();
    assert_eq!(entity.inner().bits, 10);
    // The entity is tagged with the answering sequence's own tile.
    assert_eq!(entity.tile_id().value(), 7);

    let own = GraphEntityId::from_tile_index(&TileId::new(7), 0);
    assert!(!cv.tile_mismatch(&own));
}

#[test]
fn insert_remove_pop_clear() {
    let mut cv: CheckedVec<ValhallaNodeTransition> = CheckedVec::new(TileId::new(1));
    cv.push(t(1));
    cv.push(t(3));
    assert!(cv.insert(1, t(2)).is_ok());
    assert_eq!(cv.len(), 3);
    assert!(cv.insert(4, t(9)).is_err());

    assert_eq!(cv.remove(1).unwrap().bits, 2);
    assert!(cv.remove(5).is_none());

    assert_eq!(cv.pop().unwrap().bits, 3);
    assert_eq!(cv.pop().unwrap().bits, 1);
    assert!(cv.pop().is_none());

    cv.push(t(4));
    cv.clear();
    assert!(cv.is_empty());
}

#[test]
fn slice_and_at_and_into_inner() {
    let mut cv: CheckedVec<ValhallaNodeTransition> = CheckedVec::new(TileId::new(3));
    cv.reserve_exact(4);
    for i in 0..4 {
        cv.push(t(i));
    }
    assert_eq!(cv.at(2).bits, 2);
    let start = GraphEntityId::from_tile_index(&TileId::new(3), 1);
    let s = cv.slice(start, 2);
    assert_eq!(s.len(), 2);
    assert_eq!(s[0].bits, 1);
    assert_eq!(s[1].bits, 2);

    let inner = cv.into_inner();
    assert_eq!(inner.len(), 4);
    assert_eq!(inner[3].bits, 3);
}
