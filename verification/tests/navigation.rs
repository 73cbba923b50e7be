use arborist::fenwick::{FenwickTreeError, VirtualTreeView};
use arborist::{Direction, NodeSide, NodeType, TreeWalker};

fn sixteen() -> Vec<u64> {
    let mut v: Vec<u64> = Vec::new();
    for i in 0..16 {
        v.push(i * 10);
    }
    v
}

#[test]
fn up_down_sibling_consistency() {
    let v = sixteen();
    let mut w = VirtualTreeView::new(&v, 4).unwrap();
    assert_eq!(w.traverse(Direction::Up), Ok(8));
    assert_eq!(w.peek(Direction::Down(NodeSide::Left)), Ok(4));
    assert_eq!(w.peek(Direction::Down(NodeSide::Right)), Ok(12));
    assert_eq!(w.traverse(Direction::Down(NodeSide::Left)), Ok(4));
    assert_eq!(w.sibling(), Ok(12));
    assert_eq!(w.seek(12), Ok(12));
    assert_eq!(w.sibling(), Ok(4));
}

#[test]
fn up_from_eight_is_out_of_bounds() {
    let v = sixteen();
    let mut w = VirtualTreeView::new(&v, 8).unwrap();
    assert_eq!(
        w.peek(Direction::Up),
        Err(FenwickTreeError::OutOfBounds { index: 16, length: 16 })
    );
    assert_eq!(
        w.traverse(Direction::Up),
        Err(FenwickTreeError::OutOfBounds { index: 16, length: 16 })
    );
    // The failed traversal left the walker where it was.
    assert_eq!(w.current(), Ok(8));
}

#[test]
fn left_and_right_move_between_siblings() {
    let v = sixteen();
    let mut w = VirtualTreeView::new(&v, 4).unwrap();
    assert_eq!(w.traverse(Direction::Right), Ok(12));
    assert_eq!(w.traverse(Direction::Left), Ok(4));
    // Left saturates at the floor of the range and then fails validation.
    assert_eq!(
        w.peek(Direction::Left),
        Err(FenwickTreeError::OutOfBounds { index: 0, length: 16 })
    );
}

#[test]
fn type_is_leaf_iff_index_is_odd() {
    let v = sixteen();
    let mut w = VirtualTreeView::new(&v, 1).unwrap();
    for index in 1..16 {
        w.seek(index).unwrap();
        if index % 2 == 1 {
            assert_eq!(w.type_(), NodeType::Leaf);
        } else {
            assert_eq!(w.type_(), NodeType::Node);
        }
    }
}

#[test]
fn side_follows_bit_above_lowest_set_bit() {
    let v = sixteen();
    let mut w = VirtualTreeView::new(&v, 1).unwrap();
    let expected = [
        (1, NodeSide::Left),
        (3, NodeSide::Right),
        (4, NodeSide::Left),
        (5, NodeSide::Left),
        (7, NodeSide::Right),
        (8, NodeSide::Left),
        (12, NodeSide::Right),
    ];
    for (index, side) in expected {
        w.seek(index).unwrap();
        assert_eq!(w.side(), side);
    }
}

#[test]
fn construction_with_zero_index_fails() {
    let v = sixteen();
    assert_eq!(
        VirtualTreeView::new(&v, 0).unwrap_err(),
        FenwickTreeError::OutOfBounds { index: 0, length: 16 }
    );
}

#[test]
fn reset_lands_on_unaddressable_sentinel() {
    let v = sixteen();
    let mut w = VirtualTreeView::new(&v, 5).unwrap();
    w.reset();
    assert_eq!(
        w.current(),
        Err(FenwickTreeError::OutOfBounds { index: 16, length: 16 })
    );
    // One Down traversal brings the walker back into the addressable range.
    assert_eq!(w.traverse(Direction::Down(NodeSide::Left)), Ok(8));
    assert_eq!(w.current(), Ok(8));
}

#[test]
fn probe_and_seek_validate_against_the_bound() {
    let v = sixteen();
    let mut w = VirtualTreeView::new(&v, 4).unwrap();
    assert_eq!(
        w.probe(0),
        Err(FenwickTreeError::OutOfBounds { index: 0, length: 16 })
    );
    assert_eq!(
        w.probe(16),
        Err(FenwickTreeError::OutOfBounds { index: 16, length: 16 })
    );
    assert_eq!(
        w.probe(25),
        Err(FenwickTreeError::OutOfBounds { index: 25, length: 16 })
    );
    assert_eq!(
        w.seek(0),
        Err(FenwickTreeError::OutOfBounds { index: 0, length: 16 })
    );
    assert_eq!(
        w.seek(16),
        Err(FenwickTreeError::OutOfBounds { index: 16, length: 16 })
    );
    for path in 1..16 {
        assert_eq!(w.probe(path), Ok(path));
        assert_eq!(w.seek(path), Ok(path));
        assert_eq!(w.current(), Ok(path));
    }
}

#[test]
fn probe_agrees_with_traverse() {
    let v = sixteen();
    let mut w = VirtualTreeView::new(&v, 4).unwrap();
    let up = w.probe(8).unwrap();
    assert_eq!(w.traverse(Direction::Up), Ok(up));
    let down = w.probe(12).unwrap();
    assert_eq!(w.traverse(Direction::Down(NodeSide::Right)), Ok(down));
}

#[test]
fn down_from_leaf_fails() {
    let v = sixteen();
    let mut w = VirtualTreeView::new(&v, 5).unwrap();
    assert_eq!(
        w.peek(Direction::Down(NodeSide::Left)),
        Err(FenwickTreeError::OutOfBounds { index: 5, length: 16 })
    );
    assert_eq!(
        w.traverse(Direction::Down(NodeSide::Right)),
        Err(FenwickTreeError::OutOfBounds { index: 5, length: 16 })
    );
    assert_eq!(w.current(), Ok(5));
}

#[test]
fn sibling_twice_returns_to_start() {
    let v = sixteen();
    let mut w = VirtualTreeView::new(&v, 1).unwrap();
    for index in 1..16 {
        w.seek(index).unwrap();
        if let Ok(s) = w.sibling() {
            w.seek(s).unwrap();
            assert_eq!(w.sibling(), Ok(index));
        }
    }
}
