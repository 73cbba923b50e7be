use arborist::fenwick::{FenwickTreeError, Length, StatefulTreeView, StatefulTreeViewMut};
use arborist::{Direction, NodeSide, TreeWalker, TreeWalkerMut};

fn sixteen() -> Vec<u64> {
    let mut v: Vec<u64> = Vec::new();
    for i in 0..16 {
        v.push(i * 10);
    }
    v
}

#[test]
fn stateful_lookups_resolve_into_the_collection() {
    let v = sixteen();
    let mut w = StatefulTreeView::new(&v, 4).unwrap();
    assert_eq!(w.current(), Ok(&40));
    assert_eq!(w.peek(Direction::Up), Ok(&80));
    assert_eq!(w.sibling(), Ok(&120));
    assert_eq!(w.probe(7), Ok(&70));
    assert_eq!(w.traverse(Direction::Up), Ok(&80));
    assert_eq!(w.seek(3), Ok(&30));
    assert_eq!(w.length(), 16);
}

#[test]
fn stateful_construction_with_zero_index_fails() {
    let v = sixteen();
    assert!(matches!(
        StatefulTreeView::new(&v, 0),
        Err(FenwickTreeError::OutOfBounds { index: 0, length: 16 })
    ));
    let mut m = sixteen();
    assert!(matches!(
        StatefulTreeViewMut::new(&mut m, 0),
        Err(FenwickTreeError::OutOfBounds { index: 0, length: 16 })
    ));
}

#[test]
fn stateful_bound_is_the_live_collection_length() {
    let v = sixteen();
    let w = StatefulTreeView::new(&v, 4).unwrap();
    assert_eq!(
        w.probe(16),
        Err(FenwickTreeError::OutOfBounds { index: 16, length: 16 })
    );
    let short: Vec<u64> = vec![1, 2, 3];
    let s = StatefulTreeView::new(&short, 1).unwrap();
    assert_eq!(s.probe(2), Ok(&3));
    assert_eq!(
        s.probe(3),
        Err(FenwickTreeError::OutOfBounds { index: 3, length: 3 })
    );
}

#[test]
fn stateful_reset_follows_collection_length() {
    let v = sixteen();
    let mut w = StatefulTreeView::new(&v, 3).unwrap();
    w.reset();
    assert_eq!(
        w.current(),
        Err(FenwickTreeError::OutOfBounds { index: 16, length: 16 })
    );
    assert_eq!(w.traverse(Direction::Down(NodeSide::Left)), Ok(&80));
}

#[test]
fn mutable_walker_writes_reach_the_collection() {
    let mut v = sixteen();
    {
        let mut w = StatefulTreeViewMut::new(&mut v, 4).unwrap();
        *w.current_mut().unwrap() = 999;
        *w.sibling_mut().unwrap() = 444;
        *w.peek_mut(Direction::Up).unwrap() = 555;
        *w.probe_mut(1).unwrap() = 111;
        assert_eq!(w.current(), Ok(&999));
    }
    assert_eq!(v[4], 999);
    assert_eq!(v[12], 444);
    assert_eq!(v[8], 555);
    assert_eq!(v[1], 111);
    assert_eq!(v[2], 20);
}

#[test]
fn mutable_walker_rejects_out_of_bounds_lookups() {
    let mut v = sixteen();
    let mut w = StatefulTreeViewMut::new(&mut v, 8).unwrap();
    assert_eq!(
        w.peek_mut(Direction::Up),
        Err(FenwickTreeError::OutOfBounds { index: 16, length: 16 })
    );
    assert_eq!(
        w.probe_mut(0),
        Err(FenwickTreeError::OutOfBounds { index: 0, length: 16 })
    );
    assert_eq!(w.seek(8), Ok(&80));
    assert_eq!(
        w.sibling_mut(),
        Err(FenwickTreeError::OutOfBounds { index: 24, length: 16 })
    );
}

#[test]
fn mutable_walker_navigates_like_the_virtual_one() {
    let mut v = sixteen();
    let mut w = StatefulTreeViewMut::new(&mut v, 4).unwrap();
    assert_eq!(w.traverse(Direction::Up), Ok(&80));
    assert_eq!(w.peek(Direction::Down(NodeSide::Left)), Ok(&40));
    assert_eq!(w.peek(Direction::Down(NodeSide::Right)), Ok(&120));
    assert_eq!(
        w.traverse(Direction::Up),
        Err(FenwickTreeError::OutOfBounds { index: 16, length: 16 })
    );
    assert_eq!(w.current(), Ok(&80));
}
