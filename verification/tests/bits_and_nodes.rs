use arborist::fenwick::{IndexView, Length, log2_bin, lsb};
use arborist::tree_kv::NodeKV;
use arborist::{Height, NodeSide, NodeType};

#[test]
fn lsb_is_the_largest_power_of_two_divisor() {
    assert_eq!(lsb(12), 4);
    assert_eq!(lsb(1), 1);
    assert_eq!(lsb(8), 8);
    assert_eq!(lsb(6), 2);
    assert_eq!(lsb(7), 1);
    assert_eq!(lsb(96), 32);
    assert_eq!(lsb(usize::MAX), 1);
    for i in 1usize..2000 {
        let l = lsb(i);
        assert_eq!(i % l, 0);
        assert_eq!((i / l) % 2, 1);
    }
}

#[test]
fn log2_bin_finds_the_floor_logarithm() {
    assert_eq!(log2_bin(&0), 1);
    assert_eq!(log2_bin(&1), 1);
    assert_eq!(log2_bin(&2), 1);
    assert_eq!(log2_bin(&3), 1);
    assert_eq!(log2_bin(&4), 2);
    assert_eq!(log2_bin(&7), 2);
    assert_eq!(log2_bin(&8), 3);
    assert_eq!(log2_bin(&16), 4);
    assert_eq!(log2_bin(&17), 4);
    assert_eq!(log2_bin(&(usize::MAX >> 1)), usize::BITS as usize - 2);
    for i in 2usize..5000 {
        let r = log2_bin(&i);
        assert_eq!(i >> r, 1);
    }
}

#[test]
fn index_view_caches_the_lowest_set_bit() {
    let mut view = IndexView::new(12);
    assert_eq!(view.index, 12);
    assert_eq!(view.lsb, 4);
    assert_eq!(view.length(), 4);
    view.update(6);
    assert_eq!(view.index, 6);
    assert_eq!(view.lsb, 2);
    view.update(0);
    assert_eq!(view.lsb, 0);
    assert_eq!(IndexView::new(1), IndexView { index: 1, lsb: 1 });
}

#[test]
fn index_view_operators_act_on_the_held_index() {
    let view = IndexView::new(12);
    assert_eq!(view | 1, 13);
    assert_eq!(view ^ 4, 8);
    assert_eq!(view & 6, 4);
    assert_eq!(view + 3, 15);
    assert_eq!(view - 8, 4);
    assert!(view == 12);
    assert!(view != 11);
}

#[test]
fn node_side_reads_the_bit_above_the_lowest_set_bit() {
    assert_eq!(NodeSide::from(1usize), NodeSide::Left);
    assert_eq!(NodeSide::from(3usize), NodeSide::Right);
    assert_eq!(NodeSide::from(4usize), NodeSide::Left);
    assert_eq!(NodeSide::from(12usize), NodeSide::Right);
    assert_eq!(NodeSide::from(&IndexView::new(4)), NodeSide::Left);
    assert_eq!(NodeSide::from(&IndexView::new(12)), NodeSide::Right);
}

#[test]
fn node_type_reads_index_parity() {
    assert_eq!(NodeType::from(1usize), NodeType::Leaf);
    assert_eq!(NodeType::from(2usize), NodeType::Node);
    assert_eq!(NodeType::from(15usize), NodeType::Leaf);
    assert_eq!(NodeType::from(&IndexView::new(6)), NodeType::Node);
    assert_eq!(NodeType::from(&IndexView::new(7)), NodeType::Leaf);
}

#[test]
fn node_kv_hands_out_its_value() {
    let node: NodeKV<u32, &str> = NodeKV::Occupied(7, "seven");
    assert_eq!(node.inner(), &"seven");
    let mut node: NodeKV<u32, String> = NodeKV::Occupied(7, String::from("seven"));
    node.inner_mut().push_str(" dwarves");
    assert_eq!(node.unwrap(), "seven dwarves");
}

#[test]
fn node_kv_defaults_to_empty() {
    let node: NodeKV<u32, u32> = Default::default();
    assert!(matches!(node, NodeKV::Empty));
}

#[test]
fn height_is_the_floor_logarithm_of_the_length() {
    let mut v: Vec<u64> = Vec::new();
    v.push(1);
    assert_eq!(v.height(), 1);
    for i in 1..16 {
        v.push(i);
    }
    assert_eq!(v.height(), 4);
    v.push(99);
    assert_eq!(v.height(), 4);
}
