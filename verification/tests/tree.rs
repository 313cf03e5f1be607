use launch_code::tree::SyntaxTree;

// 0 ── 1 ── 3
//  └── 2 ── 4 ── 5
fn sample() -> SyntaxTree {
    let mut tree = SyntaxTree::new();
    assert_eq!(tree.add_root(), Some(0));
    assert_eq!(tree.add_child(0), Some(1));
    assert_eq!(tree.add_child(0), Some(2));
    assert_eq!(tree.add_child(1), Some(3));
    assert_eq!(tree.add_child(2), Some(4));
    assert_eq!(tree.add_child(4), Some(5));
    tree
}

#[test]
fn new_tree_is_empty() {
    let tree = SyntaxTree::new();
    assert_eq!(tree.len(), 0);
    assert_eq!(tree.get_parent(0), 0);
    assert!(tree.child_of(0, 0));
    assert!(!tree.child_of(1, 0));
}

#[test]
fn nodes_are_numbered_in_order() {
    let tree = sample();
    assert_eq!(tree.len(), 6);
}

#[test]
fn add_child_needs_its_parent() {
    let mut tree = SyntaxTree::new();
    assert_eq!(tree.add_child(0), None);
    assert_eq!(tree.len(), 0);
    assert_eq!(tree.add_root(), Some(0));
    assert_eq!(tree.add_child(1), None);
    assert_eq!(tree.add_child(0), Some(1));
    assert_eq!(tree.len(), 2);
}

#[test]
fn parent_links() {
    let tree = sample();
    assert_eq!(tree.get_parent(0), 0);
    assert_eq!(tree.get_parent(1), 0);
    assert_eq!(tree.get_parent(2), 0);
    assert_eq!(tree.get_parent(3), 1);
    assert_eq!(tree.get_parent(4), 2);
    assert_eq!(tree.get_parent(5), 4);
}

#[test]
fn a_node_outside_the_tree_has_no_parent() {
    let tree = sample();
    assert_eq!(tree.get_parent(6), 6);
    assert_eq!(tree.get_parent(u32::MAX), u32::MAX);
    assert!(tree.child_of(77, 77));
    assert!(!tree.child_of(77, 0));
}

#[test]
fn a_node_is_its_own_descendant() {
    let tree = sample();
    for id in 0..6 {
        assert!(tree.child_of(id, id));
    }
}

#[test]
fn descendants_at_any_depth() {
    let tree = sample();
    assert!(tree.child_of(5, 4));
    assert!(tree.child_of(5, 2));
    assert!(tree.child_of(5, 0));
    assert!(tree.child_of(3, 1));
    assert!(tree.child_of(3, 0));
}

#[test]
fn no_descendant_across_or_upward() {
    let tree = sample();
    assert!(!tree.child_of(5, 1));
    assert!(!tree.child_of(5, 3));
    assert!(!tree.child_of(3, 2));
    assert!(!tree.child_of(2, 4));
    assert!(!tree.child_of(0, 1));
    assert!(!tree.child_of(1, 2));
}

#[test]
fn two_roots_are_apart() {
    let mut tree = SyntaxTree::new();
    assert_eq!(tree.add_root(), Some(0));
    assert_eq!(tree.add_root(), Some(1));
    assert_eq!(tree.add_child(1), Some(2));
    assert_eq!(tree.get_parent(1), 1);
    assert!(tree.child_of(2, 1));
    assert!(!tree.child_of(2, 0));
    assert!(!tree.child_of(1, 0));
}
