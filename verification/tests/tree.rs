//! Tests for the arena-indexed tree container.

use bough::output::borders::{connections_to_unicode, BorderStyle, BorderWeight, Connections};
use bough::{ArenaTree, BasicNode, Error, ErrorKind, TreeItem};

fn create_test_node(parent: usize) -> BasicNode {
    BasicNode {
        parent: Some(parent),
        children: Vec::new(),
    }
}

fn create_test_tree() -> ArenaTree<BasicNode, usize> {
    let root = BasicNode {
        parent: None,
        children: Vec::new(),
    };

    let mut tree = ArenaTree::empty(10).root(root);

    let root_children: Vec<BasicNode> = vec![
        BasicNode {
            parent: Some(tree.root),
            children: Vec::new(),
        },
        BasicNode {
            parent: Some(tree.root),
            children: Vec::new(),
        },
    ];

    for child in root_children {
        let _ = tree.insert_node(child);
    }

    tree
}

#[test]
fn test_node_depth() {
    let _root = BasicNode {
        children: Vec::new(),
        parent: None,
    };

    let tree = create_test_tree();

    assert_eq!(tree.node_depth(1), Some(1));
}

#[test]
fn depth_of_root_is_zero_and_children_one_deeper() {
    let mut tree = create_test_tree();
    assert_eq!(tree.node_depth(0), Some(0));
    assert_eq!(tree.node_depth(1), Some(1));
    assert_eq!(tree.node_depth(2), Some(1));
    let grandchild = create_test_node(1);
    let id = tree.insert_node(grandchild).unwrap();
    assert_eq!(tree.node_depth(id), Some(tree.node_depth(1).unwrap() + 1));
}

#[test]
fn depth_of_dead_id_is_none() {
    let tree = create_test_tree();
    assert_eq!(tree.node_depth(17), None);
}

#[test]
fn depth_is_none_when_the_chain_hits_a_dead_link() {
    let mut tree = create_test_tree();
    tree.get_node_mut(2).unwrap().set_parent(40);
    assert_eq!(tree.node_depth(2), None);
}

#[test]
fn error_new_pairs_kind_and_message() {
    let e = Error::new(ErrorKind::DoesNotExist, "no such node");
    assert_eq!(e.kind, ErrorKind::DoesNotExist);
    assert_eq!(e.message, "no such node");
}

#[test]
fn insert_without_parent_fails_and_leaves_tree_unchanged() {
    let mut tree = create_test_tree();
    let nodes_before = tree.nodes.clone();
    let free_before = tree.free.clone();
    let root_before = tree.root;

    let err = tree.insert_node(BasicNode {
        parent: None,
        children: Vec::new(),
    });
    assert_eq!(err.unwrap_err().kind, ErrorKind::NeedsParent);
    assert_eq!(tree.nodes, nodes_before);
    assert_eq!(tree.free, free_before);
    assert_eq!(tree.root, root_before);
}

#[test]
fn insert_under_dead_parent_fails_and_leaves_tree_unchanged() {
    let mut tree = create_test_tree();
    let nodes_before = tree.nodes.clone();
    let free_before = tree.free.clone();

    let err = tree.insert_node(create_test_node(42));
    assert_eq!(err.unwrap_err().kind, ErrorKind::DoesNotExist);
    assert_eq!(tree.nodes, nodes_before);
    assert_eq!(tree.free, free_before);
}

#[test]
fn insert_into_rootless_tree_fails_with_not_initialized() {
    let mut tree: ArenaTree<BasicNode, usize> = ArenaTree::empty(4);
    let err = tree.insert_node(create_test_node(0));
    assert_eq!(err.unwrap_err().kind, ErrorKind::NotInitialized);
    assert_eq!(tree.nodes.len(), 0);
    assert_eq!(tree.free.len(), 0);
}

#[test]
fn freed_id_is_reused_and_reads_the_new_occupant() {
    let mut tree = create_test_tree();
    assert_eq!(tree.len(), 3);

    // Retire node 1: its slot is emptied and its id joins the free list.
    tree.nodes[1] = None;
    tree.free.push(1);
    assert_eq!(tree.len(), 2);

    // The next insertion reuses id 1 (most recently freed), and reading the
    // old handle now yields the new occupant, not an error.
    let replacement = create_test_node(2);
    let id = tree.insert_node(replacement).unwrap();
    assert_eq!(id, 1);
    assert_eq!(tree.len(), 3);
    assert_eq!(tree.get_node(1).unwrap().parent(), Some(2));
    assert_eq!(tree.get_node(2).unwrap().children(), &vec![1]);
}

#[test]
fn fresh_ids_extend_storage_when_no_id_is_free() {
    let mut tree = create_test_tree();
    assert_eq!(tree.nodes.len(), 3);
    let id = tree.insert_node(create_test_node(0)).unwrap();
    assert_eq!(id, 3);
    assert_eq!(tree.nodes.len(), 4);
}

#[test]
fn get_node_handles_dead_and_out_of_range_ids() {
    let mut tree = create_test_tree();
    assert!(tree.get_node(0).is_some());
    assert!(tree.get_node(3).is_none());
    assert!(tree.get_node(usize::MAX).is_none());
    assert!(tree.get_node_mut(99).is_none());
}

#[test]
fn get_node_mut_writes_through() {
    let mut tree = create_test_tree();
    tree.get_node_mut(2).unwrap().set_parent(1);
    assert_eq!(tree.get_node(2).unwrap().parent(), Some(1));
}

#[test]
fn find_node_returns_first_match_in_storage_order() {
    let tree = create_test_tree();
    let child = create_test_node(0);
    assert_eq!(tree.find_node(&child), Some(1));
    let absent = create_test_node(7);
    assert_eq!(tree.find_node(&absent), None);
}

#[test]
fn copy_node_clones_under_a_new_parent() {
    let mut tree = create_test_tree();
    let id = tree.copy_node(1, 2).unwrap();
    assert_eq!(id, 3);
    assert_eq!(tree.get_node(id).unwrap().parent(), Some(2));
    // The original is untouched and independent of the copy.
    assert_eq!(tree.get_node(1).unwrap().parent(), Some(0));
    assert_eq!(tree.get_node(2).unwrap().children(), &vec![3]);
}

#[test]
fn copy_node_of_dead_source_fails() {
    let mut tree = create_test_tree();
    let err = tree.copy_node(9, 0);
    assert_eq!(err.unwrap_err().kind, ErrorKind::DoesNotExist);
}

#[test]
fn assigned_nodes_lists_occupied_slots_in_storage_order() {
    let mut tree = create_test_tree();
    tree.nodes[1] = None;
    tree.free.push(1);
    let assigned = tree.assigned_nodes();
    assert_eq!(assigned.len(), 2);
    assert_eq!(assigned[0].parent(), None);
    assert_eq!(assigned[1].parent(), Some(0));
}

#[test]
fn new_builds_a_rooted_tree_directly() {
    let tree: ArenaTree<BasicNode, usize> = ArenaTree::new(
        BasicNode {
            parent: None,
            children: Vec::new(),
        },
        Some(16),
    );
    assert_eq!(tree.root, 0);
    assert_eq!(tree.len(), 1);
    assert_eq!(tree.get_node(0).unwrap().parent(), None);
}

#[test]
fn scenario_root_with_two_children_renders_tee_and_corner() {
    // Root A with children B then C, inserted in that order.
    let a = BasicNode {
        parent: None,
        children: Vec::new(),
    };
    let mut tree = ArenaTree::empty(8).root(a);
    let b = create_test_node(0);
    let c = create_test_node(0);
    let id_b = tree.insert_node(b).unwrap();
    let id_c = tree.insert_node(c).unwrap();

    // find_node locates B; B sits one level below the root.
    assert_eq!(tree.find_node(&create_test_node(0)), Some(id_b));
    assert_eq!(tree.node_depth(id_b), Some(1));

    // A's children come back in insertion order.
    assert_eq!(tree.get_node(0).unwrap().children(), &vec![id_b, id_c]);

    // B has a sibling below it, so its connector row is a tee; C is the
    // last child, so its row is a corner.
    let style = BorderStyle::Solid(BorderWeight::Light);
    let children = tree.get_node(0).unwrap().children();
    let mut glyphs = Vec::new();
    for (pos, _) in children.iter().enumerate() {
        let has_sibling_below = pos + 1 < children.len();
        glyphs.push(connections_to_unicode(&Connections::branch(
            style,
            has_sibling_below,
        )));
    }
    assert_eq!(glyphs, vec!['├', '└']);
}
