//! Tests for the concrete file tree and the icon tables.

use bough::tree::file::{FsNode, FsTree, NULL_NODE};
use bough::tree::filetypes::{FileType, ItemType, Language};
use bough::tree::icons::{Icon, IconType};

fn entry(name: &str, parent: usize, node_type: ItemType) -> FsNode {
    let ext = name.rsplit_once('.').map(|(_, e)| e.to_string());
    FsNode {
        name: name.to_string(),
        ext,
        node_type,
        parent,
        children: Vec::new(),
    }
}

#[test]
fn new_tree_holds_one_root_directory() {
    let tree = FsTree::new("project".to_string(), None, Some(8));
    assert_eq!(tree.len(), 1);
    let root = tree.get_node(0).unwrap();
    assert_eq!(root.name, "project");
    assert_eq!(root.ext, None);
    assert_eq!(root.node_type, ItemType::Directory(false));
    assert_eq!(root.parent, NULL_NODE);
    assert!(root.children.is_empty());
    assert_eq!(tree.get_children(0), Some(&Vec::new()));
}

#[test]
fn insertion_links_children_in_order() {
    let mut tree = FsTree::new("project".to_string(), None, None);
    let src = entry("src", 0, ItemType::Directory(false));
    let id_src = tree.insert_node(src).unwrap();
    assert_eq!(id_src, 1);
    let main = entry("main.rs", id_src, ItemType::File(FileType::Text(Language::Rust)));
    let id_main = tree.insert_node(main).unwrap();
    assert_eq!(id_main, 2);
    let readme = entry("README.md", 0, ItemType::File(FileType::Text(Language::Markdown)));
    let id_readme = tree.insert_node(readme).unwrap();
    assert_eq!(id_readme, 3);

    assert_eq!(tree.len(), 4);
    assert_eq!(tree.get_children(0), Some(&vec![1, 3]));
    assert_eq!(tree.get_children(1), Some(&vec![2]));
    assert_eq!(tree.get_node(2).unwrap().name, "main.rs");
    assert_eq!(tree.get_node(2).unwrap().ext.as_deref(), Some("rs"));
}

#[test]
fn insertion_under_a_dead_parent_is_refused() {
    let mut tree = FsTree::new("project".to_string(), None, None);
    let stray = entry("stray", 5, ItemType::File(FileType::Binary));
    assert_eq!(tree.insert_node(stray), None);
    assert_eq!(tree.len(), 1);
}

#[test]
fn children_are_not_linked_under_a_file_parent() {
    let mut tree = FsTree::new("project".to_string(), None, None);
    let file = entry("data.bin", 0, ItemType::File(FileType::Binary));
    let id_file = tree.insert_node(file).unwrap();
    let odd = entry("odd", id_file, ItemType::File(FileType::Binary));
    let id_odd = tree.insert_node(odd).unwrap();
    // The entry is stored, but a non-directory parent gets no child link.
    assert_eq!(tree.get_node(id_odd).unwrap().name, "odd");
    assert_eq!(tree.get_children(id_file), Some(&Vec::new()));
}

#[test]
fn fs_get_node_mut_writes_through() {
    let mut tree = FsTree::new("project".to_string(), None, None);
    tree.get_node_mut(0).unwrap().node_type = ItemType::Directory(true);
    assert_eq!(tree.get_node(0).unwrap().node_type, ItemType::Directory(true));
    assert!(tree.get_node_mut(9).is_none());
}

#[test]
fn language_nerd_icons() {
    assert_eq!(
        Language::Rust.get_nerd_icon(IconType::Nerd),
        Some("\u{e7a8}".to_string())
    );
    assert_eq!(
        Language::Markdown.get_nerd_icon(IconType::Nerd),
        Some("\u{f48a}".to_string())
    );
    assert_eq!(Language::Rust.get_nerd_icon(IconType::Plain), None);
    assert_eq!(Language::C.get_nerd_icon(IconType::Emoji), None);
}

#[test]
fn entry_icons_follow_the_family() {
    let closed = ItemType::Directory(false);
    assert_eq!(closed.get_icon(IconType::Plain), None);
    assert_eq!(closed.get_icon(IconType::Nerd), Some("\u{f024b}".to_string()));
    assert_eq!(closed.get_icon(IconType::Emoji), Some("\u{1f4c2}".to_string()));
    let open = ItemType::Directory(true);
    assert_eq!(open.get_icon(IconType::Emoji), Some("\u{1f4c1}".to_string()));

    let rust_file = ItemType::File(FileType::Text(Language::Rust));
    assert_eq!(rust_file.get_icon(IconType::Nerd), Some("\u{e7a8}".to_string()));
    assert_eq!(rust_file.get_icon(IconType::Plain), None);
    assert_eq!(
        ItemType::File(FileType::Binary).get_icon(IconType::Nerd),
        Some("\u{eae8}".to_string())
    );
}
