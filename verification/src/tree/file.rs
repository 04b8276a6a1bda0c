//! A concrete file tree in the arena style: named entries with an entry
//! kind, stored in one slot array with a free list, always rooted.
//!
//! The tree itself performs no I/O: it is populated by streaming insertion,
//! parent before child, from whatever walks the file system.

use vstd::prelude::*;

use crate::tree::filetypes::ItemType;

verus! {

/// The handle type of [`FsTree`]: a plain slot index.
pub type NodeId = usize;

/// The reserved id meaning "no node"; it never addresses a live slot.
pub const NULL_NODE: NodeId = usize::MAX;

/// The payload-free shape of a file-tree entry.
#[derive(Debug, Clone, PartialEq, Eq)]
pub enum NodeType {
    Directory(Vec<NodeId>),
    File,
}

/// One entry of a file tree: its name, its extension if any, its entry
/// kind, and its links.
#[derive(Debug, Clone, PartialEq, Eq)]
pub struct FsNode {
    pub name: String,
    pub ext: Option<String>,
    pub node_type: ItemType,
    pub parent: NodeId,
    pub children: Vec<NodeId>,
}

/// A file tree: a slot array of optional entries plus a free list of
/// reclaimed ids. Created with a root entry at id 0; populated by
/// [`FsTree::insert_node`], parent before child.
pub struct FsTree {
    nodes: Vec<Option<FsNode>>,
    free_list: Vec<NodeId>,
    root: NodeId,
}

impl FsTree {
    /// The slot array.
    pub closed spec fn slots(self) -> Seq<Option<FsNode>> {
        self.nodes@
    }

    /// The reclaimed ids available for reuse.
    pub closed spec fn free_ids(self) -> Seq<NodeId> {
        self.free_list@
    }

    /// The id of the root entry.
    pub closed spec fn root_id(self) -> NodeId {
        self.root
    }

    /// Slot `i` exists and holds an entry.
    pub open spec fn slot_live(self, i: int) -> bool {
        0 <= i < self.slots().len() && self.slots()[i] is Some
    }

    /// Well-formedness: every reclaimed id addresses an empty slot in range,
    /// no id is reclaimed twice, every empty slot is on the free list, the
    /// slot count never reaches [`NULL_NODE`], and the root is live.
    pub open spec fn wf(self) -> bool {
        &&& self.slots().len() <= NULL_NODE
        &&& (forall|k: int|
            0 <= k < self.free_ids().len() ==> {
                let id = #[trigger] self.free_ids()[k];
                id < self.slots().len() && self.slots()[id as int] is None
            })
        &&& (forall|k1: int, k2: int|
            0 <= k1 < k2 < self.free_ids().len() ==> #[trigger] self.free_ids()[k1]
                != #[trigger] self.free_ids()[k2])
        &&& (forall|j: int|
            0 <= j < self.slots().len() && (#[trigger] self.slots()[j]) is None ==> exists|k: int|
                0 <= k < self.free_ids().len() && #[trigger] self.free_ids()[k] == j)
        &&& self.slot_live(self.root_id() as int)
    }

    /// A tree holding one root directory entry at id 0, with the given name
    /// and extension. `capacity` pre-allocates arena space and defaults
    /// to 1024.
    pub fn new(root_name: String, root_ext: Option<String>, capacity: Option<usize>) -> (r: Self)
        ensures
            r.wf(),
            r.root_id() == 0,
            r.free_ids() == Seq::<NodeId>::empty(),
            r.slots().len() == 1,
            (r.slots()[0] matches Some(n) && n.name == root_name && n.ext == root_ext
                && n.node_type == ItemType::Directory(false) && n.parent == NULL_NODE
                && n.children@ == Seq::<NodeId>::empty()),
    {
        let capacity = match capacity {
            Some(c) => c,
            None => 1024,
        };
        let mut nodes: Vec<Option<FsNode>> = Vec::with_capacity(capacity);
        let root_node = FsNode {
            name: root_name,
            ext: root_ext,
            node_type: ItemType::Directory(false),
            parent: NULL_NODE,
            children: Vec::new(),
        };
        nodes.push(Some(root_node));
        let r = Self { nodes, free_list: Vec::new(), root: 0 };
        proof {
            assert(r.free_ids() =~= Seq::<NodeId>::empty());
        }
        r
    }

    /// The number of slots the arena has ever allocated (occupied or free).
    pub fn len(&self) -> (r: usize)
        ensures
            r == self.slots().len(),
    {
        self.nodes.len()
    }

    /// Get an entry by id. Out-of-range and empty slots both yield `None`;
    /// the lookup never faults.
    pub fn get_node(&self, id: NodeId) -> (r: Option<&FsNode>)
        ensures
            match r {
                Some(n) => self.slot_live(id as int) && self.slots()[id as int] == Some(*n),
                None => !self.slot_live(id as int),
            },
    {
        if id < self.nodes.len() {
            self.nodes[id].as_ref()
        } else {
            None
        }
    }

    /// Get a mutable reference to an entry by id. Out-of-range and empty
    /// slots both yield `None` and leave the tree untouched.
    pub fn get_node_mut(&mut self, id: NodeId) -> (r: Option<&mut FsNode>)
        ensures
            final(self).root_id() == old(self).root_id(),
            final(self).free_ids() == old(self).free_ids(),
            ({
                let i = id as int;
                if old(self).slot_live(i) {
                    &&& r is Some
                    &&& *r.unwrap() == old(self).slots()[i]->Some_0
                    &&& final(self).slots() == old(self).slots().update(
                        i,
                        Some(*final(r.unwrap())),
                    )
                } else {
                    &&& r is None
                    &&& final(self).slots() == old(self).slots()
                }
            }),
    {
        if id < self.nodes.len() {
            let occupied = self.nodes[id].is_some();
            if occupied {
                let slot = &mut self.nodes[id];
                slot.as_mut()
            } else {
                None
            }
        } else {
            None
        }
    }

    /// The child ids of the entry at `id`, in insertion order; `None` when
    /// `id` does not address a live slot.
    pub fn get_children(&self, id: NodeId) -> (r: Option<&Vec<NodeId>>)
        ensures
            match r {
                Some(c) => self.slot_live(id as int) && c@ == self.slots()[id as
                    int]->Some_0.children@,
                None => !self.slot_live(id as int),
            },
    {
        match self.get_node(id) {
            Some(n) => Some(&n.children),
            None => None,
        }
    }

    /// Take an id for a new entry: the most recently freed id if any, else a
    /// fresh id extending the arena by one empty slot.
    fn allocate_node_id(&mut self) -> (r: NodeId)
        requires
            old(self).wf(),
            old(self).slots().len() < NULL_NODE,
        ensures
            final(self).root_id() == old(self).root_id(),
            r < final(self).slots().len(),
            final(self).slots()[r as int] is None,
            if old(self).free_ids().len() > 0 {
                &&& r == old(self).free_ids().last()
                &&& final(self).free_ids() == old(self).free_ids().drop_last()
                &&& final(self).slots() == old(self).slots()
            } else {
                &&& r == old(self).slots().len()
                &&& final(self).free_ids() == old(self).free_ids()
                &&& final(self).slots() == old(self).slots().push(None::<FsNode>)
            },
    {
        match self.free_list.pop() {
            Some(id) => id,
            None => {
                let id = self.nodes.len();
                self.nodes.push(None);
                id
            },
        }
    }

    /// Insert an entry whose `parent` field names a live slot: the entry is
    /// stored under a newly taken id (reusing the most recently freed id if
    /// any), and, when the parent is a directory, the id is appended to the
    /// parent's child list in the same step. Yields `None`, leaving the tree
    /// untouched, when the parent is not live.
    pub fn insert_node(&mut self, node: FsNode) -> (r: Option<NodeId>)
        requires
            old(self).wf(),
            old(self).slots().len() < NULL_NODE,
        ensures
            final(self).wf(),
            match r {
                Some(id) => {
                    &&& old(self).slot_live(node.parent as int)
                    &&& id as int == if old(self).free_ids().len() > 0 {
                        old(self).free_ids().last() as int
                    } else {
                        old(self).slots().len() as int
                    }
                    &&& id != node.parent
                    &&& final(self).free_ids() == if old(self).free_ids().len() > 0 {
                        old(self).free_ids().drop_last()
                    } else {
                        old(self).free_ids()
                    }
                    &&& final(self).slots().len() == if old(self).free_ids().len() > 0 {
                        old(self).slots().len()
                    } else {
                        old(self).slots().len() + 1
                    }
                    &&& final(self).slots()[id as int] == Some(node)
                    &&& ({
                        let po = old(self).slots()[node.parent as int]->Some_0;
                        if po.node_type is Directory {
                            final(self).slots()[node.parent as int] matches Some(pn)
                                && pn.children@ == po.children@.push(id) && pn.name == po.name
                                && pn.ext == po.ext && pn.node_type == po.node_type && pn.parent
                                == po.parent
                        } else {
                            final(self).slots()[node.parent as int] == old(self).slots()[node.parent
                                as int]
                        }
                    })
                    &&& (forall|j: int|
                        0 <= j < old(self).slots().len() && j != id as int && j != node.parent
                            as int ==> final(self).slots()[j] == #[trigger] old(self).slots()[j])
                    &&& final(self).root_id() == old(self).root_id()
                },
                None => {
                    &&& *final(self) == *old(self)
                    &&& !old(self).slot_live(node.parent as int)
                },
            },
    {
        let parent_id = node.parent;
        if !(parent_id < self.nodes.len() && self.nodes[parent_id].is_some()) {
            return None;
        }
        let id = self.allocate_node_id();
        self.nodes[id] = Some(node);
        if let Some(parent) = self.nodes[parent_id].as_mut() {
            let is_dir = match parent.node_type {
                ItemType::Directory(_) => true,
                _ => false,
            };
            if is_dir {
                parent.children.push(id);
            }
        }
        proof {
            let s0 = old(self).slots();
            let f0 = old(self).free_ids();
            let s1 = self.slots();
            let f1 = self.free_ids();
            assert forall|k: int| 0 <= k < f1.len() implies {
                let fid = #[trigger] f1[k];
                fid < s1.len() && s1[fid as int] is None
            } by {
                assert(f1[k] == f0[k]);
                if f0.len() > 0 {
                    assert(f0[k] != f0[f0.len() - 1]);
                }
            }
            assert forall|j: int|
                0 <= j < s1.len() && (#[trigger] s1[j]) is None implies exists|k: int|
                    0 <= k < f1.len() && #[trigger] f1[k] == j by {
                assert(j < s0.len() && s0[j] is None);
                let k0 = choose|k: int| 0 <= k < f0.len() && #[trigger] f0[k] == j;
                if f0.len() > 0 {
                    assert(f0[f0.len() - 1] == id);
                    assert(k0 < f0.len() - 1);
                }
                assert(f1[k0] == j);
            }
        }
        Some(id)
    }
}

} // verus!
