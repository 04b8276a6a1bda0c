//! A generic arena-indexed tree.
//!
//! [`ArenaTree`] owns all of its nodes in one growable slot array and hands
//! out stable integer handles instead of references. Freed handles are kept
//! on a free list and reused, most recently freed first. Parent/child
//! consistency is established at insertion time: a node can only be inserted
//! with a live parent, and insertion appends the new handle to that parent's
//! child list in the same step.

use vstd::prelude::*;
use vstd::std_specs::cmp::PartialEqSpec;

verus! {

/// A handle type usable as a tree id: convertible to and from a slot index,
/// with one reserved index meaning "invalid/unset" that never addresses a
/// live slot.
pub trait TreeId: Sized + Copy {
    /// The slot index this id stands for.
    spec fn idx(self) -> nat;

    /// The reserved index of the invalid id.
    spec fn invalid_idx() -> nat;

    /// At least one index below the reserved one exists, so a tree can hold
    /// a root.
    proof fn invalid_idx_positive()
        ensures
            Self::invalid_idx() > 0,
    ;

    /// The id standing for slot index `i`.
    fn from_index(i: usize) -> (r: Self)
        requires
            i < Self::invalid_idx(),
        ensures
            r.idx() == i,
    ;

    /// The slot index of this id.
    fn index(&self) -> (r: usize)
        ensures
            r == self.idx(),
    ;

    /// The reserved invalid id.
    fn invalid() -> (r: Self)
        ensures
            r.idx() == Self::invalid_idx(),
    ;

    /// Whether this id is the invalid id.
    fn is_invalid(&self) -> (r: bool)
        ensures
            r == (self.idx() == Self::invalid_idx()),
    {
        let inv = Self::invalid();
        self.index() == inv.index()
    }
}

impl TreeId for usize {
    open spec fn idx(self) -> nat {
        self as nat
    }

    open spec fn invalid_idx() -> nat {
        usize::MAX as nat
    }

    proof fn invalid_idx_positive() {
    }

    fn from_index(i: usize) -> (r: Self) {
        i
    }

    fn index(&self) -> (r: usize) {
        *self
    }

    fn invalid() -> (r: Self) {
        usize::MAX
    }
}

/// An item storable in an [`ArenaTree`]: it records its parent and its
/// children as ids, and exposes mutators for both, whose effect on the
/// recorded links is pinned down so the container can maintain parent/child
/// consistency.
pub trait TreeItem<I>: Sized {
    /// The recorded parent id, if any.
    spec fn parent_spec(self) -> Option<I>;

    /// The recorded child ids, in insertion order.
    spec fn children_spec(self) -> Seq<I>;

    /// The children of the item.
    fn children(&self) -> (r: &Vec<I>)
        ensures
            r@ == self.children_spec(),
    ;

    /// The parent of the item.
    fn parent(&self) -> (r: Option<I>)
        ensures
            r == self.parent_spec(),
    ;

    /// Set the parent of the item, leaving its children unchanged.
    fn set_parent(&mut self, parent: I)
        ensures
            final(self).parent_spec() == Some(parent),
            final(self).children_spec() == old(self).children_spec(),
    ;

    /// Append a child to the item's children, leaving its parent unchanged.
    fn add_child(&mut self, child: I)
        ensures
            final(self).children_spec() == old(self).children_spec().push(child),
            final(self).parent_spec() == old(self).parent_spec(),
    ;
}

/// The kinds of structural precondition violations the container reports.
#[derive(Debug, Clone, Copy, PartialEq, Eq, Structural)]
pub enum ErrorKind {
    /// A handle does not address a live slot.
    DoesNotExist,
    /// Insertion was attempted with an item that records no parent.
    NeedsParent,
    /// The tree has no root yet.
    NotInitialized,
}

/// A typed container error: a kind plus a human-readable message.
#[derive(Debug)]
pub struct Error {
    pub kind: ErrorKind,
    pub message: String,
}

impl Error {
    /// Pair an error kind with a message.
    pub fn new(kind: ErrorKind, message: &str) -> (r: Self)
        ensures
            r.kind == kind,
            r.message@ == message@,
    {
        Self { kind, message: message.to_owned() }
    }
}

/// A generic arena-indexed tree: a slot array of optional items plus a free
/// list of reclaimed ids.
pub struct ArenaTree<T, I> where I: TreeId + Copy, T: TreeItem<I> + Clone + Eq {
    /// The root id of the tree; the invalid id while no root is set.
    pub root: I,
    /// The arena: one slot per ever-allocated id.
    pub nodes: Vec<Option<T>>,
    /// Reclaimed ids whose slots are empty and available for reuse.
    pub free: Vec<I>,
}

/// The depth of the node in slot `i` of `s`, found by walking the parent
/// chain with at most `fuel` hops: `None` when the fuel runs out (only
/// possible on a cyclic chain), `Some(None)` when the walk starts at or
/// reaches a slot that is not live, and `Some(Some(d))` when a node with no
/// parent is reached after `d` hops.
pub open spec fn depth_result<T: TreeItem<I>, I: TreeId + Copy>(
    s: Seq<Option<T>>,
    i: int,
    fuel: nat,
) -> Option<Option<nat>>
    decreases fuel,
{
    if !(0 <= i < s.len() && s[i] is Some) {
        Some(None)
    } else {
        match s[i]->Some_0.parent_spec() {
            None => Some(Some(0)),
            Some(p) => if fuel == 0 {
                None
            } else {
                match depth_result(s, p.idx() as int, (fuel - 1) as nat) {
                    None => None,
                    Some(None) => Some(None),
                    Some(Some(d)) => Some(Some((d + 1) as nat)),
                }
            },
        }
    }
}

/// A walk result with `n` extra hops charged to the completed case.
pub open spec fn add_hops(n: nat, res: Option<Option<nat>>) -> Option<Option<nat>> {
    match res {
        None => None,
        Some(None) => Some(None),
        Some(Some(d)) => Some(Some((d + n) as nat)),
    }
}

/// The items held by the occupied slots of `s`, in slot order.
pub open spec fn occupied_values<T>(s: Seq<Option<T>>) -> Seq<T>
    decreases s.len(),
{
    if s.len() == 0 {
        Seq::empty()
    } else {
        occupied_values(s.drop_last()) + match s.last() {
            Some(t) => seq![t],
            None => Seq::empty(),
        }
    }
}

/// There are never more occupied slots than slots.
proof fn lemma_occupied_le_len<T>(s: Seq<Option<T>>)
    ensures
        occupied_values(s).len() <= s.len(),
    decreases s.len(),
{
    if s.len() > 0 {
        lemma_occupied_le_len(s.drop_last());
    }
}

/// Two slot arrays occupied at exactly the same indices hold equally many
/// items.
proof fn lemma_occupied_same_mask<T>(s1: Seq<Option<T>>, s2: Seq<Option<T>>)
    requires
        s1.len() == s2.len(),
        forall|j: int|
            0 <= j < s1.len() ==> ((#[trigger] s1[j]) is Some <==> (#[trigger] s2[j]) is Some),
    ensures
        occupied_values(s1).len() == occupied_values(s2).len(),
    decreases s1.len(),
{
    if s1.len() > 0 {
        assert forall|j: int|
            0 <= j < s1.drop_last().len() implies ((#[trigger] s1.drop_last()[j]) is Some <==> (
        #[trigger] s2.drop_last()[j]) is Some) by {
            assert(s1.drop_last()[j] == s1[j]);
            assert(s2.drop_last()[j] == s2[j]);
        }
        lemma_occupied_same_mask(s1.drop_last(), s2.drop_last());
    }
}

/// Filling one empty slot raises the occupied count by exactly one.
proof fn lemma_occupied_flip<T>(s: Seq<Option<T>>, i: int, x: T)
    requires
        0 <= i < s.len(),
        s[i] is None,
    ensures
        occupied_values(s.update(i, Some(x))).len() == occupied_values(s).len() + 1,
    decreases s.len(),
{
    let s2 = s.update(i, Some(x));
    if i == s.len() - 1 {
        assert(s2.drop_last() =~= s.drop_last());
    } else {
        assert(s2.drop_last() =~= s.drop_last().update(i, Some(x)));
        lemma_occupied_flip(s.drop_last(), i, x);
        assert(s2.last() == s.last());
    }
}

impl<T, I> ArenaTree<T, I> where I: TreeId + Copy, T: TreeItem<I> + Clone + Eq {
    /// Slot `i` exists and holds an item.
    pub open spec fn slot_live(self, i: int) -> bool {
        0 <= i < self.nodes@.len() && self.nodes@[i] is Some
    }

    /// Well-formedness: every reclaimed id addresses an empty slot in range,
    /// no id is reclaimed twice, every empty slot is on the free list, the
    /// slot count never reaches the reserved invalid index, and the root,
    /// when set, addresses a live slot.
    pub open spec fn wf(self) -> bool {
        &&& self.nodes@.len() <= I::invalid_idx()
        &&& (forall|k: int|
            0 <= k < self.free@.len() ==> {
                let id = #[trigger] self.free@[k];
                id.idx() < self.nodes@.len() && self.nodes@[id.idx() as int] is None
            })
        &&& (forall|k1: int, k2: int|
            0 <= k1 < k2 < self.free@.len() ==> (#[trigger] self.free@[k1]).idx() != (
            #[trigger] self.free@[k2]).idx())
        &&& (forall|j: int|
            0 <= j < self.nodes@.len() && (#[trigger] self.nodes@[j]) is None ==> exists|k: int|
                0 <= k < self.free@.len() && (#[trigger] self.free@[k]).idx() == j)
        &&& (self.root.idx() == I::invalid_idx() || self.slot_live(self.root.idx() as int))
    }

    /// Why an insertion of `child` must fail, or `None` when it is owed
    /// success: the tree must have a root, the item must record a parent,
    /// and that parent must address a live slot.
    pub open spec fn insert_check(self, child: T) -> Option<ErrorKind> {
        if self.root.idx() == I::invalid_idx() {
            Some(ErrorKind::NotInitialized)
        } else {
            match child.parent_spec() {
                None => Some(ErrorKind::NeedsParent),
                Some(p) => if !self.slot_live(p.idx() as int) {
                    Some(ErrorKind::DoesNotExist)
                } else {
                    None
                },
            }
        }
    }

    /// How a successful insertion under parent `p` reshapes the tree `pre`
    /// into `post`, apart from the inserted item itself: the most recently
    /// freed id is reused, else the arena grows by one slot; the new id is
    /// appended to `p`'s child list; and every other slot is untouched.
    pub open spec fn insert_shape(pre: Self, post: Self, id: I, p: I) -> bool {
        &&& pre.slot_live(p.idx() as int)
        &&& id.idx() == if pre.free@.len() > 0 {
            pre.free@.last().idx()
        } else {
            pre.nodes@.len()
        }
        &&& id.idx() != p.idx()
        &&& post.free@ == if pre.free@.len() > 0 {
            pre.free@.drop_last()
        } else {
            pre.free@
        }
        &&& post.nodes@.len() == if pre.free@.len() > 0 {
            pre.nodes@.len()
        } else {
            pre.nodes@.len() + 1
        }
        &&& id.idx() < post.nodes@.len()
        &&& (post.nodes@[p.idx() as int] matches Some(pn) && pre.nodes@[p.idx() as int] matches Some(
            po,
        ) && pn.children_spec() == po.children_spec().push(id) && pn.parent_spec()
            == po.parent_spec())
        &&& (forall|j: int|
            0 <= j < pre.nodes@.len() && j != id.idx() as int && j != p.idx() as int
                ==> post.nodes@[j] == #[trigger] pre.nodes@[j])
        &&& post.root == pre.root
    }

    /// A tree holding only `root` at id 0. `capacity` pre-allocates arena
    /// space and defaults to 1024. The root item must not record a parent.
    pub fn new(root: T, capacity: Option<usize>) -> (r: Self)
        requires
            root.parent_spec() is None,
        ensures
            r.wf(),
            r.root.idx() == 0,
            r.nodes@ == seq![Some(root)],
            r.free@ == Seq::<I>::empty(),
    {
        let capacity = match capacity {
            Some(c) => c,
            None => 1024,
        };
        proof {
            I::invalid_idx_positive();
        }
        let mut nodes: Vec<Option<T>> = Vec::with_capacity(capacity);
        nodes.push(Some(root));
        let r = Self { root: I::from_index(0), nodes, free: Vec::new() };
        proof {
            assert(r.nodes@ =~= seq![Some(root)]);
            assert(r.free@ =~= Seq::<I>::empty());
        }
        r
    }

    /// An empty tree without a root. Until a root is set, every insertion
    /// fails with [`ErrorKind::NotInitialized`]. `capacity` pre-allocates
    /// arena space.
    pub fn empty(capacity: usize) -> (r: Self)
        ensures
            r.wf(),
            r.root.idx() == I::invalid_idx(),
            r.nodes@ == Seq::<Option<T>>::empty(),
            r.free@ == Seq::<I>::empty(),
    {
        let r = Self { root: I::invalid(), free: Vec::new(), nodes: Vec::with_capacity(capacity) };
        proof {
            assert(r.nodes@ =~= Seq::<Option<T>>::empty());
            assert(r.free@ =~= Seq::<I>::empty());
        }
        r
    }

    /// Set the root of the tree, discarding any previous contents. Intended
    /// to follow [`ArenaTree::empty`]. The root item must not record a
    /// parent.
    pub fn root(self, root: T) -> (r: Self)
        requires
            root.parent_spec() is None,
        ensures
            r.wf(),
            r.root.idx() == 0,
            r.nodes@ == seq![Some(root)],
            r.free@ == Seq::<I>::empty(),
    {
        proof {
            I::invalid_idx_positive();
        }
        let mut tree = self;
        tree.nodes.clear();
        tree.free.clear();
        tree.root = I::from_index(0);
        tree.nodes.push(Some(root));
        proof {
            assert(tree.nodes@ =~= seq![Some(root)]);
            assert(tree.free@ =~= Seq::<I>::empty());
        }
        tree
    }

    /// Get a node by id. Out-of-range and empty slots both yield `None`;
    /// the lookup never faults.
    pub fn get_node(&self, id: I) -> (r: Option<&T>)
        ensures
            match r {
                Some(t) => self.slot_live(id.idx() as int) && self.nodes@[id.idx() as int] == Some(
                    *t,
                ),
                None => !self.slot_live(id.idx() as int),
            },
    {
        let i = id.index();
        if i < self.nodes.len() {
            self.nodes[i].as_ref()
        } else {
            None
        }
    }

    /// Get a mutable reference to a node by id. Out-of-range and empty
    /// slots both yield `None` and leave the tree untouched.
    pub fn get_node_mut(&mut self, id: I) -> (r: Option<&mut T>)
        ensures
            final(self).root == old(self).root,
            final(self).free@ == old(self).free@,
            ({
                let i = id.idx() as int;
                if old(self).slot_live(i) {
                    &&& r is Some
                    &&& *r.unwrap() == old(self).nodes@[i]->Some_0
                    &&& final(self).nodes@ == old(self).nodes@.update(
                        i,
                        Some(*final(r.unwrap())),
                    )
                } else {
                    &&& r is None
                    &&& final(self).nodes@ == old(self).nodes@
                }
            }),
    {
        let i = id.index();
        if i < self.nodes.len() {
            let occupied = self.nodes[i].is_some();
            if occupied {
                let slot = &mut self.nodes[i];
                slot.as_mut()
            } else {
                None
            }
        } else {
            None
        }
    }
    /// Take an id for a new node: the most recently freed id if any, else a
    /// fresh id extending the arena by one empty slot.
    fn allocate_id(&mut self) -> (r: I)
        requires
            old(self).wf(),
            old(self).nodes@.len() < I::invalid_idx(),
        ensures
            final(self).root == old(self).root,
            r.idx() < final(self).nodes@.len(),
            final(self).nodes@[r.idx() as int] is None,
            if old(self).free@.len() > 0 {
                &&& r == old(self).free@.last()
                &&& final(self).free@ == old(self).free@.drop_last()
                &&& final(self).nodes@ == old(self).nodes@
            } else {
                &&& r.idx() == old(self).nodes@.len()
                &&& final(self).free@ == old(self).free@
                &&& final(self).nodes@ == old(self).nodes@.push(None::<T>)
            },
    {
        match self.free.pop() {
            Some(id) => id,
            None => {
                let id = I::from_index(self.nodes.len());
                self.nodes.push(None);
                id
            },
        }
    }

    /// Insert a node into the tree. The item must record a live parent: the
    /// new node is stored under a newly taken id (reusing the most recently
    /// freed id if any), and that id is appended to the parent's child list
    /// in the same step. On failure the tree is left exactly as it was.
    pub fn insert_node(&mut self, child: T) -> (r: Result<I, Error>)
        requires
            old(self).wf(),
            old(self).nodes@.len() < I::invalid_idx(),
        ensures
            final(self).wf(),
            match r {
                Ok(id) => {
                    &&& old(self).insert_check(child) is None
                    &&& (child.parent_spec() matches Some(p) && Self::insert_shape(
                        *old(self),
                        *final(self),
                        id,
                        p,
                    ))
                    &&& final(self).nodes@[id.idx() as int] == Some(child)
                },
                Err(e) => {
                    &&& *final(self) == *old(self)
                    &&& old(self).insert_check(child) == Some(e.kind)
                },
            },
    {
        if self.root.is_invalid() {
            return Err(Error::new(ErrorKind::NotInitialized, "Tree has no root yet"));
        }
        let parent_id = match child.parent() {
            Some(p) => p,
            None => {
                return Err(
                    Error::new(ErrorKind::NeedsParent, "Inserting a node requires it has a parent"),
                );
            },
        };
        let pi = parent_id.index();
        if !(pi < self.nodes.len() && self.nodes[pi].is_some()) {
            return Err(
                Error::new(ErrorKind::DoesNotExist, "Could not create node as parent does not exist"),
            );
        }
        let id = self.allocate_id();
        let i = id.index();
        self.nodes[i] = Some(child);
        if let Some(parent) = self.nodes[pi].as_mut() {
            parent.add_child(id);
        }
        proof {
            let s0 = old(self).nodes@;
            let f0 = old(self).free@;
            let s1 = self.nodes@;
            let f1 = self.free@;
            let ii = id.idx() as int;
            assert forall|k: int| 0 <= k < f1.len() implies {
                let fid = #[trigger] f1[k];
                fid.idx() < s1.len() && s1[fid.idx() as int] is None
            } by {
                assert(f1[k] == f0[k]);
                if f0.len() > 0 {
                    assert(f0[k].idx() != f0[f0.len() - 1].idx());
                }
            }
            assert forall|j: int|
                0 <= j < s1.len() && (#[trigger] s1[j]) is None implies exists|k: int|
                    0 <= k < f1.len() && (#[trigger] f1[k]).idx() == j by {
                assert(j < s0.len() && s0[j] is None);
                let k0 = choose|k: int| 0 <= k < f0.len() && (#[trigger] f0[k]).idx() == j;
                if f0.len() > 0 {
                    assert(f0[f0.len() - 1].idx() == ii);
                    assert(k0 < f0.len() - 1);
                }
                assert(f1[k0].idx() == j);
            }
        }
        Ok(id)
    }

    /// Copy the node at `node` under a new parent: the item is cloned, its
    /// recorded parent is rewritten to `new_parent`, and the clone is
    /// re-inserted under a fresh id, independent of the original. Fails with
    /// [`ErrorKind::DoesNotExist`] when the source is not live, and otherwise
    /// exactly as the insertion would; on failure the tree is left exactly
    /// as it was.
    pub fn copy_node(&mut self, node: I, new_parent: I) -> (r: Result<I, Error>)
        requires
            old(self).wf(),
            old(self).nodes@.len() < I::invalid_idx(),
        ensures
            final(self).wf(),
            match r {
                Ok(id) => {
                    &&& old(self).slot_live(node.idx() as int)
                    &&& old(self).root.idx() != I::invalid_idx()
                    &&& Self::insert_shape(*old(self), *final(self), id, new_parent)
                    &&& (final(self).nodes@[id.idx() as int] matches Some(n) && n.parent_spec()
                        == Some(new_parent) && exists|c: T|
                        #[trigger] cloned(old(self).nodes@[node.idx() as int]->Some_0, c)
                            && n.children_spec() == c.children_spec())
                },
                Err(e) => {
                    &&& *final(self) == *old(self)
                    &&& !(old(self).slot_live(node.idx() as int) && old(self).root.idx()
                        != I::invalid_idx() && old(self).slot_live(new_parent.idx() as int))
                    &&& e.kind == if !old(self).slot_live(node.idx() as int) {
                        ErrorKind::DoesNotExist
                    } else if old(self).root.idx() == I::invalid_idx() {
                        ErrorKind::NotInitialized
                    } else {
                        ErrorKind::DoesNotExist
                    }
                },
            },
    {
        let mut copied = match self.get_node(node) {
            Some(n) => n.clone(),
            None => {
                return Err(
                    Error::new(ErrorKind::DoesNotExist, "Source node does not exist to copy"),
                );
            },
        };
        let ghost fresh_clone = copied;
        copied.set_parent(new_parent);
        let r = self.insert_node(copied);
        proof {
            if r is Ok {
                assert(cloned(old(self).nodes@[node.idx() as int]->Some_0, fresh_clone));
            }
        }
        r
    }

    /// The slot holds an item equal to `target`, in the sense of `T`'s
    /// equality.
    pub open spec fn slot_matches(s: Option<T>, target: T) -> bool {
        s matches Some(t) && t.eq_spec(&target)
    }

    /// Find the first occupied slot, in storage order, whose item equals
    /// `node` by value-equality; `None` when no occupied slot matches.
    pub fn find_node(&self, node: &T) -> (r: Option<I>)
        requires
            self.nodes@.len() <= I::invalid_idx(),
        ensures
            T::obeys_eq_spec() ==> match r {
                Some(id) => {
                    &&& id.idx() < self.nodes@.len()
                    &&& Self::slot_matches(self.nodes@[id.idx() as int], *node)
                    &&& forall|j: int|
                        0 <= j < id.idx() as int ==> !Self::slot_matches(
                            #[trigger] self.nodes@[j],
                            *node,
                        )
                },
                None => forall|j: int|
                    0 <= j < self.nodes@.len() ==> !Self::slot_matches(
                        #[trigger] self.nodes@[j],
                        *node,
                    ),
            },
    {
        let mut i: usize = 0;
        while i < self.nodes.len()
            invariant
                i <= self.nodes@.len(),
                self.nodes@.len() <= I::invalid_idx(),
                T::obeys_eq_spec() ==> forall|j: int|
                    0 <= j < i ==> !Self::slot_matches(#[trigger] self.nodes@[j], *node),
            decreases self.nodes@.len() - i,
        {
            let matched = match &self.nodes[i] {
                Some(t) => *t == *node,
                None => false,
            };
            if matched {
                return Some(I::from_index(i));
            }
            i += 1;
        }
        None
    }

    /// References to the items in the occupied slots, in storage order.
    pub fn assigned_nodes(&self) -> (r: Vec<&T>)
        ensures
            r@.map_values(|t: &T| *t) == occupied_values(self.nodes@),
    {
        let mut result: Vec<&T> = Vec::new();
        let mut i: usize = 0;
        while i < self.nodes.len()
            invariant
                i <= self.nodes@.len(),
                result@.map_values(|t: &T| *t) == occupied_values(self.nodes@.take(i as int)),
            decreases self.nodes@.len() - i,
        {
            let ghost prefix = self.nodes@.take(i as int);
            let ghost mapped = result@.map_values(|t: &T| *t);
            match &self.nodes[i] {
                Some(t) => result.push(t),
                None => (),
            }
            i += 1;
            proof {
                assert(self.nodes@.take(i as int).drop_last() =~= prefix);
                assert(self.nodes@.take(i as int).last() == self.nodes@[i - 1]);
                if self.nodes@[i - 1] is Some {
                    assert(result@.map_values(|t: &T| *t) =~= mapped.push(
                        self.nodes@[i - 1]->Some_0,
                    ));
                    assert(occupied_values(self.nodes@.take(i as int)) =~= mapped.push(
                        self.nodes@[i - 1]->Some_0,
                    ));
                } else {
                    assert(occupied_values(self.nodes@.take(i as int)) =~= mapped);
                }
            }
        }
        proof {
            assert(self.nodes@.take(self.nodes@.len() as int) =~= self.nodes@);
        }
        result
    }

    /// The number of occupied slots (not the storage capacity).
    pub fn len(&self) -> (r: usize)
        ensures
            r == occupied_values(self.nodes@).len(),
    {
        self.assigned_nodes().len()
    }

    /// The depth of the node at `id`: the number of hops along the parent
    /// chain until a node recording no parent is reached. Returns `None`
    /// when `id`, or any id met along the chain, does not address a live
    /// slot. The caller must not have built a cyclic parent chain (the
    /// precondition asks that the walk terminate within one hop per slot);
    /// a detached subtree is fine and yields the depth within its own chain.
    pub fn node_depth(&self, id: I) -> (r: Option<usize>)
        requires
            depth_result(self.nodes@, id.idx() as int, self.nodes@.len()) is Some,
        ensures
            match r {
                Some(d) => depth_result(self.nodes@, id.idx() as int, self.nodes@.len()) == Some(
                    Some(d as nat),
                ),
                None => depth_result(self.nodes@, id.idx() as int, self.nodes@.len()) == Some(
                    None::<nat>,
                ),
            },
    {
        let start = match self.get_node(id) {
            Some(n) => n,
            None => {
                return None;
            },
        };
        let mut curr: Option<I> = start.parent();
        let mut depth: usize = 0;
        let arena_len = self.nodes.len();
        while curr.is_some()
            invariant
                arena_len == self.nodes@.len(),
                depth <= self.nodes@.len(),
                curr is Some ==> depth + 1 <= self.nodes@.len(),
                depth_result(self.nodes@, id.idx() as int, self.nodes@.len()) is Some,
                match curr {
                    None => depth_result(self.nodes@, id.idx() as int, self.nodes@.len()) == Some(
                        Some(depth as nat),
                    ),
                    Some(p) => depth_result(self.nodes@, id.idx() as int, self.nodes@.len())
                        == add_hops(
                        (depth + 1) as nat,
                        depth_result(
                            self.nodes@,
                            p.idx() as int,
                            (self.nodes@.len() - depth - 1) as nat,
                        ),
                    ),
                },
            decreases self.nodes@.len() - depth,
        {
            let p = curr.unwrap();
            let ghost fuel = (self.nodes@.len() - depth - 1) as nat;
            let next = match self.get_node(p) {
                Some(n) => n.parent(),
                None => {
                    return None;
                },
            };
            proof {
                let s = self.nodes@;
                assert(depth_result(s, p.idx() as int, fuel) is Some);
                match next {
                    None => {},
                    Some(q) => {
                        if fuel == 0 {
                            assert(false);
                        }
                        let x = depth_result(s, q.idx() as int, (fuel - 1) as nat);
                        assert(add_hops((depth + 1) as nat, add_hops(1nat, x)) == add_hops(
                            (depth + 2) as nat,
                            x,
                        ));
                    },
                }
            }
            depth = depth + 1;
            curr = next;
        }
        Some(depth)
    }
}

/// A node whose depth is defined lies exactly one level below its parent:
/// together with [`lemma_depth_of_root`], the parent-chain law for any tree
/// whose parent chains terminate. Stated at the fuel [`ArenaTree::node_depth`]
/// uses, one hop per slot.
pub proof fn lemma_node_depth_of_parent<T: TreeItem<I>, I: TreeId + Copy>(
    s: Seq<Option<T>>,
    c: int,
    p: I,
    d: nat,
)
    requires
        0 <= c < s.len(),
        s[c] is Some,
        s[c]->Some_0.parent_spec() == Some(p),
        depth_result(s, c, s.len() as nat) == Some(Some(d)),
    ensures
        d >= 1,
        depth_result(s, p.idx() as int, s.len() as nat) == Some(Some((d - 1) as nat)),
{
    lemma_depth_result_fuel_mono(s, p.idx() as int, (s.len() - 1) as nat, s.len() as nat);
}

/// A walk that completes in `d` hops already completes with `d` units of
/// fuel.
proof fn lemma_depth_result_min_fuel<T: TreeItem<I>, I: TreeId + Copy>(
    s: Seq<Option<T>>,
    i: int,
    fuel: nat,
    d: nat,
)
    requires
        depth_result(s, i, fuel) == Some(Some(d)),
    ensures
        depth_result(s, i, d) == Some(Some(d)),
    decreases fuel,
{
    if 0 <= i < s.len() && s[i] is Some {
        match s[i]->Some_0.parent_spec() {
            None => {},
            Some(p) => {
                lemma_depth_result_min_fuel(s, p.idx() as int, (fuel - 1) as nat, (d - 1) as nat);
            },
        }
    }
}

/// A completed walk is undisturbed when slots are only added or rewritten in
/// ways that keep every once-live slot live with the same recorded parent.
proof fn lemma_depth_result_same_chain<T: TreeItem<I>, I: TreeId + Copy>(
    s1: Seq<Option<T>>,
    s2: Seq<Option<T>>,
    i: int,
    fuel: nat,
)
    requires
        depth_result(s1, i, fuel) matches Some(Some(_)),
        s2.len() >= s1.len(),
        forall|j: int|
            0 <= j < s1.len() && (#[trigger] s1[j]) is Some ==> s2[j] is Some
                && s2[j]->Some_0.parent_spec() == s1[j]->Some_0.parent_spec(),
    ensures
        depth_result(s2, i, fuel) == depth_result(s1, i, fuel),
    decreases fuel,
{
    if 0 <= i < s1.len() && s1[i] is Some {
        match s1[i]->Some_0.parent_spec() {
            None => {},
            Some(p) => {
                lemma_depth_result_same_chain(s1, s2, p.idx() as int, (fuel - 1) as nat);
            },
        }
    }
}

/// Every live slot's parent chain terminates, within fewer hops than there
/// are occupied slots.
pub open spec fn depths_ok<T: TreeItem<I>, I: TreeId + Copy>(s: Seq<Option<T>>) -> bool {
    forall|i: int|
        0 <= i < s.len() && (#[trigger] s[i]) is Some ==> (depth_result(
            s,
            i,
            s.len() as nat,
        ) matches Some(Some(d)) && d + 1 <= occupied_values(s).len())
}

/// A tree holding one parentless root has well-founded depths.
pub proof fn lemma_depths_ok_single<T: TreeItem<I>, I: TreeId + Copy>(root: T)
    requires
        root.parent_spec() is None,
    ensures
        depths_ok::<T, I>(seq![Some(root)]),
{
    let s = seq![Some(root)];
    assert(s.drop_last() =~= Seq::<Option<T>>::empty());
    assert(occupied_values(Seq::<Option<T>>::empty()) =~= Seq::<T>::empty());
    assert(s.last() == Some(root));
    assert(occupied_values(s) =~= Seq::<T>::empty() + seq![root]);
    assert(occupied_values(s).len() == 1);
}

/// Inserting a node under a live parent keeps every existing depth, keeps
/// depths well-founded, and gives the new node a depth one more than its
/// parent's. Together with [`lemma_depths_ok_single`] and
/// [`lemma_depth_of_root`]: along any insertion sequence that starts from a
/// root, the root's depth is zero and each node sits one level below its
/// parent.
pub proof fn lemma_insert_preserves_depths<T, I>(
    pre: ArenaTree<T, I>,
    post: ArenaTree<T, I>,
    id: I,
    p: I,
) where I: TreeId + Copy, T: TreeItem<I> + Clone + Eq
    requires
        pre.wf(),
        depths_ok(pre.nodes@),
        ArenaTree::<T, I>::insert_shape(pre, post, id, p),
        post.nodes@[id.idx() as int] matches Some(n) && n.parent_spec() == Some(p),
    ensures
        depths_ok(post.nodes@),
        forall|j: int|
            0 <= j < pre.nodes@.len() && (#[trigger] pre.nodes@[j]) is Some ==> depth_result(
                post.nodes@,
                j,
                post.nodes@.len() as nat,
            ) == depth_result(pre.nodes@, j, pre.nodes@.len() as nat),
        depth_result(post.nodes@, id.idx() as int, post.nodes@.len() as nat) == add_hops(
            1nat,
            depth_result(pre.nodes@, p.idx() as int, pre.nodes@.len() as nat),
        ),
{
    let s1 = pre.nodes@;
    let s2 = post.nodes@;
    let n1 = s1.len() as nat;
    let n2 = s2.len() as nat;
    let ii = id.idx() as int;
    let pi = p.idx() as int;

    // The inserted slot was empty (or fresh), so live slots keep their
    // recorded parent.
    assert forall|j: int|
        0 <= j < s1.len() && (#[trigger] s1[j]) is Some implies s2[j] is Some
            && s2[j]->Some_0.parent_spec() == s1[j]->Some_0.parent_spec() by {
        if j == ii {
            if pre.free@.len() > 0 {
                assert(pre.free@[pre.free@.len() - 1].idx() < s1.len());
                assert(s1[ii] is None);
            }
            assert(false);
        }
    }

    // One more occupied slot than before.
    let inserted = s2[ii]->Some_0;
    if pre.free@.len() > 0 {
        assert(pre.free@[pre.free@.len() - 1].idx() < s1.len());
        assert(s1[ii] is None);
        let smid = s1.update(ii, Some(inserted));
        lemma_occupied_flip(s1, ii, inserted);
        lemma_occupied_same_mask(smid, s2);
    } else {
        let smid = s1.push(Some(inserted));
        assert(smid.drop_last() =~= s1);
        lemma_occupied_same_mask(smid, s2);
    }
    assert(occupied_values(s2).len() == occupied_values(s1).len() + 1);

    // Existing nodes keep their depth: their walks never touch the new slot.
    assert forall|j: int|
        0 <= j < s1.len() && (#[trigger] s1[j]) is Some implies depth_result(s2, j, n2)
            == depth_result(s1, j, n1) by {
        lemma_depth_result_same_chain(s1, s2, j, n1);
        lemma_depth_result_fuel_mono(s2, j, n1, n2);
    }

    // The new node's walk is one hop, then its parent's walk; the parent's
    // depth is low enough for the remaining fuel.
    assert(s1[pi] is Some);
    assert(depth_result(s2, pi, n2) == depth_result(s1, pi, n1));
    let dp = depth_result(s1, pi, n1)->Some_0->Some_0;
    lemma_depth_result_min_fuel(s2, pi, n2, dp);
    lemma_occupied_le_len(s2);
    lemma_depth_result_fuel_mono(s2, pi, dp, (n2 - 1) as nat);
    assert(depth_result(s2, ii, n2) == add_hops(1nat, depth_result(s2, pi, (n2 - 1) as nat)));

    // Well-foundedness carries over, with the new node one level below its
    // parent.
    assert forall|i: int|
        0 <= i < s2.len() && (#[trigger] s2[i]) is Some implies (depth_result(
        s2,
        i,
        n2,
    ) matches Some(Some(d)) && d + 1 <= occupied_values(s2).len()) by {
        if i == ii {
            assert(depth_result(s2, i, n2) == Some(Some((dp + 1) as nat)));
        } else {
            assert(s1[i] is Some);
        }
    }
}

/// A minimal tree item: just the recorded parent and child links, with no
/// payload of its own.
#[derive(Debug, Clone, Eq)]
pub struct BasicNode {
    pub parent: Option<usize>,
    pub children: Vec<usize>,
}

impl TreeItem<usize> for BasicNode {
    open spec fn parent_spec(self) -> Option<usize> {
        self.parent
    }

    open spec fn children_spec(self) -> Seq<usize> {
        self.children@
    }

    fn children(&self) -> (r: &Vec<usize>) {
        &self.children
    }

    fn parent(&self) -> (r: Option<usize>) {
        self.parent
    }

    fn set_parent(&mut self, parent: usize) {
        self.parent = Some(parent);
    }

    fn add_child(&mut self, child: usize) {
        self.children.push(child);
    }
}

impl PartialEq for BasicNode {
    fn eq(&self, other: &Self) -> (r: bool) {
        let parents_eq = match (self.parent, other.parent) {
            (None, None) => true,
            (Some(a), Some(b)) => a == b,
            _ => false,
        };
        let children_eq = self.children == other.children;
        proof {
            if self.children@.len() == other.children@.len() && (forall|i: int|
                0 <= i < self.children@.len() ==> self.children@[i] == other.children@[i]) {
                assert(self.children@ =~= other.children@);
            }
        }
        parents_eq && children_eq
    }
}

impl vstd::std_specs::cmp::PartialEqSpecImpl for BasicNode {
    open spec fn obeys_eq_spec() -> bool {
        true
    }

    open spec fn eq_spec(&self, other: &Self) -> bool {
        self.parent == other.parent && self.children@ == other.children@
    }
}

/// Extra fuel beyond what a terminating walk needs does not change its
/// result.
pub proof fn lemma_depth_result_fuel_mono<T: TreeItem<I>, I: TreeId + Copy>(
    s: Seq<Option<T>>,
    i: int,
    f1: nat,
    f2: nat,
)
    requires
        f1 <= f2,
        depth_result(s, i, f1) is Some,
    ensures
        depth_result(s, i, f2) == depth_result(s, i, f1),
    decreases f1,
{
    if 0 <= i < s.len() && s[i] is Some {
        match s[i]->Some_0.parent_spec() {
            None => {},
            Some(p) => {
                lemma_depth_result_fuel_mono(s, p.idx() as int, (f1 - 1) as nat, (f2 - 1) as nat);
            },
        }
    }
}

/// The root of a tree — a live node recording no parent — has depth zero,
/// whatever fuel the walk is given.
pub proof fn lemma_depth_of_root<T: TreeItem<I>, I: TreeId + Copy>(
    s: Seq<Option<T>>,
    r: int,
    fuel: nat,
)
    requires
        0 <= r < s.len(),
        s[r] is Some,
        s[r]->Some_0.parent_spec() is None,
    ensures
        depth_result(s, r, fuel) == Some(Some(0nat)),
{
}

/// A live node recording a parent of depth `d` has depth `d + 1`: one more
/// hop than its parent, given one unit more fuel.
pub proof fn lemma_depth_of_child<T: TreeItem<I>, I: TreeId + Copy>(
    s: Seq<Option<T>>,
    c: int,
    p: I,
    d: nat,
    fuel: nat,
)
    requires
        0 <= c < s.len(),
        s[c] is Some,
        s[c]->Some_0.parent_spec() == Some(p),
        depth_result(s, p.idx() as int, fuel) == Some(Some(d)),
    ensures
        depth_result(s, c, (fuel + 1) as nat) == Some(Some((d + 1) as nat)),
{
}

} // verus!
