//! The shared aggregation store.
//!
//! Counters contributed by independent workers are merged in a region owned
//! by the process group for its lifetime: a bump-allocated arena of nodes
//! (order key, identity stored inline, counters matching a server zone's)
//! plus a binary search tree index of integer handles into the arena,
//! ordered by the order key — the hash of the identity.  Handles rather
//! than native pointers keep the structure relocatable across processes
//! attaching at different addresses.  Nodes are allocated once per distinct
//! identity and never freed individually; the arena's capacity is fixed at
//! startup, and exhaustion is reported, never silently dropped.  On an
//! order-key collision with a different identity the walk continues left —
//! an accepted degradation, not a silent bug.  All mutation is meant to run
//! inside one process-wide critical section owned by the embedding.
//!
//! A deliberately accepted deviation: the index places each handle at its
//! walk position and never rebalances, so its depth is logarithmic only in
//! expectation — the order keys are hash values, so the insertion order of
//! keys is effectively random — and degrades to linear under an
//! adversarially chosen identity set, where a rebalancing tree would stay
//! logarithmic.  The contracts below pin what the store holds and in what
//! order a walk yields it, which rebalancing would not change; a verified
//! rebalancing index could replace `place_handle` behind these same
//! contracts.

use crate::vts_node::spec_node_update;
use crate::vts_node::VtsNodeStats;
use crate::VtsError;
use vstd::prelude::*;
use vstd::string::StrSliceExecFns;

verus! {

/// Offset basis of the 64-bit FNV-1a hash.
pub const VTS_HASH_BASIS: u64 = 0xcbf29ce484222325;

/// Prime of the 64-bit FNV-1a hash.
pub const VTS_HASH_PRIME: u64 = 0x100000001b3;

/// FNV-1a over the identity's characters, folded left to right from `h`.
pub open spec fn spec_order_key_from(s: Seq<char>, h: u64) -> u64
    decreases s.len(),
{
    if s.len() == 0 {
        h
    } else {
        spec_order_key_from(
            s.drop_first(),
            vstd::wrapping::u64_specs::wrapping_mul(h ^ (s[0] as u64), VTS_HASH_PRIME),
        )
    }
}

/// The order key of an identity: its 64-bit FNV-1a hash.  The same identity
/// gives the same key in every cooperating process.
pub open spec fn spec_order_key(s: Seq<char>) -> u64 {
    spec_order_key_from(s, VTS_HASH_BASIS)
}

/// Compute an identity's order key.
pub fn order_key(name: &str) -> (k: u64)
    ensures
        k == spec_order_key(name@),
{
    let n = name.unicode_len();
    let mut h: u64 = VTS_HASH_BASIS;
    let mut i: usize = 0;
    proof {
        assert(name@.skip(0) =~= name@);
    }
    while i < n
        invariant
            n == name@.len(),
            i <= n,
            spec_order_key_from(name@.skip(i as int), h) == spec_order_key(name@),
        decreases n - i,
    {
        let c: u64 = name.get_char(i) as u64;
        proof {
            assert(name@.skip(i as int).drop_first() =~= name@.skip(i + 1));
            assert(name@.skip(i as int)[0] == name@[i as int]);
        }
        h = (h ^ c).wrapping_mul(VTS_HASH_PRIME);
        i += 1;
    }
    proof {
        assert(name@.skip(n as int) =~= Seq::<char>::empty());
    }
    h
}

/// One arena node: the fixed header (order key, counters) with the
/// identity stored inline in the same allocation.
#[derive(Debug)]
pub struct VtsSharedNode {
    /// Order key: the hash of `name`.
    pub key: u64,
    /// The zone identity.
    pub name: String,
    /// Counters, matching a server zone's.
    pub stats: VtsNodeStats,
}

/// Index tree node: an order key and the handle of the arena node it
/// stands for.
struct VtsTreeNode {
    key: u64,
    handle: usize,
    left: Option<Box<VtsTreeNode>>,
    right: Option<Box<VtsTreeNode>>,
}

/// The handles of a subtree, in symmetric (key) order.
spec fn inorder(t: Option<Box<VtsTreeNode>>) -> Seq<int>
    decreases t,
{
    match t {
        Option::None => Seq::empty(),
        Option::Some(n) => inorder(n.left) + seq![n.handle as int] + inorder(n.right),
    }
}

/// Search-tree shape over the arena: every handle is in bounds, every
/// index key repeats its arena node's key, keys in the left subtree are at
/// most the node's (equal keys go left), keys in the right are greater.
spec fn wf_tree(t: Option<Box<VtsTreeNode>>, arena: Seq<VtsSharedNode>) -> bool
    decreases t,
{
    match t {
        Option::None => true,
        Option::Some(n) => {
            &&& n.handle < arena.len()
            &&& n.key == arena[n.handle as int].key
            &&& wf_tree(n.left, arena)
            &&& wf_tree(n.right, arena)
            &&& forall|h: int| #[trigger] inorder(n.left).contains(h) ==> 0 <= h < arena.len()
                && arena[h].key <= n.key
            &&& forall|h: int| #[trigger] inorder(n.right).contains(h) ==> 0 <= h < arena.len()
                && arena[h].key > n.key
        },
    }
}

/// The map an arena describes: identity to counters.
pub open spec fn arena_map(arena: Seq<VtsSharedNode>) -> Map<Seq<char>, VtsNodeStats>
    decreases arena.len(),
{
    if arena.len() == 0 {
        Map::empty()
    } else {
        arena_map(arena.drop_last()).insert(arena.last().name@, arena.last().stats)
    }
}

proof fn lemma_arena_map_contains(arena: Seq<VtsSharedNode>, k: Seq<char>)
    ensures
        arena_map(arena).contains_key(k) <==> exists|i: int|
            0 <= i < arena.len() && arena[i].name@ == k,
    decreases arena.len(),
{
    if arena.len() > 0 {
        lemma_arena_map_contains(arena.drop_last(), k);
        if k == arena.last().name@ {
            assert(arena[arena.len() - 1].name@ == k);
        } else {
            if arena_map(arena).contains_key(k) {
                let i = choose|i: int| 0 <= i < arena.len() - 1 && arena.drop_last()[i].name@ == k;
                assert(arena.drop_last()[i] == arena[i]);
                assert(arena[i].name@ == k);
            }
            if exists|i: int| 0 <= i < arena.len() && arena[i].name@ == k {
                let i = choose|i: int| 0 <= i < arena.len() && arena[i].name@ == k;
                assert(i != arena.len() - 1);
                assert(arena.drop_last()[i] == arena[i]);
                assert(arena_map(arena.drop_last()).contains_key(k));
            }
        }
    }
}

proof fn lemma_arena_map_get(arena: Seq<VtsSharedNode>, i: int)
    requires
        0 <= i < arena.len(),
        forall|p: int, q: int| 0 <= p < q < arena.len() ==> arena[p].name@ != arena[q].name@,
    ensures
        arena_map(arena).contains_key(arena[i].name@),
        arena_map(arena)[arena[i].name@] == arena[i].stats,
    decreases arena.len(),
{
    if i < arena.len() - 1 {
        lemma_arena_map_get(arena.drop_last(), i);
        assert(arena.last().name@ != arena[i].name@);
    }
}

proof fn lemma_arena_map_update(arena: Seq<VtsSharedNode>, i: int, node: VtsSharedNode)
    requires
        0 <= i < arena.len(),
        forall|p: int, q: int| 0 <= p < q < arena.len() ==> arena[p].name@ != arena[q].name@,
        node.name@ == arena[i].name@,
    ensures
        arena_map(arena.update(i, node)) == arena_map(arena).insert(node.name@, node.stats),
    decreases arena.len(),
{
    let n = arena.len();
    if i == n - 1 {
        assert(arena.update(i, node).drop_last() =~= arena.drop_last());
        assert(arena.update(i, node).last() == node);
        assert(arena_map(arena.update(i, node)) =~= arena_map(arena).insert(
            node.name@,
            node.stats,
        ));
    } else {
        lemma_arena_map_update(arena.drop_last(), i, node);
        assert(arena.update(i, node).drop_last() =~= arena.drop_last().update(i, node));
        assert(arena.update(i, node).last() == arena.last());
        assert(arena[i].name@ != arena.last().name@);
        assert(arena_map(arena.update(i, node)) =~= arena_map(arena).insert(
            node.name@,
            node.stats,
        ));
    }
}

proof fn lemma_arena_map_push(arena: Seq<VtsSharedNode>, node: VtsSharedNode)
    ensures
        arena_map(arena.push(node)) == arena_map(arena).insert(node.name@, node.stats),
{
    assert(arena.push(node).drop_last() =~= arena);
}

/// The tree's shape does not depend on arena entries beyond those its
/// handles reach, so appending to the arena preserves it.
proof fn lemma_wf_tree_push(
    t: Option<Box<VtsTreeNode>>,
    arena: Seq<VtsSharedNode>,
    node: VtsSharedNode,
)
    requires
        wf_tree(t, arena),
    ensures
        wf_tree(t, arena.push(node)),
    decreases t,
{
    match t {
        Option::None => {},
        Option::Some(n) => {
            lemma_wf_tree_push(n.left, arena, node);
            lemma_wf_tree_push(n.right, arena, node);
            assert forall|h: int| #[trigger] inorder(n.left).contains(h) implies 0 <= h
                < arena.push(node).len() && arena.push(node)[h].key <= n.key by {
                assert(arena.push(node)[h] == arena[h]);
            }
            assert forall|h: int| #[trigger] inorder(n.right).contains(h) implies 0 <= h
                < arena.push(node).len() && arena.push(node)[h].key > n.key by {
                assert(arena.push(node)[h] == arena[h]);
            }
        },
    }
}

/// Replacing one arena node's counters, key and identity unchanged,
/// preserves the tree's shape.
proof fn lemma_wf_tree_update(
    t: Option<Box<VtsTreeNode>>,
    arena: Seq<VtsSharedNode>,
    i: int,
    node: VtsSharedNode,
)
    requires
        wf_tree(t, arena),
        0 <= i < arena.len(),
        node.key == arena[i].key,
    ensures
        wf_tree(t, arena.update(i, node)),
    decreases t,
{
    match t {
        Option::None => {},
        Option::Some(n) => {
            lemma_wf_tree_update(n.left, arena, i, node);
            lemma_wf_tree_update(n.right, arena, i, node);
            assert forall|h: int| #[trigger] inorder(n.left).contains(h) implies 0 <= h
                < arena.update(i, node).len() && arena.update(i, node)[h].key <= n.key by {
                assert(arena.update(i, node)[h].key == arena[h].key);
            }
            assert forall|h: int| #[trigger] inorder(n.right).contains(h) implies 0 <= h
                < arena.update(i, node).len() && arena.update(i, node)[h].key > n.key by {
                assert(arena.update(i, node)[h].key == arena[h].key);
            }
        },
    }
}

/// Membership in a nonempty subtree's traversal is membership in one of
/// its three parts.
proof fn lemma_inorder_split(t: Option<Box<VtsTreeNode>>, h: int)
    requires
        t is Some,
    ensures
        inorder(t).contains(h) <==> (inorder(t.unwrap().left).contains(h) || h
            == t.unwrap().handle as int || inorder(t.unwrap().right).contains(h)),
{
    let l = inorder(t.unwrap().left);
    let r = inorder(t.unwrap().right);
    let whole = l + seq![t.unwrap().handle as int] + r;
    assert(inorder(t) == whole);
    if l.contains(h) {
        let j = choose|j: int| 0 <= j < l.len() && l[j] == h;
        assert(whole[j] == h);
    }
    if h == t.unwrap().handle as int {
        assert(whole[l.len() as int] == h);
    }
    if r.contains(h) {
        let j = choose|j: int| 0 <= j < r.len() && r[j] == h;
        assert(whole[l.len() + 1 + j] == h);
    }
    if whole.contains(h) {
        let j = choose|j: int| 0 <= j < whole.len() && whole[j] == h;
        if j < l.len() {
            assert(l[j] == h);
        } else if j > l.len() {
            assert(r[j - l.len() - 1] == h);
        }
    }
}

/// A nonempty subtree's traversal has no duplicates exactly when its parts
/// have none and do not overlap.
proof fn lemma_no_dup_parts(t: Option<Box<VtsTreeNode>>)
    requires
        t is Some,
        inorder(t).no_duplicates(),
    ensures
        inorder(t.unwrap().left).no_duplicates(),
        inorder(t.unwrap().right).no_duplicates(),
        !inorder(t.unwrap().left).contains(t.unwrap().handle as int),
        !inorder(t.unwrap().right).contains(t.unwrap().handle as int),
        forall|h: int| #[trigger]
            inorder(t.unwrap().left).contains(h) ==> !inorder(t.unwrap().right).contains(h),
{
    let l = inorder(t.unwrap().left);
    let r = inorder(t.unwrap().right);
    let whole = l + seq![t.unwrap().handle as int] + r;
    assert(inorder(t) == whole);
    assert forall|i: int, j: int| 0 <= i < j < l.len() implies l[i] != l[j] by {
        assert(whole[i] == l[i] && whole[j] == l[j]);
    }
    assert forall|i: int, j: int| 0 <= i < j < r.len() implies r[i] != r[j] by {
        assert(whole[l.len() + 1 + i] == r[i] && whole[l.len() + 1 + j] == r[j]);
    }
    if l.contains(t.unwrap().handle as int) {
        let i = choose|i: int| 0 <= i < l.len() && l[i] == t.unwrap().handle as int;
        assert(whole[i] == whole[l.len() as int]);
    }
    if r.contains(t.unwrap().handle as int) {
        let i = choose|i: int| 0 <= i < r.len() && r[i] == t.unwrap().handle as int;
        assert(whole[l.len() + 1 + i] == whole[l.len() as int]);
    }
    assert forall|h: int| #[trigger] l.contains(h) implies !r.contains(h) by {
        if r.contains(h) {
            let i = choose|i: int| 0 <= i < l.len() && l[i] == h;
            let j = choose|j: int| 0 <= j < r.len() && r[j] == h;
            assert(whole[i] == whole[l.len() + 1 + j]);
        }
    }
}

proof fn lemma_no_dup_join(t: Option<Box<VtsTreeNode>>)
    requires
        t is Some,
        inorder(t.unwrap().left).no_duplicates(),
        inorder(t.unwrap().right).no_duplicates(),
        !inorder(t.unwrap().left).contains(t.unwrap().handle as int),
        !inorder(t.unwrap().right).contains(t.unwrap().handle as int),
        forall|h: int| #[trigger]
            inorder(t.unwrap().left).contains(h) ==> !inorder(t.unwrap().right).contains(h),
    ensures
        inorder(t).no_duplicates(),
{
    let l = inorder(t.unwrap().left);
    let r = inorder(t.unwrap().right);
    let whole = l + seq![t.unwrap().handle as int] + r;
    assert(inorder(t) == whole);
    assert forall|i: int, j: int| 0 <= i < j < whole.len() implies whole[i] != whole[j] by {
        if i < l.len() {
            assert(whole[i] == l[i]);
            assert(l.contains(l[i]));
        } else if i > l.len() {
            assert(whole[i] == r[i - l.len() - 1]);
            assert(r.contains(r[i - l.len() - 1]));
        }
        if j < l.len() {
            assert(whole[j] == l[j]);
            assert(l.contains(l[j]));
        } else if j > l.len() {
            assert(whole[j] == r[j - l.len() - 1]);
            assert(r.contains(r[j - l.len() - 1]));
        }
    }
}

/// Find the handle whose arena node carries `probe`: walk by key, equal
/// keys continuing left, comparing identities only on an exact key match.
fn find_node(
    t: &Option<Box<VtsTreeNode>>,
    nodes: &Vec<VtsSharedNode>,
    key: u64,
    probe: &String,
) -> (r: Option<usize>)
    requires
        wf_tree(*t, nodes@),
        key == spec_order_key(probe@),
        forall|i: int|
            0 <= i < nodes@.len() ==> #[trigger] nodes@[i].key == spec_order_key(nodes@[i].name@),
    ensures
        match r {
            Some(h) => h < nodes@.len() && nodes@[h as int].name@ == probe@,
            None => forall|h: int| #[trigger]
                inorder(*t).contains(h) ==> !(0 <= h < nodes@.len()) || nodes@[h].name@ != probe@,
        },
    decreases *t,
{
    match t {
        Option::None => None,
        Option::Some(n) => {
            if key < n.key {
                let r = find_node(&n.left, nodes, key, probe);
                proof {
                    if r is None {
                        assert forall|h: int| #[trigger] inorder(*t).contains(h) implies !(0 <= h
                            < nodes@.len()) || nodes@[h].name@ != probe@ by {
                            lemma_inorder_split(*t, h);
                            if h == n.handle as int {
                                assert(nodes@[h].key == n.key);
                            } else if inorder(n.right).contains(h) {
                                assert(nodes@[h].key > n.key);
                            }
                        }
                    }
                }
                r
            } else if key > n.key {
                let r = find_node(&n.right, nodes, key, probe);
                proof {
                    if r is None {
                        assert forall|h: int| #[trigger] inorder(*t).contains(h) implies !(0 <= h
                            < nodes@.len()) || nodes@[h].name@ != probe@ by {
                            lemma_inorder_split(*t, h);
                            if h == n.handle as int {
                                assert(nodes@[h].key == n.key);
                            } else if inorder(n.left).contains(h) {
                                assert(nodes@[h].key <= n.key);
                            }
                        }
                    }
                }
                r
            } else {
                let candidate = &nodes[n.handle];
                if candidate.name.eq(probe) {
                    Some(n.handle)
                } else {
                    let r = find_node(&n.left, nodes, key, probe);
                    proof {
                        if r is None {
                            assert forall|h: int| #[trigger] inorder(*t).contains(h) implies !(0
                                <= h < nodes@.len()) || nodes@[h].name@ != probe@ by {
                                lemma_inorder_split(*t, h);
                                if inorder(n.right).contains(h) {
                                    assert(nodes@[h].key > n.key);
                                }
                            }
                        }
                    }
                    r
                }
            }
        },
    }
}

/// Place a fresh handle at its walk position: smaller keys go left, larger
/// right, an equal key left.
fn place_handle(
    t: &mut Option<Box<VtsTreeNode>>,
    key: u64,
    handle: usize,
    arena: Ghost<Seq<VtsSharedNode>>,
)
    requires
        wf_tree(*old(t), arena@),
        handle < arena@.len(),
        arena@[handle as int].key == key,
        !inorder(*old(t)).contains(handle as int),
        inorder(*old(t)).no_duplicates(),
    ensures
        wf_tree(*final(t), arena@),
        forall|h: int|
            #[trigger] inorder(*final(t)).contains(h) <==> (inorder(*old(t)).contains(h) || h
                == handle as int),
        inorder(*final(t)).len() == inorder(*old(t)).len() + 1,
        inorder(*final(t)).no_duplicates(),
    decreases *old(t),
{
    match t.take() {
        Option::None => {
            *t = Some(Box::new(VtsTreeNode { key, handle, left: None, right: None }));
            proof {
                assert(inorder(*t) =~= seq![handle as int]);
                assert forall|h: int|
                    #[trigger] inorder(*t).contains(h) <==> (inorder(
                        *old(t),
                    ).contains(h) || h == handle as int) by {
                    lemma_inorder_split(*t, h);
                }
            }
        },
        Option::Some(mut boxed) => {
            proof {
                lemma_no_dup_parts(*old(t));
                lemma_inorder_split(*old(t), handle as int);
            }
            let ghost old_left = boxed.left;
            let ghost old_right = boxed.right;
            if key <= boxed.key {
                place_handle(&mut boxed.left, key, handle, arena);
                *t = Some(boxed);
                proof {
                    let m = t.unwrap();
                    assert forall|h: int| #[trigger] inorder(m.left).contains(h) implies 0 <= h
                        < arena@.len() && arena@[h].key <= m.key by {
                        if h != handle as int {
                            assert(inorder(old_left).contains(h));
                        }
                    }
                    assert(wf_tree(*t, arena@));
                    assert forall|h: int|
                        #[trigger] inorder(*t).contains(h) <==> (inorder(*old(t)).contains(h) || h
                            == handle as int) by {
                        lemma_inorder_split(*t, h);
                        lemma_inorder_split(*old(t), h);
                    }
                    lemma_no_dup_join(*t);
                }
            } else {
                place_handle(&mut boxed.right, key, handle, arena);
                *t = Some(boxed);
                proof {
                    let m = t.unwrap();
                    assert forall|h: int| #[trigger] inorder(m.right).contains(h) implies 0 <= h
                        < arena@.len() && arena@[h].key > m.key by {
                        if h != handle as int {
                            assert(inorder(old_right).contains(h));
                        }
                    }
                    assert(wf_tree(*t, arena@));
                    assert forall|h: int|
                        #[trigger] inorder(*t).contains(h) <==> (inorder(*old(t)).contains(h) || h
                            == handle as int) by {
                        lemma_inorder_split(*t, h);
                        lemma_inorder_split(*old(t), h);
                    }
                    lemma_no_dup_join(*t);
                }
            }
        },
    }
}

/// The shared store: the arena and its search-tree index, with the fixed
/// capacity decided at startup.
pub struct VtsSharedContext {
    nodes: Vec<VtsSharedNode>,
    root: Option<Box<VtsTreeNode>>,
    capacity: usize,
}

impl VtsSharedContext {
    /// The arena entries, in allocation order.
    pub closed spec fn arena(self) -> Seq<VtsSharedNode> {
        self.nodes@
    }

    /// Identity-to-counters view of the store.
    pub closed spec fn as_map(self) -> Map<Seq<char>, VtsNodeStats> {
        arena_map(self.nodes@)
    }

    pub closed spec fn spec_capacity(self) -> usize {
        self.capacity
    }

    /// Internal consistency: the index reaches exactly the allocated
    /// handles, in search order; every node's key hashes its identity;
    /// identities are distinct; the arena never exceeds its capacity.
    pub closed spec fn wf(self) -> bool {
        &&& self.nodes@.len() <= self.capacity
        &&& wf_tree(self.root, self.nodes@)
        &&& inorder(self.root).no_duplicates()
        &&& inorder(self.root).len() == self.nodes@.len()
        &&& forall|h: int| #[trigger]
            inorder(self.root).contains(h) ==> 0 <= h < self.nodes@.len()
        &&& forall|h: int| 0 <= h < self.nodes@.len() ==> #[trigger] inorder(
            self.root,
        ).contains(h)
        &&& forall|i: int|
            0 <= i < self.nodes@.len() ==> #[trigger] self.nodes@[i].key == spec_order_key(
                self.nodes@[i].name@,
            )
        &&& forall|p: int, q: int|
            0 <= p < q < self.nodes@.len() ==> self.nodes@[p].name@ != self.nodes@[q].name@
    }

    /// A fresh, empty store with the given fixed capacity.
    pub fn new(capacity: usize) -> (r: VtsSharedContext)
        ensures
            r.wf(),
            r.as_map() == Map::<Seq<char>, VtsNodeStats>::empty(),
            r.arena() == Seq::<VtsSharedNode>::empty(),
            r.spec_capacity() == capacity,
    {
        VtsSharedContext { nodes: Vec::new(), root: None, capacity }
    }

    /// Create the store, or attach to one the process group already owns:
    /// the two startup paths are distinguishable, and attaching preserves
    /// the existing structure instead of re-initializing it.
    pub fn init_or_attach(existing: Option<VtsSharedContext>, capacity: usize) -> (r:
        VtsSharedContext)
        requires
            existing is Some ==> existing.unwrap().wf(),
        ensures
            r.wf(),
            existing is Some ==> r == existing.unwrap(),
            existing is None ==> r.as_map() == Map::<Seq<char>, VtsNodeStats>::empty()
                && r.arena() == Seq::<VtsSharedNode>::empty() && r.spec_capacity() == capacity,
    {
        match existing {
            Some(s) => s,
            None => VtsSharedContext::new(capacity),
        }
    }

    /// The number of distinct identities stored.
    pub fn len(&self) -> (n: usize)
        ensures
            n == self.arena().len(),
    {
        self.nodes.len()
    }

    pub fn capacity(&self) -> (n: usize)
        ensures
            n == self.spec_capacity(),
    {
        self.capacity
    }

    /// The counters recorded for an identity, if present.
    pub fn get_stats(&self, name: &str) -> (r: Option<&VtsNodeStats>)
        requires
            self.wf(),
        ensures
            r == if self.as_map().contains_key(name@) {
                Some(&self.as_map()[name@])
            } else {
                None::<&VtsNodeStats>
            },
    {
        let key = order_key(name);
        let probe: String = name.to_owned();
        proof {
            lemma_arena_map_contains(self.nodes@, name@);
        }
        match find_node(&self.root, &self.nodes, key, &probe) {
            Some(h) => {
                proof {
                    lemma_arena_map_get(self.nodes@, h as int);
                }
                Some(&self.nodes[h].stats)
            },
            None => {
                proof {
                    if self.as_map().contains_key(name@) {
                        let i = choose|i: int| 0 <= i < self.nodes@.len() && self.nodes@[i].name@
                            == name@;
                        assert(inorder(self.root).contains(i));
                    }
                }
                None
            },
        }
    }

    /// Merge one observed request into the identity's node.  The node is
    /// allocated zeroed on the identity's first appearance; when the arena
    /// is full, a new identity is refused with `ResourceExhausted` and
    /// nothing changes.
    pub fn insert_or_update(
        &mut self,
        name: &str,
        status: u16,
        bytes_in: u64,
        bytes_out: u64,
        request_time: u64,
    ) -> (r: Result<(), VtsError>)
        requires
            old(self).wf(),
        ensures
            final(self).wf(),
            final(self).spec_capacity() == old(self).spec_capacity(),
            old(self).as_map().contains_key(name@) ==> r is Ok && final(self).as_map() == old(
                self,
            ).as_map().insert(
                name@,
                spec_node_update(
                    old(self).as_map()[name@],
                    status,
                    bytes_in,
                    bytes_out,
                    request_time,
                ),
            ) && final(self).arena().len() == old(self).arena().len(),
            !old(self).as_map().contains_key(name@) && old(self).arena().len() < old(
                self,
            ).spec_capacity() ==> r is Ok && final(self).as_map() == old(self).as_map().insert(
                name@,
                spec_node_update(VtsNodeStats::zero(), status, bytes_in, bytes_out, request_time),
            ) && final(self).arena().len() == old(self).arena().len() + 1,
            !old(self).as_map().contains_key(name@) && old(self).arena().len() >= old(
                self,
            ).spec_capacity() ==> r == Result::<(), VtsError>::Err(VtsError::ResourceExhausted)
                && *final(self) == *old(self),
    {
        let key = order_key(name);
        let probe: String = name.to_owned();
        proof {
            lemma_arena_map_contains(self.nodes@, name@);
        }
        match find_node(&self.root, &self.nodes, key, &probe) {
            Some(h) => {
                proof {
                    lemma_arena_map_get(self.nodes@, h as int);
                }
                let ghost arena0 = self.nodes@;
                let slot = &mut self.nodes[h];
                let ghost slot0 = *slot;
                slot.stats.update_request(status, bytes_in, bytes_out, request_time);
                proof {
                    let slot1 = VtsSharedNode {
                        key: slot0.key,
                        name: slot0.name,
                        stats: spec_node_update(
                            slot0.stats,
                            status,
                            bytes_in,
                            bytes_out,
                            request_time,
                        ),
                    };
                    assert(self.nodes@ =~= arena0.update(h as int, slot1));
                    lemma_arena_map_update(arena0, h as int, slot1);
                    lemma_wf_tree_update(self.root, arena0, h as int, slot1);
                    assert forall|i: int|
                        0 <= i < self.nodes@.len() implies #[trigger] self.nodes@[i].key
                        == spec_order_key(self.nodes@[i].name@) by {
                        assert(self.nodes@[i].name@ == arena0[i].name@);
                    }
                }
                Ok(())
            },
            None => {
                proof {
                    if self.as_map().contains_key(name@) {
                        let i = choose|i: int| 0 <= i < self.nodes@.len() && self.nodes@[i].name@
                            == name@;
                        assert(inorder(self.root).contains(i));
                    }
                }
                if self.nodes.len() >= self.capacity {
                    return Err(VtsError::ResourceExhausted);
                }
                let mut stats = VtsNodeStats::new();
                stats.update_request(status, bytes_in, bytes_out, request_time);
                let node = VtsSharedNode { key, name: probe, stats };
                let ghost node_g = node;
                let ghost arena0 = self.nodes@;
                let handle = self.nodes.len();
                self.nodes.push(node);
                proof {
                    lemma_arena_map_push(arena0, node_g);
                    lemma_wf_tree_push(self.root, arena0, node_g);
                    if inorder(self.root).contains(handle as int) {
                        assert(0 <= handle < arena0.len());
                    }
                }
                place_handle(&mut self.root, key, handle, Ghost(self.nodes@));
                proof {
                    assert forall|h2: int| 0 <= h2 < self.nodes@.len() implies #[trigger] inorder(
                        self.root,
                    ).contains(h2) by {
                        if h2 < arena0.len() {
                            assert(inorder(old(self).root).contains(h2));
                        }
                    }
                    assert forall|i: int|
                        0 <= i < self.nodes@.len() implies #[trigger] self.nodes@[i].key
                        == spec_order_key(self.nodes@[i].name@) by {
                        if i < arena0.len() {
                            assert(self.nodes@[i] == arena0[i]);
                        }
                    }
                    assert forall|p: int, q: int|
                        0 <= p < q < self.nodes@.len() implies self.nodes@[p].name@
                        != self.nodes@[q].name@ by {
                        if q < arena0.len() {
                            assert(arena0[p].name@ != arena0[q].name@);
                        } else {
                            assert(self.nodes@[q].name@ == name@);
                            lemma_arena_map_contains(arena0, name@);
                        }
                    }
                }
                Ok(())
            },
        }
    }

    /// Walk the index in order and copy out every `(identity, counters)`
    /// pair: exactly one per allocated node, identities distinct, order
    /// keys nondecreasing.
    pub fn traverse(&self) -> (r: Vec<(String, VtsNodeStats)>)
        requires
            self.wf(),
        ensures
            r@.len() == self.arena().len(),
            forall|i: int|
                0 <= i < r@.len() ==> self.as_map().contains_key(#[trigger] r@[i].0@)
                    && self.as_map()[r@[i].0@] == r@[i].1,
            forall|i: int, j: int| 0 <= i < j < r@.len() ==> r@[i].0@ != r@[j].0@,
            forall|i: int, j: int|
                0 <= i < j < r@.len() ==> spec_order_key(r@[i].0@) <= spec_order_key(r@[j].0@),
    {
        let mut out: Vec<(String, VtsNodeStats)> = Vec::new();
        walk_collect(&self.root, &self.nodes, &mut out);
        proof {
            let handles = inorder(self.root);
            assert forall|i: int|
                0 <= i < out@.len() implies self.as_map().contains_key(#[trigger] out@[i].0@)
                && self.as_map()[out@[i].0@] == out@[i].1 by {
                assert(handles.contains(handles[i]));
                lemma_arena_map_get(self.nodes@, handles[i]);
            }
            assert forall|i: int, j: int| 0 <= i < j < out@.len() implies out@[i].0@
                != out@[j].0@ by {
                assert(handles.contains(handles[i]));
                assert(handles.contains(handles[j]));
                assert(handles[i] != handles[j]);
            }
            assert forall|i: int, j: int| 0 <= i < j < out@.len() implies spec_order_key(
                out@[i].0@,
            ) <= spec_order_key(out@[j].0@) by {
                lemma_inorder_sorted(self.root, self.nodes@, i, j);
                assert(handles.contains(handles[i]));
                assert(handles.contains(handles[j]));
            }
        }
        out
    }
}

/// In a well-formed subtree, traversal order never decreases in key.
proof fn lemma_inorder_sorted(
    t: Option<Box<VtsTreeNode>>,
    arena: Seq<VtsSharedNode>,
    i: int,
    j: int,
)
    requires
        wf_tree(t, arena),
        0 <= i < j < inorder(t).len(),
        forall|h: int| #[trigger] inorder(t).contains(h) ==> 0 <= h < arena.len(),
    ensures
        arena[inorder(t)[i]].key <= arena[inorder(t)[j]].key,
    decreases t,
{
    match t {
        Option::None => {},
        Option::Some(n) => {
            let l = inorder(n.left);
            let r = inorder(n.right);
            let whole = l + seq![n.handle as int] + r;
            assert(inorder(t) == whole);
            assert forall|h: int| #[trigger] l.contains(h) implies 0 <= h < arena.len() by {}
            assert forall|h: int| #[trigger] r.contains(h) implies 0 <= h < arena.len() by {}
            if j < l.len() {
                lemma_inorder_sorted(n.left, arena, i, j);
                assert(whole[i] == l[i] && whole[j] == l[j]);
            } else if i > l.len() {
                lemma_inorder_sorted(n.right, arena, i - l.len() - 1, j - l.len() - 1);
                assert(whole[i] == r[i - l.len() - 1] && whole[j] == r[j - l.len() - 1]);
            } else {
                // i is in the left part or at the node; j at the node or right.
                if i < l.len() {
                    assert(whole[i] == l[i]);
                    assert(l.contains(l[i]));
                    assert(arena[whole[i]].key <= n.key);
                } else {
                    assert(whole[i] == n.handle as int);
                }
                if j > l.len() {
                    assert(whole[j] == r[j - l.len() - 1]);
                    assert(r.contains(r[j - l.len() - 1]));
                    assert(arena[whole[j]].key > n.key);
                } else {
                    assert(whole[j] == n.handle as int);
                }
            }
        },
    }
}

/// Append the traversal of a subtree to `out`, cloning each node's
/// identity and counters.
fn walk_collect(
    t: &Option<Box<VtsTreeNode>>,
    nodes: &Vec<VtsSharedNode>,
    out: &mut Vec<(String, VtsNodeStats)>,
)
    requires
        wf_tree(*t, nodes@),
    ensures
        final(out)@.len() == old(out)@.len() + inorder(*t).len(),
        forall|i: int| 0 <= i < old(out)@.len() ==> final(out)@[i] == old(out)@[i],
        forall|i: int|
            old(out)@.len() <= i < final(out)@.len() ==> #[trigger] final(out)@[i] == (
            nodes@[inorder(*t)[i - old(out)@.len()]].name,
            nodes@[inorder(*t)[i - old(out)@.len()]].stats,
            ),
    decreases *t,
{
    match t {
        Option::None => {},
        Option::Some(n) => {
            let ghost l = inorder(n.left);
            let ghost r = inorder(n.right);
            let ghost whole = l + seq![n.handle as int] + r;
            let ghost pre = out@;
            proof {
                assert(inorder(*t) == whole);
            }
            walk_collect(&n.left, nodes, out);
            let ghost mid1 = out@;
            out.push((nodes[n.handle].name.clone(), nodes[n.handle].stats));
            let ghost mid2 = out@;
            walk_collect(&n.right, nodes, out);
            proof {
                assert forall|i: int|
                    pre.len() <= i < out@.len() implies #[trigger] out@[i] == (
                    nodes@[whole[i - pre.len()]].name,
                    nodes@[whole[i - pre.len()]].stats,
                ) by {
                    let j = i - pre.len();
                    if j < l.len() {
                        assert(whole[j] == l[j]);
                        assert(out@[i] == mid2[i]);
                        assert(mid2[i] == mid1[i]);
                    } else if j == l.len() {
                        assert(whole[j] == n.handle as int);
                        assert(i == mid1.len());
                        assert(out@[i] == mid2[i]);
                    } else {
                        assert(whole[j] == r[j - l.len() - 1]);
                        assert(i - mid2.len() == j - l.len() - 1);
                    }
                }
            }
        },
    }
}

} // verus!
