//! Focus traversal: walking the focus path against the live tree, routing
//! events down the path with absorb semantics, and moving focus between
//! focusable nodes in depth-first order with wrap-around.

use vstd::prelude::*;

use crate::action::{Action, FocusChangeDirection};
use crate::component::{ComponentId, ComponentIdPath, HandleEventSuccess, Node};
use crate::event::Event;
use crate::events::{node_event_ready, node_handle_event, node_transition};

verus! {

broadcast use vstd::std_specs::vec::axiom_vec_index_decreases;

/// The view of an identifier path as a sequence of raw identifiers.
pub open spec fn path_view(p: Seq<ComponentId>) -> Seq<u64> {
    p.map_values(|c: ComponentId| c.0)
}

/// The first child whose identifier matches, if any; child order decides.
pub open spec fn spec_child_with_id(n: Node, id: u64) -> Option<int> {
    spec_child_with_id_from(n, 0, id)
}

pub open spec fn spec_child_with_id_from(n: Node, i: int, id: u64) -> Option<int>
    decreases n.children.len() - i,
{
    if i < 0 || i >= n.children.len() {
        None
    } else if n.children[i].id.0 == id {
        Some(i)
    } else {
        spec_child_with_id_from(n, i + 1, id)
    }
}

/// Walks a stored focus path against the live tree: the longest prefix of
/// the path that still names an existing chain of child edges, together
/// with the node that prefix leads to (the "deepest available component").
pub open spec fn spec_deepest(n: Node, path: Seq<u64>) -> (Seq<u64>, Node)
    decreases n,
{
    if path.len() == 0 {
        (Seq::empty(), n)
    } else {
        match spec_child_with_id(n, path[0]) {
            Some(i) => if 0 <= i < n.children.len() {
                let sub = spec_deepest(n.children[i], path.drop_first());
                (seq![path[0]] + sub.0, sub.1)
            } else {
                (Seq::empty(), n)
            },
            None => (Seq::empty(), n),
        }
    }
}

/// Child lookup only depends on the children.
pub proof fn lemma_child_with_id_same(a: Node, b: Node, i: int, id: u64)
    requires
        a.children == b.children,
        i >= 0,
    ensures
        spec_child_with_id_from(a, i, id) == spec_child_with_id_from(b, i, id),
    decreases a.children.len() - i,
{
    if i < a.children.len() {
        lemma_child_with_id_same(a, b, i + 1, id);
    }
}

/// Finds the first child with the given identifier.
fn child_with_id(n: &Node, id: u64) -> (r: Option<usize>)
    ensures
        match r {
            Some(i) => i < n.children.len() && spec_child_with_id(*n, id) == Some(i as int),
            None => spec_child_with_id(*n, id) is None,
        },
{
    let k = n.children.len();
    for i in 0..k
        invariant
            k == n.children.len(),
            spec_child_with_id(*n, id) == spec_child_with_id_from(*n, i as int, id),
    {
        if n.children[i].id.0 == id {
            return Some(i);
        }
    }
    None
}

impl ComponentIdPath {
    /// Walks this path against the live tree, id by id, stopping at the
    /// first id that no longer has a matching child; returns the node
    /// reached and the still-valid prefix of the path. This tolerates
    /// components being removed or replaced between frames.
    pub fn find_deepest_available_component<'a>(&self, root: &'a Node) -> (r: (
        &'a Node,
        ComponentIdPath,
    ))
        ensures
            ({
                let sp = spec_deepest(*root, path_view(self.0@));
                &&& *r.0 == sp.1
                &&& path_view(r.1.0@) == sp.0
                &&& r.1.0@ == self.0@.subrange(0, r.1.0@.len() as int)
            }),
    {
        let (node, depth) = Self::find_deepest_inner(self, root, 0);
        let mut prefix: Vec<ComponentId> = Vec::new();
        for i in 0..depth
            invariant
                depth <= self.0.len(),
                prefix@ == self.0@.subrange(0, i as int),
        {
            prefix.push(self.0[i]);
            proof {
                assert(prefix@ =~= self.0@.subrange(0, i + 1));
            }
        }
        proof {
            assert(path_view(self.0@).skip(0) =~= path_view(self.0@));
            assert(path_view(prefix@) =~= path_view(self.0@).subrange(0, depth as int));
        }
        (node, ComponentIdPath(prefix))
    }

    /// Recursive walk: `depth` is how many path entries were consumed.
    fn find_deepest_inner<'a>(&self, root: &'a Node, depth: usize) -> (r: (&'a Node, usize))
        requires
            depth <= self.0@.len(),
        ensures
            ({
                let sp = spec_deepest(*root, path_view(self.0@).skip(depth as int));
                &&& *r.0 == sp.1
                &&& depth <= r.1 <= self.0@.len()
                &&& sp.0 == path_view(self.0@).subrange(depth as int, r.1 as int)
            }),
        decreases self.0@.len() - depth,
    {
        if depth == self.0.len() {
            proof {
                assert(path_view(self.0@).skip(depth as int) =~= Seq::<u64>::empty());
            }
            return (root, depth);
        }
        let head = self.0[depth].0;
        proof {
            assert(path_view(self.0@).skip(depth as int)[0] == self.0@[depth as int].0);
        }
        match child_with_id(root, head) {
            Some(i) => {
                let (node, d) = Self::find_deepest_inner(self, &root.children[i], depth + 1);
                proof {
                    let tail = path_view(self.0@).skip(depth as int);
                    assert(tail.drop_first() =~= path_view(self.0@).skip(depth + 1));
                    let sub = spec_deepest(root.children[i as int], tail.drop_first());
                    assert(spec_deepest(*root, tail).0 == seq![tail[0]] + sub.0);
                    assert(seq![tail[0]] + sub.0 =~= path_view(self.0@).subrange(
                        depth as int,
                        d as int,
                    ));
                }
                (node, d)
            },
            None => {
                proof {
                    let tail = path_view(self.0@).skip(depth as int);
                    assert(spec_deepest(*root, tail).0 =~= path_view(self.0@).subrange(
                        depth as int,
                        depth as int,
                    ));
                }
                (root, depth)
            },
        }
    }
}

/// An optional action as a (possibly empty) sequence.
pub open spec fn opt_seq(a: Option<Action>) -> Seq<Action> {
    match a {
        Some(x) => seq![x],
        None => Seq::empty(),
    }
}

/// Every node of the subtree can take the event right now.
pub open spec fn tree_ready(n: Node, ev: Event, now: u64) -> bool
    decreases n,
{
    &&& node_event_ready(n, ev, now)
    &&& forall|i: int| 0 <= i < n.children.len() ==> tree_ready(#[trigger] n.children[i], ev, now)
}

/// Relates a tree before and after delivering an event to the deepest node
/// still reachable along the given identifier path: exactly that node took
/// the event, everything else is untouched.
pub open spec fn event_at_end(
    pre: Node,
    post: Node,
    path: Seq<u64>,
    ev: Event,
    now: u64,
    absorb: bool,
    action: Option<Action>,
    sent: Seq<Action>,
) -> bool
    decreases pre,
{
    if path.len() == 0 {
        node_transition(pre, post, ev, now, absorb, action, sent) && post.children
            == pre.children
    } else {
        match spec_child_with_id(pre, path[0]) {
            Some(i) => if 0 <= i < pre.children.len() {
                &&& post.id == pre.id
                &&& post.widget == pre.widget
                &&& post.layout == pre.layout
                &&& post.children.len() == pre.children.len()
                &&& (forall|j: int| 0 <= j < pre.children.len() && j != i
                    ==> post.children[j] == #[trigger] pre.children[j])
                &&& event_at_end(
                    pre.children[i],
                    post.children[i],
                    path.drop_first(),
                    ev,
                    now,
                    absorb,
                    action,
                    sent,
                )
            } else {
                false
            },
            None => node_transition(pre, post, ev, now, absorb, action, sent) && post.children
                == pre.children,
        }
    }
}

/// Delivers an event to the deepest node still reachable along the path
/// (the whole path, when it is still valid).
pub fn handle_event_at_deepest(
    n: &mut Node,
    path: &Vec<ComponentId>,
    depth: usize,
    event: &Event,
    now_ms: u64,
) -> (r: (HandleEventSuccess, Vec<Action>))
    requires
        depth <= path@.len(),
        tree_ready(*old(n), *event, now_ms),
    ensures
        event_at_end(
            *old(n),
            *final(n),
            path_view(path@).skip(depth as int),
            *event,
            now_ms,
            r.0.absorb,
            r.0.action,
            r.1@,
        ),
    decreases path@.len() - depth,
{
    if depth == path.len() {
        proof {
            assert(path_view(path@).skip(depth as int) =~= Seq::<u64>::empty());
        }
        return node_handle_event(n, event, now_ms);
    }
    let head = path[depth].0;
    proof {
        assert(path_view(path@).skip(depth as int)[0] == path@[depth as int].0);
    }
    match child_with_id(n, head) {
        Some(i) => {
            let r = handle_event_at_deepest(&mut n.children[i], path, depth + 1, event, now_ms);
            proof {
                let tail = path_view(path@).skip(depth as int);
                assert(tail.drop_first() =~= path_view(path@).skip(depth + 1));
            }
            r
        },
        None => node_handle_event(n, event, now_ms),
    }
}

/// Relates a tree before and after an event was routed down the focus
/// path: the event is offered to every node along the path from the root
/// toward the leaf, and a node that absorbs it stops it from reaching its
/// descendants. `actions` collects, in visit order, what the handlers sent
/// and emitted.
pub open spec fn dispatched(
    pre: Node,
    post: Node,
    path: Seq<u64>,
    ev: Event,
    now: u64,
    actions: Seq<Action>,
) -> bool
    decreases pre,
{
    exists|absorb: bool, action: Option<Action>, sent: Seq<Action>|
        {
            let here = sent + opt_seq(action);
            &&& #[trigger] node_transition(pre, post, ev, now, absorb, action, sent)
            &&& if absorb || path.len() == 0 {
                post.children == pre.children && actions == here
            } else {
                match spec_child_with_id(pre, path[0]) {
                    Some(i) => if 0 <= i < pre.children.len() {
                        &&& post.children.len() == pre.children.len()
                        &&& (forall|j: int| 0 <= j < pre.children.len() && j != i
                            ==> post.children[j] == #[trigger] pre.children[j])
                        &&& actions.len() >= here.len()
                        &&& actions.subrange(0, here.len() as int) == here
                        &&& dispatched(
                            pre.children[i],
                            post.children[i],
                            path.drop_first(),
                            ev,
                            now,
                            actions.skip(here.len() as int),
                        )
                    } else {
                        false
                    },
                    None => post.children == pre.children && actions == here,
                }
            }
        }
}

/// Routes an event down the focus path, root to leaf, with absorb
/// semantics; returns everything the handlers sent or emitted, in order.
pub fn dispatch_event(
    n: &mut Node,
    path: &Vec<ComponentId>,
    depth: usize,
    event: &Event,
    now_ms: u64,
) -> (actions: Vec<Action>)
    requires
        depth <= path@.len(),
        tree_ready(*old(n), *event, now_ms),
    ensures
        dispatched(
            *old(n),
            *final(n),
            path_view(path@).skip(depth as int),
            *event,
            now_ms,
            actions@,
        ),
    decreases path@.len() - depth,
{
    let (success, mut actions) = node_handle_event(n, event, now_ms);
    let ghost sent = actions@;
    let ghost mid = *n;
    let ghost emitted = success.action;
    match success.action {
        Some(a) => actions.push(a),
        None => {},
    }
    proof {
        assert(actions@ =~= sent + opt_seq(emitted));
    }
    if success.absorb || depth == path.len() {
        proof {
            if !success.absorb {
                assert(path_view(path@).skip(depth as int) =~= Seq::<u64>::empty());
            }
            let tail = path_view(path@).skip(depth as int);
            assert(dispatched(*old(n), *n, tail, *event, now_ms, actions@));
        }
        return actions;
    }
    let head = path[depth].0;
    proof {
        assert(path_view(path@).skip(depth as int)[0] == path@[depth as int].0);
    }
    match child_with_id(n, head) {
        Some(i) => {
            proof {
                assert(tree_ready(old(n).children[i as int], *event, now_ms));
            }
            let mut sub = dispatch_event(&mut n.children[i], path, depth + 1, event, now_ms);
            let ghost before_sub = actions@;
            let ghost sub_view = sub@;
            actions.append(&mut sub);
            proof {
                let tail = path_view(path@).skip(depth as int);
                assert(tail.drop_first() =~= path_view(path@).skip(depth + 1));
                let here = sent + opt_seq(emitted);
                assert(actions@.subrange(0, here.len() as int) =~= here);
                assert(actions@.skip(here.len() as int) =~= sub_view);
                assert(node_transition(*old(n), *n, *event, now_ms, success.absorb, emitted,
                    sent));
                lemma_child_with_id_same(*old(n), mid, 0, head);
                assert(spec_child_with_id(*old(n), tail[0]) == Some(i as int));
                assert(dispatched(*old(n), *n, tail, *event, now_ms, actions@));
            }
            actions
        },
        None => {
            proof {
                let tail = path_view(path@).skip(depth as int);
                assert(node_transition(*old(n), *n, *event, now_ms, success.absorb, emitted,
                    sent));
                lemma_child_with_id_same(*old(n), mid, 0, head);
                assert(spec_child_with_id(*old(n), tail[0]) is None);
                assert(dispatched(*old(n), *n, tail, *event, now_ms, actions@));
            }
            actions
        },
    }
}

/// The focusable node that focus moves to, within the pre-order sequence
/// `f` of focusable identifiers: the next (or previous) entry with
/// wrap-around at the ends. A current node that is not itself focusable
/// falls back to the ends of the cycle.
pub open spec fn spec_advance(f: Seq<u64>, cur: u64, forward: bool) -> u64
    recommends
        f.len() > 0,
{
    match f.index_of_first(cur) {
        Some(k) => if forward {
            f[if k + 1 < f.len() {
                k + 1
            } else {
                0
            }]
        } else {
            f[if k > 0 {
                k - 1
            } else {
                f.len() - 1
            }]
        },
        None => if forward {
            f[0]
        } else {
            f[f.len() - 1]
        },
    }
}

/// Advancing focus repeatedly.
pub open spec fn spec_advance_times(f: Seq<u64>, cur: u64, forward: bool, n: nat) -> u64
    decreases n,
{
    if n == 0 {
        cur
    } else {
        spec_advance_times(f, spec_advance(f, cur, forward), forward, (n - 1) as nat)
    }
}

/// In a duplicate-free sequence, the first occurrence of the element at a
/// position is that position.
pub proof fn lemma_index_of_first_at(f: Seq<u64>, j: int)
    requires
        f.no_duplicates(),
        0 <= j < f.len(),
    ensures
        f.index_of_first(f[j]) == Some(j),
{
    f.index_of_first_ensures(f[j]);
    let idx = f.index_of_first(f[j]).unwrap();
    if idx < j {
        assert(f[idx] == f[j]);
        assert(false);
    }
    if idx > j {
        assert(f[j] != f[j]);
        assert(false);
    }
}

/// One forward step from the focusable at position `k` lands on position
/// `(k + 1) % N`.
pub proof fn lemma_advance_forward(f: Seq<u64>, k: int)
    requires
        f.no_duplicates(),
        0 <= k < f.len(),
    ensures
        spec_advance(f, f[k], true) == f[(k + 1) % (f.len() as int)],
{
    lemma_index_of_first_at(f, k);
    if k + 1 < f.len() {
        vstd::arithmetic::div_mod::lemma_small_mod((k + 1) as nat, f.len());
    } else {
        vstd::arithmetic::div_mod::lemma_mod_self_0(f.len() as int);
        assert((k + 1) % (f.len() as int) == 0);
    }
}

/// One backward step from the focusable at position `k` lands on position
/// `(k - 1 + N) % N`.
pub proof fn lemma_advance_backward(f: Seq<u64>, k: int)
    requires
        f.no_duplicates(),
        0 <= k < f.len(),
    ensures
        spec_advance(f, f[k], false) == f[(k - 1 + f.len()) % (f.len() as int)],
{
    lemma_index_of_first_at(f, k);
    vstd::arithmetic::div_mod::lemma_mod_add_multiples_vanish(k - 1, f.len() as int);
    if k > 0 {
        vstd::arithmetic::div_mod::lemma_small_mod((k - 1) as nat, f.len());
    } else {
        vstd::arithmetic::div_mod::lemma_small_mod((f.len() - 1) as nat, f.len());
        assert(k - 1 + f.len() == f.len() - 1);
    }
}

/// Repeated forward steps walk the cycle: `n` steps from position `k` land
/// on position `(k + n) % N`.
pub proof fn lemma_advance_times_index(f: Seq<u64>, k: int, n: nat)
    requires
        f.no_duplicates(),
        0 <= k < f.len(),
    ensures
        spec_advance_times(f, f[k], true, n) == f[(k + n) % (f.len() as int)],
    decreases n,
{
    if n == 0 {
        vstd::arithmetic::div_mod::lemma_small_mod(k as nat, f.len());
    } else {
        lemma_advance_forward(f, k);
        let k1 = (k + 1) % (f.len() as int);
        lemma_advance_times_index(f, k1, (n - 1) as nat);
        assert((k1 + (n - 1)) % (f.len() as int) == (k + n) % (f.len() as int)) by {
            vstd::arithmetic::div_mod::lemma_mod_twice(k + 1, f.len() as int);
            vstd::arithmetic::div_mod::lemma_add_mod_noop(k1 as int, (n - 1) as int,
                f.len() as int);
            vstd::arithmetic::div_mod::lemma_add_mod_noop(k + 1, (n - 1) as int, f.len() as int);
            vstd::arithmetic::div_mod::lemma_mod_twice((n - 1) as int, f.len() as int);
        }
    }
}

/// Focus wrap-around: for `N >= 1` focusable nodes, advancing focus
/// forward `N` times returns to the node it started from.
pub proof fn lemma_focus_wraparound(f: Seq<u64>, k: int)
    requires
        f.no_duplicates(),
        0 <= k < f.len(),
    ensures
        spec_advance_times(f, f[k], true, f.len()) == f[k],
{
    lemma_advance_times_index(f, k, f.len());
    assert((k + f.len()) % (f.len() as int) == k) by {
        vstd::arithmetic::div_mod::lemma_mod_add_multiples_vanish(k, f.len() as int);
        vstd::arithmetic::div_mod::lemma_small_mod(k as nat, f.len() as nat);
    }
}

/// Delivering a focus event never changes a node's identity, structure, or
/// anything the next event delivery needs: readiness is preserved.
pub proof fn lemma_focus_event_preserves_ready(
    pre: Node,
    post: Node,
    path: Seq<u64>,
    ev1: Event,
    now1: u64,
    absorb: bool,
    action: Option<Action>,
    sent: Seq<Action>,
    ev2: Event,
    now2: u64,
)
    requires
        event_at_end(pre, post, path, ev1, now1, absorb, action, sent),
        tree_ready(pre, ev2, now2),
        ev1 is FocusLost || ev1 is FocusGained,
        !(ev2 is Paste),
    ensures
        tree_ready(post, ev2, now2),
    decreases pre,
{
    if path.len() == 0 || spec_child_with_id(pre, path[0]) is None {
        assert(node_event_ready(post, ev2, now2));
        assert forall|i: int| 0 <= i < post.children.len() implies tree_ready(
            #[trigger] post.children[i],
            ev2,
            now2,
        ) by {
            assert(post.children[i] == pre.children[i]);
        }
    } else {
        let i = spec_child_with_id(pre, path[0]).unwrap();
        assert forall|j: int| 0 <= j < post.children.len() implies tree_ready(
            #[trigger] post.children[j],
            ev2,
            now2,
        ) by {
            if j == i {
                lemma_focus_event_preserves_ready(
                    pre.children[i],
                    post.children[i],
                    path.drop_first(),
                    ev1,
                    now1,
                    absorb,
                    action,
                    sent,
                    ev2,
                    now2,
                );
            } else {
                assert(post.children[j] == pre.children[j]);
            }
        }
    }
}

/// Moves focus to the next (or previous) focusable node in depth-first
/// pre-order, wrapping around at the ends. The previously focused node is
/// sent a focus-lost event first and the newly focused node a focus-gained
/// event afterwards; the actions their handlers produced are returned along
/// with the new focus path. With no focusable node in the tree, only the
/// focus-lost notification happens and the path stays as it was.
/// The identifier of the currently focused node: the deepest node still
/// reachable along the stored focus path.
pub open spec fn spec_current_focus_id(t0: Node, path: Seq<ComponentId>) -> u64 {
    let deep = spec_deepest(t0, path_view(path));
    if deep.0.len() > 0 {
        deep.0.last()
    } else {
        t0.id.0
    }
}

/// The identifier focus moves to.
pub open spec fn spec_new_focus_id(
    t0: Node,
    path: Seq<ComponentId>,
    direction: FocusChangeDirection,
) -> u64 {
    spec_advance(
        t0.focusable_ids(),
        spec_current_focus_id(t0, path),
        direction == FocusChangeDirection::Forward,
    )
}

#[verifier::rlimit(100)]
#[verifier::spinoff_prover]
pub fn change_focus(
    root: &mut Node,
    focus_path: &ComponentIdPath,
    direction: crate::action::FocusChangeDirection,
    now_ms: u64,
) -> (r: (ComponentIdPath, Vec<Action>))
    requires
        tree_ready(*old(root), Event::FocusLost, now_ms),
        tree_ready(*old(root), Event::FocusGained, now_ms),
    ensures
        old(root).focusable_ids().len() == 0 ==> r.0.0@ == focus_path.0@,
        old(root).focusable_ids().len() > 0 ==> match old(root).spec_find(
            spec_new_focus_id(*old(root), focus_path.0@, direction),
        ) {
            Some(sp) => path_view(r.0.0@) == sp.0,
            None => r.0.0@ == focus_path.0@,
        },
        (old(root).focusable_ids().len() == 0 || old(root).spec_find(
            spec_new_focus_id(*old(root), focus_path.0@, direction),
        ) is None) ==> exists|a1: bool, ac1: Option<Action>, s1: Seq<Action>|
            #[trigger] event_at_end(
                *old(root),
                *final(root),
                path_view(focus_path.0@),
                Event::FocusLost,
                now_ms,
                a1,
                ac1,
                s1,
            ),
        (old(root).focusable_ids().len() > 0 && old(root).spec_find(
            spec_new_focus_id(*old(root), focus_path.0@, direction),
        ) is Some) ==> exists|
            mid: Node,
            a1: bool,
            ac1: Option<Action>,
            s1: Seq<Action>,
            a2: bool,
            ac2: Option<Action>,
            s2: Seq<Action>,
        |
            {
                &&& #[trigger] event_at_end(
                    *old(root),
                    mid,
                    path_view(focus_path.0@),
                    Event::FocusLost,
                    now_ms,
                    a1,
                    ac1,
                    s1,
                )
                &&& #[trigger] event_at_end(
                    mid,
                    *final(root),
                    old(root).spec_find(
                        spec_new_focus_id(*old(root), focus_path.0@, direction),
                    ).unwrap().0,
                    Event::FocusGained,
                    now_ms,
                    a2,
                    ac2,
                    s2,
                )
            },
{
    let ghost t0 = *root;
    // Collect the focusable nodes in pre-order and locate the currently
    // focused node.
    let mut focusables: Vec<u64> = Vec::new();
    root.collect_focusable_ids(&mut focusables);
    proof {
        assert(focusables@ =~= t0.focusable_ids());
    }
    let (_deep_node, deep_path) = focus_path.find_deepest_available_component(root);
    let cur = if deep_path.0.len() > 0 {
        deep_path.0[deep_path.0.len() - 1].0
    } else {
        root.id.0
    };
    proof {
        let deep = spec_deepest(t0, path_view(focus_path.0@));
        if deep_path.0.len() > 0 {
            assert(path_view(deep_path.0@)[path_view(deep_path.0@).len() - 1] == deep.0.last());
        }
    }
    // Pick the new focus target before any notification: focus events do
    // not change identities or focusability.
    let n = focusables.len();
    let forward = matches!(direction, FocusChangeDirection::Forward);
    let mut new_id: Option<u64> = None;
    if n > 0 {
        let mut k: Option<usize> = None;
        let mut i: usize = 0;
        while i < n
            invariant
                n == focusables.len(),
                i <= n,
                match k {
                    Some(ki) => ki < i && focusables@.index_of_first(cur) == Some(ki as int),
                    None => forall|j: int| 0 <= j < i ==> focusables@[j] != cur,
                },
            decreases n - i,
        {
            if k.is_none() && focusables[i] == cur {
                proof {
                    focusables@.index_of_first_ensures(cur);
                    let idx = focusables@.index_of_first(cur).unwrap();
                    if idx < i {
                        assert(focusables@[idx] != cur);
                        assert(false);
                    }
                    if idx > i {
                        assert(focusables@[i as int] != cur);
                        assert(false);
                    }
                }
                k = Some(i);
            }
            i = i + 1;
        }
        proof {
            if k is None {
                focusables@.index_of_first_ensures(cur);
                if focusables@.index_of_first(cur) is Some {
                    let idx = focusables@.index_of_first(cur).unwrap();
                    assert(focusables@[idx] == cur);
                    assert(false);
                }
            }
        }
        let chosen = match k {
            Some(ki) => {
                if forward {
                    if ki + 1 < n {
                        focusables[ki + 1]
                    } else {
                        focusables[0]
                    }
                } else {
                    if ki > 0 {
                        focusables[ki - 1]
                    } else {
                        focusables[n - 1]
                    }
                }
            },
            None => {
                if forward {
                    focusables[0]
                } else {
                    focusables[n - 1]
                }
            },
        };
        new_id = Some(chosen);
        proof {
            let f = t0.focusable_ids();
            assert(chosen == spec_advance(f, cur, forward));
        }
    }
    // Find the path to the new focus target (still in the untouched tree).
    let mut new_path: Option<ComponentIdPath> = None;
    match new_id {
        Some(target) => {
            match root.find_component_by_id(target) {
                Some((_m, p)) => {
                    new_path = Some(p);
                },
                None => {},
            }
        },
        None => {},
    }
    // Notify the old focus holder.
    let (_s1, mut actions) = handle_event_at_deepest(
        root,
        &focus_path.0,
        0,
        &Event::FocusLost,
        now_ms,
    );
    let ghost s1_seq = actions@;
    let ghost mid = *root;
    proof {
        assert(path_view(focus_path.0@).skip(0) =~= path_view(focus_path.0@));
        assert(event_at_end(
            t0,
            mid,
            path_view(focus_path.0@),
            Event::FocusLost,
            now_ms,
            _s1.absorb,
            _s1.action,
            s1_seq,
        ));
        lemma_focus_event_preserves_ready(
            t0,
            mid,
            path_view(focus_path.0@),
            Event::FocusLost,
            now_ms,
            _s1.absorb,
            _s1.action,
            actions@,
            Event::FocusGained,
            now_ms,
        );
    }
    // Notify the new focus holder, if there is one.
    match new_path {
        Some(p) => {
            let (_s2, mut more) = handle_event_at_deepest(
                root,
                &p.0,
                0,
                &Event::FocusGained,
                now_ms,
            );
            let ghost s2_seq = more@;
            actions.append(&mut more);
            proof {
                assert(path_view(p.0@).skip(0) =~= path_view(p.0@));
                let f = t0.focusable_ids();
                let deep = spec_deepest(t0, path_view(focus_path.0@));
                let cur_s = if deep.0.len() > 0 { deep.0.last() } else { t0.id.0 };
                let fw = direction == FocusChangeDirection::Forward;
                let nid = spec_advance(f, cur_s, fw);
                assert(t0.spec_find(nid) is Some);
                assert(path_view(p.0@) == t0.spec_find(nid).unwrap().0);
                assert(event_at_end(
                    mid,
                    *root,
                    t0.spec_find(nid).unwrap().0,
                    Event::FocusGained,
                    now_ms,
                    _s2.absorb,
                    _s2.action,
                    s2_seq,
                ));
            }
            (p, actions)
        },
        None => {
            // No focusable node (or the target vanished): keep the path.
            let mut copy: Vec<ComponentId> = Vec::new();
            for i in 0..focus_path.0.len()
                invariant
                    copy@ == focus_path.0@.subrange(0, i as int),
            {
                copy.push(focus_path.0[i]);
                proof {
                    assert(copy@ =~= focus_path.0@.subrange(0, i + 1));
                }
            }
            proof {
                assert(copy@ =~= focus_path.0@);
            }
            (ComponentIdPath(copy), actions)
        },
    }
}

/// Advancing backward once undoes one forward advance.
pub proof fn lemma_backward_undoes_forward(f: Seq<u64>, k: int)
    requires
        f.no_duplicates(),
        0 <= k < f.len(),
    ensures
        spec_advance(f, spec_advance(f, f[k], true), false) == f[k],
{
    lemma_advance_forward(f, k);
    let k1 = (k + 1) % (f.len() as int);
    if k + 1 < f.len() {
        vstd::arithmetic::div_mod::lemma_small_mod((k + 1) as nat, f.len());
        assert(k1 == k + 1);
    } else {
        vstd::arithmetic::div_mod::lemma_mod_self_0(f.len() as int);
        assert(k1 == 0);
        assert(k == f.len() - 1);
    }
    lemma_advance_backward(f, k1);
    vstd::arithmetic::div_mod::lemma_mod_add_multiples_vanish(k1 - 1, f.len() as int);
    if k1 > 0 {
        vstd::arithmetic::div_mod::lemma_small_mod((k1 - 1) as nat, f.len());
    } else {
        vstd::arithmetic::div_mod::lemma_small_mod((f.len() - 1) as nat, f.len());
        assert(k1 - 1 + f.len() == f.len() - 1);
    }
}

} // verus!
