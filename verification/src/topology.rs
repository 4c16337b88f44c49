//! The glTF node tree as the skeleton builders walk it: parent links,
//! ancestors, and the search for the nearest ancestor that carries a bone.

use vstd::prelude::*;

verus! {

/// A glTF node's place in the node tree. (Its local transform is
/// floating-point data that lives beside it.)
#[derive(Debug, Clone)]
pub struct NodeTopology {
    pub name: String,
    /// The index that the node declares for itself.
    pub index: usize,
    pub parent: Option<usize>,
    pub children: Vec<usize>,
}

/// The parent links of a node list.
pub open spec fn parent_links(nodes: Seq<NodeTopology>) -> Seq<Option<usize>> {
    nodes.map_values(|n: NodeTopology| n.parent)
}

/// The parent of node `i`; none for a root and for an index outside the list.
pub open spec fn parent_of(p: Seq<Option<usize>>, i: int) -> Option<int> {
    if 0 <= i < p.len() {
        match p[i] {
            Some(q) => Some(q as int),
            None => None,
        }
    } else {
        None
    }
}

/// The `k`-th ancestor of node `i` (`i` itself for `k == 0`).
pub open spec fn ancestor(p: Seq<Option<usize>>, i: int, k: nat) -> Option<int>
    decreases k,
{
    if k == 0 {
        Some(i)
    } else {
        match ancestor(p, i, (k - 1) as nat) {
            Some(a) => parent_of(p, a),
            None => None,
        }
    }
}

/// Every chain of parent links ends: no node is its own ancestor.
pub open spec fn parents_acyclic(p: Seq<Option<usize>>) -> bool {
    forall|i: int| 0 <= i < p.len() ==> #[trigger] ancestor(p, i, (p.len() + 1) as nat) is None
}

/// Every parent link names a node of the list.
pub open spec fn parents_in_range(p: Seq<Option<usize>>) -> bool {
    forall|i: int| 0 <= i < p.len() ==> (#[trigger] p[i] matches Some(q) ==> q < p.len())
}

/// The nearest proper ancestor `a` of node `i` with `mark(a)` set, giving that
/// mark; looks at most `fuel` links up.
pub open spec fn climb(p: Seq<Option<usize>>, mark: spec_fn(int) -> Option<int>, i: int, fuel: nat) -> Option<int>
    decreases fuel,
{
    if fuel == 0 {
        None
    } else {
        match parent_of(p, i) {
            None => None,
            Some(q) => if mark(q) is Some {
                mark(q)
            } else {
                climb(p, mark, q, (fuel - 1) as nat)
            },
        }
    }
}

/// Whether the upward search from node `i` for a marked ancestor stops within
/// `fuel` links: it meets a node without a parent (or outside the list), or a
/// marked parent.
pub open spec fn climb_stops(p: Seq<Option<usize>>, mark: spec_fn(int) -> Option<int>, i: int, fuel: nat) -> bool
    decreases fuel,
{
    if fuel == 0 {
        false
    } else {
        match parent_of(p, i) {
            None => true,
            Some(q) => mark(q) is Some || climb_stops(p, mark, q, (fuel - 1) as nat),
        }
    }
}

/// The mark of the nearest proper ancestor of node `i` that carries one.
pub open spec fn nearest_marked(p: Seq<Option<usize>>, mark: spec_fn(int) -> Option<int>, i: int) -> Option<int> {
    climb(p, mark, i, (p.len() + 1) as nat)
}

/// Once a chain of ancestors has ended it stays ended.
pub proof fn lemma_ancestor_ended(p: Seq<Option<usize>>, i: int, k: nat, k2: nat)
    requires
        k <= k2,
        ancestor(p, i, k) is None,
    ensures
        ancestor(p, i, k2) is None,
    decreases k2 - k,
{
    if k < k2 {
        lemma_ancestor_ended(p, i, k, (k2 - 1) as nat);
    }
}

/// One step of the upward search: a node reached after `steps` links still
/// has fuel left for its parent while the chain has not ended.
pub proof fn lemma_climb_step(
    p: Seq<Option<usize>>,
    mark: spec_fn(int) -> Option<int>,
    node: int,
    cur: int,
    steps: nat,
)
    requires
        0 <= node < p.len(),
        parents_acyclic(p),
        ancestor(p, node, steps) == Some(cur),
        parent_of(p, cur) is Some,
        mark(parent_of(p, cur).unwrap()) is None,
    ensures
        steps + 1 <= p.len(),
        ancestor(p, node, steps + 1) == parent_of(p, cur),
        climb(p, mark, cur, (p.len() + 1 - steps) as nat) == climb(
            p,
            mark,
            parent_of(p, cur).unwrap(),
            (p.len() + 1 - (steps + 1)) as nat,
        ),
{
    assert(ancestor(p, node, (p.len() + 1) as nat) is None);
    if steps + 1 > p.len() {
        lemma_ancestor_ended(p, node, (p.len() + 1) as nat, steps);
    }
    assert(ancestor(p, node, steps + 1) == parent_of(p, cur));
    if steps + 1 == p.len() + 1 {
        assert(false);
    }
}

} // verus!

verus! {

/// The upward search finds only marks that every marked node could give.
pub proof fn lemma_climb_bounded(
    p: Seq<Option<usize>>,
    mark: spec_fn(int) -> Option<int>,
    i: int,
    fuel: nat,
    n: int,
)
    requires
        forall|q: int| (#[trigger] mark(q)) matches Some(v) ==> 0 <= v < n,
    ensures
        climb(p, mark, i, fuel) matches Some(v) ==> 0 <= v < n,
    decreases fuel,
{
    if fuel > 0 {
        if let Some(q) = parent_of(p, i) {
            if mark(q) is None {
                lemma_climb_bounded(p, mark, q, (fuel - 1) as nat, n);
            }
        }
    }
}

} // verus!

verus! {

/// The parent of node `i`, none for a root or an index outside the list.
fn parent_exec(nodes: &[NodeTopology], i: usize) -> (r: Option<usize>)
    ensures
        match r {
            Some(q) => parent_of(parent_links(nodes@), i as int) == Some(q as int),
            None => parent_of(parent_links(nodes@), i as int) is None,
        },
{
    if i < nodes.len() {
        nodes[i].parent
    } else {
        None
    }
}

/// Whether every parent link names a node of the list.
pub fn parents_are_in_range(nodes: &[NodeTopology]) -> (r: bool)
    ensures
        r == parents_in_range(parent_links(nodes@)),
{
    let n = nodes.len();
    let ghost p = parent_links(nodes@);
    let mut i: usize = 0;
    while i < n
        invariant
            n == nodes@.len(),
            p == parent_links(nodes@),
            i <= n,
            forall|j: int| 0 <= j < i ==> (#[trigger] p[j] matches Some(q) ==> q < p.len()),
        decreases n - i,
    {
        assert(p[i as int] == nodes@[i as int].parent);
        if let Some(q) = nodes[i].parent {
            if q >= n {
                return false;
            }
        }
        i += 1;
    }
    true
}

/// Whether every chain of parent links ends (no node is its own ancestor).
pub fn parents_are_acyclic(nodes: &[NodeTopology]) -> (r: bool)
    ensures
        r == parents_acyclic(parent_links(nodes@)),
{
    let n = nodes.len();
    let ghost p = parent_links(nodes@);
    let mut i: usize = 0;
    while i < n
        invariant
            n == nodes@.len(),
            p == parent_links(nodes@),
            i <= n,
            forall|j: int| 0 <= j < i ==> #[trigger] ancestor(p, j, (p.len() + 1) as nat) is None,
        decreases n - i,
    {
        let mut cur: Option<usize> = Some(i);
        let mut k: usize = 0;
        while k < n
            invariant
                n == nodes@.len(),
                p == parent_links(nodes@),
                i < n,
                k <= n,
                ancestor(p, i as int, k as nat) == match cur {
                    Some(c) => Some(c as int),
                    None => None,
                },
            decreases n - k,
        {
            cur = match cur {
                Some(c) => parent_exec(nodes, c),
                None => None,
            };
            k += 1;
        }
        let last = match cur {
            Some(c) => parent_exec(nodes, c),
            None => None,
        };
        assert(ancestor(p, i as int, (n + 1) as nat) == match last {
            Some(c) => Some(c as int),
            None => None,
        });
        if last.is_some() {
            return false;
        }
        i += 1;
    }
    true
}

} // verus!

verus! {

/// The ancestors of a node's parent are the node's own ancestors, one link further up.
pub proof fn lemma_ancestor_shift(p: Seq<Option<usize>>, i: int, q: int, r: nat)
    requires
        parent_of(p, i) == Some(q),
    ensures
        ancestor(p, i, r + 1) == ancestor(p, q, r),
    decreases r,
{
    if r > 0 {
        lemma_ancestor_shift(p, i, q, (r - 1) as nat);
        assert(ancestor(p, i, r + 1) == match ancestor(p, i, r) {
            Some(a) => parent_of(p, a),
            None => None,
        });
    } else {
        assert(ancestor(p, i, 1) == match ancestor(p, i, 0) {
            Some(a) => parent_of(p, a),
            None => None,
        });
    }
}

/// The upward search from node `i` stops at its `s`-th ancestor when that one
/// is marked and none of the ancestors in between is, given fuel for `s` links.
pub proof fn lemma_climb_reaches(
    p: Seq<Option<usize>>,
    mark: spec_fn(int) -> Option<int>,
    i: int,
    s: nat,
    fuel: nat,
)
    requires
        1 <= s <= fuel,
        ancestor(p, i, s) is Some,
        mark(ancestor(p, i, s).unwrap()) is Some,
        forall|r: nat| 0 < r < s ==> (#[trigger] ancestor(p, i, r) matches Some(q) ==> mark(q) is None),
    ensures
        climb(p, mark, i, fuel) == mark(ancestor(p, i, s).unwrap()),
    decreases s,
{
    assert(ancestor(p, i, 0) == Some(i));
    assert(ancestor(p, i, 1) == parent_of(p, i));
    if parent_of(p, i) is None {
        lemma_ancestor_ended(p, i, 1, s);
    }
    let q = parent_of(p, i).unwrap();
    lemma_ancestor_shift(p, i, q, (s - 1) as nat);
    if s > 1 {
        assert(ancestor(p, i, 1) matches Some(x) ==> mark(x) is None);
        assert forall|r: nat| 0 < r < s - 1 implies (#[trigger] ancestor(p, q, r) matches Some(x)
            ==> mark(x) is None) by {
            lemma_ancestor_shift(p, i, q, r);
            assert(ancestor(p, i, r + 1) matches Some(x) ==> mark(x) is None);
        }
        lemma_climb_reaches(p, mark, q, (s - 1) as nat, (fuel - 1) as nat);
    }
}

} // verus!
