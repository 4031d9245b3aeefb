use vstd::prelude::*;

use crate::error::FormatError;

verus! {

/// A node of the scene hierarchy: the mesh it carries, if any, and its
/// children in declaration order.
pub struct SceneNode {
    pub mesh: Option<usize>,
    pub children: Vec<usize>,
}

/// One step of the depth-first walk: the node visited and the position in the
/// walk of its parent's visit (`None` for a root).
#[derive(Clone, Copy, PartialEq, Eq, Debug, Structural)]
pub struct NodeVisit {
    pub node: usize,
    pub parent: Option<usize>,
}

/// The walk of the subtree under node `n`, starting at position `base`: the
/// node itself, then its children's subtrees in order. `None` if a node is
/// missing or the walk goes deeper than `depth`.
pub open spec fn subtree(nodes: Seq<SceneNode>, n: int, parent: Option<usize>, base: int, depth: nat) -> Option<Seq<NodeVisit>>
    decreases depth, 0int,
{
    if depth == 0 || !(0 <= n < nodes.len()) {
        None
    } else {
        match forest(nodes, nodes[n].children@, 0, Some(base as usize), base + 1, (depth - 1) as nat) {
            Some(rest) => Some(seq![NodeVisit { node: n as usize, parent }] + rest),
            None => None,
        }
    }
}

/// The walks of the subtrees under `list[i..]`, one after another, starting at
/// position `base`, all with the same parent.
pub open spec fn forest(nodes: Seq<SceneNode>, list: Seq<usize>, i: int, parent: Option<usize>, base: int, depth: nat) -> Option<Seq<NodeVisit>>
    decreases depth, list.len() - i,
{
    if i >= list.len() || i < 0 {
        Some(Seq::empty())
    } else {
        match subtree(nodes, list[i] as int, parent, base, depth) {
            None => None,
            Some(first) => match forest(nodes, list, i + 1, parent, base + first.len(), depth) {
                None => None,
                Some(rest) => Some(first + rest),
            },
        }
    }
}

/// The whole walk: every root's subtree in declaration order. A hierarchy
/// that is a forest is never deeper than its node count.
pub open spec fn walk(nodes: Seq<SceneNode>, roots: Seq<usize>) -> Option<Seq<NodeVisit>> {
    forest(nodes, roots, 0, None, 0, nodes.len())
}

/// Each visit's parent visit comes before it.
pub open spec fn parents_precede(s: Seq<NodeVisit>) -> bool {
    forall|k: int| 0 <= k < s.len() ==> ((#[trigger] s[k]).parent matches Some(p) ==> p < k)
}

fn visit_subtree(nodes: &Vec<SceneNode>, n: usize, parent: Option<usize>, depth: usize, out: &mut Vec<NodeVisit>) -> (ok: bool)
    requires
        parent matches Some(p) ==> p < old(out)@.len(),
        parents_precede(old(out)@),
    ensures
        ok <==> subtree(nodes@, n as int, parent, old(out)@.len() as int, depth as nat) is Some,
        ok ==> final(out)@ == old(out)@ + subtree(nodes@, n as int, parent, old(out)@.len() as int, depth as nat)->Some_0,
        ok ==> parents_precede(final(out)@),
    decreases depth, 0int,
{
    if depth == 0 || n >= nodes.len() {
        return false;
    }
    let ghost start = out@;
    let me = out.len();
    out.push(NodeVisit { node: n, parent });
    assert(parents_precede(out@));
    let ok = visit_forest(nodes, &nodes[n].children, 0, Some(me), depth - 1, out);
    proof {
        if ok {
            assert(out@ =~= start + subtree(nodes@, n as int, parent, start.len() as int, depth as nat)->Some_0);
        }
    }
    ok
}

fn visit_forest(nodes: &Vec<SceneNode>, list: &Vec<usize>, i: usize, parent: Option<usize>, depth: usize, out: &mut Vec<NodeVisit>) -> (ok: bool)
    requires
        i <= list@.len(),
        parent matches Some(p) ==> p < old(out)@.len(),
        parents_precede(old(out)@),
    ensures
        ok <==> forest(nodes@, list@, i as int, parent, old(out)@.len() as int, depth as nat) is Some,
        ok ==> final(out)@ == old(out)@ + forest(nodes@, list@, i as int, parent, old(out)@.len() as int, depth as nat)->Some_0,
        ok ==> parents_precede(final(out)@),
    decreases depth, list@.len() - i,
{
    if i >= list.len() {
        assert(old(out)@ + Seq::<NodeVisit>::empty() =~= old(out)@);
        return true;
    }
    let ghost start = out@;
    if !visit_subtree(nodes, list[i], parent, depth, out) {
        return false;
    }
    let ghost mid = out@;
    let ok = visit_forest(nodes, list, i + 1, parent, depth, out);
    proof {
        if ok {
            let first = subtree(nodes@, list@[i as int] as int, parent, start.len() as int, depth as nat)->Some_0;
            assert(mid.len() == start.len() + first.len());
            assert(out@ =~= start + forest(nodes@, list@, i as int, parent, start.len() as int, depth as nat)->Some_0);
        }
    }
    ok
}

/// Walks the hierarchy depth-first from each root in declaration order,
/// children in declaration order. Fails when a node refers to a missing node
/// or the hierarchy holds a cycle.
pub fn traverse_nodes(nodes: &Vec<SceneNode>, roots: &Vec<usize>) -> (r: Result<Vec<NodeVisit>, FormatError>)
    ensures
        r is Err <==> walk(nodes@, roots@) is None,
        r is Err ==> r->Err_0 == FormatError::InvalidHierarchy,
        r matches Ok(v) ==> v@ == walk(nodes@, roots@)->Some_0 && parents_precede(v@),
{
    let mut out: Vec<NodeVisit> = Vec::new();
    if visit_forest(nodes, roots, 0, None, nodes.len(), &mut out) {
        assert(Seq::<NodeVisit>::empty() + walk(nodes@, roots@)->Some_0 =~= walk(nodes@, roots@)->Some_0);
        Ok(out)
    } else {
        Err(FormatError::InvalidHierarchy)
    }
}

} // verus!
