use vstd::prelude::*;

use crate::attributes::KeyValue;
use crate::dom_node::DomNode;

verus! {

broadcast use vstd::std_specs::vec::group_vec_axioms;

/// A fold over nodes: an accumulator, an error, and what one node does to
/// the accumulator, stated over the accumulator's view.
///
/// Which `process` runs is fixed by the processor type where the fold is
/// invoked. Each node of a fold is handed to it whole; a processor that wants
/// the node's children folds them itself.
pub trait DomNodeProcessor {
    /// What the fold builds.
    type Acc: View;
    /// What stops the fold.
    type Error;

    /// The accumulator after `node`, and whether the fold may go on.
    spec fn step(acc: <Self::Acc as View>::V, node: DomNode) -> (<Self::Acc as View>::V, Option<Self::Error>);

    /// Processes one node.
    fn process(acc: &mut Self::Acc, node: &DomNode) -> (r: Result<(), Self::Error>)
        ensures
            Self::step((*old(acc))@, *node) == ((*final(acc))@, outcome(r)),
    ;
}

/// The error that `r` holds, if any.
pub open spec fn outcome<E>(r: Result<(), E>) -> Option<E> {
    match r {
        Ok(_) => None,
        Err(e) => Some(e),
    }
}

/// The fold of `nodes` by `P`, from the left, stopping at the first error.
pub open spec fn fold<P: DomNodeProcessor>(acc: <P::Acc as View>::V, nodes: Seq<DomNode>) -> (<P::Acc as View>::V, Option<P::Error>)
    decreases nodes.len(),
{
    if nodes.len() == 0 {
        (acc, None)
    } else {
        let (a, r) = fold::<P>(acc, nodes.drop_last());
        if r is Some {
            (a, r)
        } else {
            P::step(a, nodes.last())
        }
    }
}

/// An ordered collection of nodes, built from groupings of any shape: none,
/// one node, an optional node, a sequence, or a concatenation of collections
/// (which stands for a tuple of mixed members). A fold visits its nodes in
/// that order.
pub struct DomNodes {
    nodes: Vec<DomNode>,
}

impl DomNodes {
    /// The nodes of the collection, in fold order.
    pub closed spec fn view(&self) -> Seq<DomNode> {
        self.nodes@
    }

    /// The empty collection.
    pub fn empty() -> (r: DomNodes)
        ensures
            r@ == Seq::<DomNode>::empty(),
    {
        DomNodes { nodes: Vec::new() }
    }

    /// A collection of exactly one node.
    pub fn one(node: DomNode) -> (r: DomNodes)
        ensures
            r@ == seq![node],
    {
        let mut nodes: Vec<DomNode> = Vec::new();
        nodes.push(node);
        DomNodes { nodes }
    }

    /// No node, or one.
    pub fn optional(node: Option<DomNode>) -> (r: DomNodes)
        ensures
            node is None ==> r@ == Seq::<DomNode>::empty(),
            node is Some ==> r@ == seq![node->0],
    {
        match node {
            Some(n) => DomNodes::one(n),
            None => DomNodes::empty(),
        }
    }

    /// The nodes of `nodes`, in order.
    pub fn from_vec(nodes: Vec<DomNode>) -> (r: DomNodes)
        ensures
            r@ == nodes@,
    {
        DomNodes { nodes }
    }

    /// The members of `parts`, each collection in turn, flattened into one.
    pub fn concat(parts: Vec<DomNodes>) -> (r: DomNodes)
        ensures
            r@ == flatten(parts@),
    {
        let mut parts = parts;
        let ghost all = parts@;
        let mut rest: Vec<DomNodes> = Vec::new();
        // Take the parts from the back, then lay them out from the front.
        while parts.len() > 0
            invariant
                all == parts@ + rest@.reverse(),
            decreases parts@.len(),
        {
            let p = parts.pop().unwrap();
            rest.push(p);
            proof {
                assert(all =~= parts@ + rest@.reverse());
            }
        }
        assert(all =~= rest@.reverse());
        let mut out: Vec<DomNode> = Vec::new();
        while rest.len() > 0
            invariant
                flatten(all) == out@ + flatten(rest@.reverse()),
            decreases rest@.len(),
        {
            let ghost before = rest@.reverse();
            let mut p = rest.pop().unwrap();
            proof {
                assert(before =~= seq![p] + rest@.reverse());
                lemma_flatten_cons(p, rest@.reverse());
            }
            out.append(&mut p.nodes);
            proof {
                assert(flatten(all) =~= out@ + flatten(rest@.reverse()));
            }
        }
        proof {
            assert(rest@.reverse() =~= Seq::<DomNodes>::empty());
            assert(out@ =~= out@ + flatten(Seq::<DomNodes>::empty()));
        }
        DomNodes { nodes: out }
    }

    /// The nodes of the collection, in order.
    pub fn into_vec(self) -> (r: Vec<DomNode>)
        ensures
            r@ == self@,
    {
        self.nodes
    }

    /// Folds every node of the collection through `P`, in order; the first
    /// error stops the fold and is returned.
    pub fn process_all<P: DomNodeProcessor>(&self, acc: &mut P::Acc) -> (r: Result<(), P::Error>)
        ensures
            fold::<P>((*old(acc))@, self@) == ((*final(acc))@, outcome(r)),
    {
        process_seq::<P>(&self.nodes, acc)
    }
}

/// The nodes of each collection of `parts`, one collection after another.
pub open spec fn flatten(parts: Seq<DomNodes>) -> Seq<DomNode>
    decreases parts.len(),
{
    if parts.len() == 0 {
        Seq::empty()
    } else {
        flatten(parts.drop_last()) + parts.last()@
    }
}

proof fn lemma_flatten_cons(p: DomNodes, rest: Seq<DomNodes>)
    ensures
        flatten(seq![p] + rest) == p@ + flatten(rest),
    decreases rest.len(),
{
    if rest.len() == 0 {
        assert(seq![p] + rest =~= seq![p]);
        assert(seq![p].drop_last() =~= Seq::<DomNodes>::empty());
        assert(flatten(Seq::<DomNodes>::empty()) =~= Seq::<DomNode>::empty());
        assert(flatten(seq![p]) =~= p@);
        assert(p@ + flatten(rest) =~= p@);
    } else {
        lemma_flatten_cons(p, rest.drop_last());
        assert((seq![p] + rest).drop_last() =~= seq![p] + rest.drop_last());
        assert(p@ + flatten(rest) =~= p@ + flatten(rest.drop_last()) + rest.last()@);
    }
}

/// Folds the nodes of `nodes` through `P`, in order, stopping at the first error.
pub fn process_seq<P: DomNodeProcessor>(nodes: &Vec<DomNode>, acc: &mut P::Acc) -> (r: Result<(), P::Error>)
    ensures
        fold::<P>((*old(acc))@, nodes@) == ((*final(acc))@, outcome(r)),
{
    let ghost start = (*acc)@;
    let mut i: usize = 0;
    while i < nodes.len()
        invariant
            i <= nodes@.len(),
            start == (*old(acc))@,
            fold::<P>(start, nodes@.take(i as int)).0 == (*acc)@,
            fold::<P>(start, nodes@.take(i as int)).1 is None,
        decreases nodes@.len() - i,
    {
        let r = P::process(acc, &nodes[i]);
        proof {
            assert(nodes@.take(i + 1).drop_last() =~= nodes@.take(i as int));
            assert(nodes@.take(i + 1).last() == nodes@[i as int]);
        }
        if r.is_err() {
            proof {
                lemma_fold_stops::<P>(start, nodes@, i + 1);
            }
            return r;
        }
        i = i + 1;
    }
    proof {
        assert(nodes@.take(i as int) =~= nodes@);
    }
    Ok(())
}

/// Folding two runs of nodes one after the other is folding the first, then,
/// unless it failed, folding the second from where the first left off. An
/// error in an inner collection thus stops the enclosing one too.
pub proof fn lemma_fold_append<P: DomNodeProcessor>(acc: <P::Acc as View>::V, a: Seq<DomNode>, b: Seq<DomNode>)
    ensures
        fold::<P>(acc, a + b) == if fold::<P>(acc, a).1 is Some {
            fold::<P>(acc, a)
        } else {
            fold::<P>(fold::<P>(acc, a).0, b)
        },
    decreases b.len(),
{
    if b.len() == 0 {
        assert(a + b =~= a);
    } else {
        lemma_fold_append::<P>(acc, a, b.drop_last());
        assert((a + b).drop_last() =~= a + b.drop_last());
        assert((a + b).last() == b.last());
    }
}

/// Once a fold has failed, later nodes change nothing.
proof fn lemma_fold_stops<P: DomNodeProcessor>(acc: <P::Acc as View>::V, nodes: Seq<DomNode>, k: int)
    requires
        0 <= k <= nodes.len(),
        fold::<P>(acc, nodes.take(k)).1 is Some,
    ensures
        fold::<P>(acc, nodes) == fold::<P>(acc, nodes.take(k)),
    decreases nodes.len() - k,
{
    if k < nodes.len() {
        assert(nodes.take(k + 1).drop_last() =~= nodes.take(k));
        lemma_fold_stops::<P>(acc, nodes, k + 1);
    } else {
        assert(nodes.take(k) =~= nodes);
    }
}

} // verus!

verus! {

impl DomNode {
    /// Folds the node's children through `P`, in order; the first error stops
    /// the fold. An overlay folds no children.
    pub fn process_children<P: DomNodeProcessor>(&self, acc: &mut P::Acc) -> (r: Result<(), P::Error>)
        ensures
            fold::<P>((*old(acc))@, self.child_seq()) == ((*final(acc))@, outcome(r)),
    {
        match self {
            DomNode::Element { children, .. } => process_seq::<P>(children, acc),
            _ => Ok(()),
        }
    }

    /// Folds the node through `P` as a collection of one.
    pub fn process_all<P: DomNodeProcessor>(&self, acc: &mut P::Acc) -> (r: Result<(), P::Error>)
        ensures
            fold::<P>((*old(acc))@, seq![*self]) == ((*final(acc))@, outcome(r)),
    {
        proof {
            assert(seq![*self].drop_last() =~= Seq::<DomNode>::empty());
            assert(fold::<P>((*acc)@, Seq::<DomNode>::empty()) == ((*acc)@, None::<P::Error>));
            assert(seq![*self].last() == *self);
        }
        P::process(acc, self)
    }
}

/// The error of a fold that cannot fail. Its field is private: no value of it
/// is ever made.
#[derive(Debug, Clone, Copy)]
pub struct Never(());

/// A processor that counts the nodes handed to it; the count stops at the
/// largest `usize`.
pub struct ChildCounter;

impl DomNodeProcessor for ChildCounter {
    type Acc = usize;
    type Error = Never;

    open spec fn step(acc: usize, node: DomNode) -> (usize, Option<Never>) {
        (if acc < usize::MAX { (acc + 1) as usize } else { acc }, None)
    }

    fn process(acc: &mut usize, node: &DomNode) -> (r: Result<(), Never>) {
        if *acc < usize::MAX {
            *acc = *acc + 1;
        }
        Ok(())
    }
}

/// Counting `nodes` from `acc` adds their number, where that fits in a `usize`.
pub proof fn lemma_count(acc: usize, nodes: Seq<DomNode>)
    requires
        acc + nodes.len() <= usize::MAX,
    ensures
        fold::<ChildCounter>(acc, nodes) == ((acc + nodes.len()) as usize, None::<Never>),
    decreases nodes.len(),
{
    if nodes.len() > 0 {
        lemma_count(acc, nodes.drop_last());
    }
}

/// Counting a node as a member of a collection counts one; counting its
/// children counts as many as it has.
pub proof fn lemma_count_self_and_children(node: DomNode, acc: usize)
    requires
        acc + 1 <= usize::MAX,
        acc + node.child_seq().len() <= usize::MAX,
    ensures
        fold::<ChildCounter>(acc, seq![node]) == ((acc + 1) as usize, None::<Never>),
        fold::<ChildCounter>(acc, node.child_seq()) == ((acc + node.child_seq().len()) as usize, None::<Never>),
{
    lemma_count(acc, seq![node]);
    lemma_count(acc, node.child_seq());
}

/// Folding the children of an attribute overlay folds nothing, whatever the
/// wrapped node holds: the accumulator is left as it was and no error comes.
pub proof fn lemma_overlay_drops_children<P: DomNodeProcessor>(
    node: DomNode,
    extra: Vec<KeyValue>,
    acc: <P::Acc as View>::V,
)
    ensures
        fold::<P>(acc, DomNode::WithAttributes { extra, inner: Box::new(node) }.child_seq()) == (acc, None::<P::Error>),
{
}

} // verus!
