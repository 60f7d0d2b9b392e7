use crate::workflows::{Node, Workflow};
use vstd::prelude::*;

verus! {

/// A write that a worker makes to the registry after running its node on one item.
pub enum Store<I, O> {
    /// The node's output, for the queue of its success branch.
    Success { name: String, item: O },
    /// The node's original input, for the queue of its failure branch.
    Failure { name: String, item: I },
}

impl<I: Clone, O, W: Fn(I) -> Option<O>, S: Workflow<O>, F: Workflow<I>> Node<I, O, W, S, F> {
    /// What a worker for this node writes after running it on `input`: the node
    /// runs on a clone of `input`; a present output goes to the success branch's
    /// queue, an absent one hands `input` itself to the failure branch's queue;
    /// where that branch is the terminal node, nothing is written.
    pub open spec fn routes(&self, input: I, r: Option<Store<I, O>>) -> bool {
        exists|c: I, o: Option<O>|
            #![trigger self.produces(c, o)]
            cloned(input, c) && self.produces(c, o) && match o {
                Some(y) => if self.success_branch().is_end() {
                    r is None
                } else {
                    r matches Some(Store::Success { name, item }) && name@ == self.success_branch().name() && item == y
                },
                None => if self.failure_branch().is_end() {
                    r is None
                } else {
                    r matches Some(Store::Failure { name, item }) && name@ == self.failure_branch().name() && item == input
                },
            }
    }

    /// Runs this node on one item drained from its queue and says where the
    /// result goes.
    pub fn route(&self, input: I) -> (r: Option<Store<I, O>>)
        ensures
            self.routes(input, r),
    {
        let c = input.clone();
        match self.execute(c) {
            Some(y) => {
                if self.right().is_terminal() {
                    None
                } else {
                    Some(Store::Success { name: self.right().current(), item: y })
                }
            },
            None => {
                if self.left().is_terminal() {
                    None
                } else {
                    Some(Store::Failure { name: self.left().current(), item: input })
                }
            },
        }
    }

    /// One poll of this node's worker: routes every item drained from its
    /// queue, each once and in the order drained.
    pub fn poll(&self, items: Vec<I>) -> (r: Vec<Option<Store<I, O>>>)
        ensures
            r.len() == items.len(),
            forall|k: int| 0 <= k < items.len() ==> #[trigger] self.routes(items[k], r[k]),
    {
        let ghost drained = items@;
        let mut items = items;
        let mut r: Vec<Option<Store<I, O>>> = Vec::new();
        while items.len() > 0
            invariant
                r.len() + items.len() == drained.len(),
                items@ == drained.skip(r.len() as int),
                forall|k: int| 0 <= k < r.len() ==> #[trigger] self.routes(drained[k], r[k]),
            decreases items.len(),
        {
            let item = items.remove(0);
            r.push(self.route(item));
            assert(items@ =~= drained.skip(r.len() as int));
        }
        r
    }
}

/// A worker for a node whose branches are both the terminal node writes nothing.
pub proof fn lemma_leaf_writes_nothing<I: Clone, O, W: Fn(I) -> Option<O>>(
    node: Node<I, O, W, (), ()>,
    input: I,
    r: Option<Store<I, O>>,
)
    requires
        node.routes(input, r),
    ensures
        r is None,
{
}

/// A worker sends on the node's output itself when it is present, and the
/// original input itself, untransformed, when it is absent.
pub proof fn lemma_forwarded_values<I: Clone, O, W: Fn(I) -> Option<O>, S: Workflow<O>, F: Workflow<I>>(
    node: Node<I, O, W, S, F>,
    input: I,
    r: Option<Store<I, O>>,
)
    requires
        node.routes(input, r),
    ensures
        r matches Some(Store::Success { item, .. }) ==> exists|c: I|
            cloned(input, c) && #[trigger] node.produces(c, Some(item)),
        r matches Some(Store::Failure { item, .. }) ==> item == input && exists|c: I|
            cloned(input, c) && #[trigger] node.produces(c, None),
{
    let (c, o) = choose|c: I, o: Option<O>|
        #![trigger node.produces(c, o)]
        cloned(input, c) && node.produces(c, o) && match o {
            Some(y) => if node.success_branch().is_end() {
                r is None
            } else {
                r matches Some(Store::Success { name, item }) && name@ == node.success_branch().name() && item == y
            },
            None => if node.failure_branch().is_end() {
                r is None
            } else {
                r matches Some(Store::Failure { name, item }) && name@ == node.failure_branch().name() && item == input
            },
        };
}

} // verus!
