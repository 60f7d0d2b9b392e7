use std::marker::PhantomData;
use std::sync::Arc;
use vstd::prelude::*;

verus! {

/// A node of a workflow graph, taking inputs of type `I`.
pub trait Workflow<I>: Sized {
    /// What the node's function gives when it succeeds.
    type Output;

    /// The node's identity, which names its queue when the graph is served by workers.
    spec fn name(&self) -> Seq<char>;

    /// Whether this is the terminal node.
    spec fn is_end(&self) -> bool;

    /// `output` is a possible result of running the node once on `input`; an
    /// absent output is the expected way to steer to the failure branch, not a fault.
    spec fn produces(&self, input: I, output: Option<Self::Output>) -> bool;

    /// The node's identity.
    fn current(&self) -> (r: String)
        ensures
            r@ == self.name(),
    ;

    /// Whether this is the terminal node, which ends every path that reaches it.
    fn is_terminal(&self) -> (r: bool)
        ensures
            r == self.is_end(),
    ;

    /// Runs the node's function once on `input`.
    fn execute(&self, input: I) -> (r: Option<Self::Output>)
        ensures
            self.produces(input, r),
    ;
}

/// The terminal node, "End": the default of every unset branch. Its function
/// always gives `()`, and it has no branches of its own.
impl<I> Workflow<I> for () {
    type Output = ();

    open spec fn name(&self) -> Seq<char> {
        seq!['E', 'n', 'd']
    }

    open spec fn is_end(&self) -> bool {
        true
    }

    open spec fn produces(&self, input: I, output: Option<()>) -> bool {
        output == Some(())
    }

    fn current(&self) -> (r: String) {
        let r = String::from_str("End");
        proof { reveal_strlit("End"); }
        r
    }

    fn is_terminal(&self) -> (r: bool) {
        true
    }

    fn execute(&self, input: I) -> (r: Option<()>) {
        Some(())
    }
}

/// A named node with its function, its success branch `S` (which takes the
/// output `O`) and its failure branch `F` (which takes the same input `I`). The
/// function is shared between copies of a node, and never copied itself.
#[verifier::reject_recursive_types(I)]
#[verifier::reject_recursive_types(O)]
#[verifier::reject_recursive_types(W)]
pub struct Node<I, O, W: Fn(I) -> Option<O>, S, F> {
    name: String,
    workflow: Arc<W>,
    ok: S,
    ko: F,
    types: PhantomData<(I, O)>,
}

impl<I, O, W: Fn(I) -> Option<O>, S, F> Node<I, O, W, S, F> {
    /// The execution function accepts every input.
    #[verifier::type_invariant]
    spec fn total(&self) -> bool {
        forall|i: I| #[trigger] call_requires(*self.workflow, (i,))
    }

    /// The node's name.
    pub closed spec fn label(&self) -> Seq<char> {
        self.name@
    }

    /// The node's execution function.
    pub closed spec fn function(&self) -> W {
        *self.workflow
    }

    /// The branch taken when the function gives an output.
    pub closed spec fn success_branch(&self) -> S {
        self.ok
    }

    /// The branch taken, with the same input, when the function gives none.
    pub closed spec fn failure_branch(&self) -> F {
        self.ko
    }

    /// The failure branch, which takes this node's own input.
    pub fn left(&self) -> (r: &F)
        ensures
            *r == self.failure_branch(),
    {
        &self.ko
    }

    /// The success branch, which takes this node's output.
    pub fn right(&self) -> (r: &S)
        ensures
            *r == self.success_branch(),
    {
        &self.ok
    }
}

impl<I, O, W: Fn(I) -> Option<O>, S: Clone, F: Clone> Clone for Node<I, O, W, S, F> {
    /// A copy that shares this node's function rather than copying it.
    fn clone(&self) -> (r: Self)
        ensures
            r.label() == self.label(),
            r.function() == self.function(),
            cloned(self.success_branch(), r.success_branch()),
            cloned(self.failure_branch(), r.failure_branch()),
    {
        proof { use_type_invariant(self); }
        Node {
            name: self.name.clone(),
            workflow: Arc::clone(&self.workflow),
            ok: self.ok.clone(),
            ko: self.ko.clone(),
            types: PhantomData,
        }
    }
}

impl<I, O, W: Fn(I) -> Option<O>> Node<I, O, W, (), ()> {
    /// A leaf node: both branches are the terminal node.
    pub fn new(name: &str, workflow: W) -> (r: Self)
        requires
            forall|i: I| #[trigger] call_requires(workflow, (i,)),
        ensures
            r.label() == name@,
            r.function() == workflow,
    {
        Node { name: name.to_string(), workflow: Arc::new(workflow), ok: (), ko: (), types: PhantomData }
    }
}

impl<I, O, W: Fn(I) -> Option<O>, F> Node<I, O, W, (), F> {
    /// Attaches the success branch, which is still unset.
    pub fn and_then<S: Workflow<O>>(self, ok: S) -> (r: Node<I, O, W, S, F>)
        ensures
            r.label() == self.label(),
            r.function() == self.function(),
            r.success_branch() == ok,
            r.failure_branch() == self.failure_branch(),
    {
        proof { use_type_invariant(&self); }
        Node { name: self.name, workflow: self.workflow, ok, ko: self.ko, types: PhantomData }
    }
}

impl<I, O, W: Fn(I) -> Option<O>, S> Node<I, O, W, S, ()> {
    /// Attaches the failure branch, which is still unset.
    pub fn or_else<F: Workflow<I>>(self, ko: F) -> (r: Node<I, O, W, S, F>)
        ensures
            r.label() == self.label(),
            r.function() == self.function(),
            r.success_branch() == self.success_branch(),
            r.failure_branch() == ko,
    {
        proof { use_type_invariant(&self); }
        Node { name: self.name, workflow: self.workflow, ok: self.ok, ko, types: PhantomData }
    }
}

impl<I, O, W: Fn(I) -> Option<O>, S: Workflow<O>, F: Workflow<I>> Workflow<I> for Node<I, O, W, S, F> {
    type Output = O;

    open spec fn name(&self) -> Seq<char> {
        self.label()
    }

    open spec fn is_end(&self) -> bool {
        false
    }

    open spec fn produces(&self, input: I, output: Option<O>) -> bool {
        call_ensures(self.function(), (input,), output)
    }

    fn current(&self) -> (r: String) {
        self.name.clone()
    }

    fn is_terminal(&self) -> (r: bool) {
        false
    }

    fn execute(&self, input: I) -> (r: Option<O>) {
        proof { use_type_invariant(self); }
        (self.workflow)(input)
    }
}

} // verus!
