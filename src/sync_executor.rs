use crate::workflows::{Node, Workflow};
use vstd::prelude::*;

verus! {

/// What a walk records of each node it visits: the node's name, and whether
/// its output was present.
pub open spec fn visits(trace: Seq<(String, bool)>) -> Seq<(Seq<char>, bool)> {
    trace.map_values(|v: (String, bool)| (v.0@, v.1))
}

/// Whether each visited node's output was present, in order.
pub open spec fn outcomes(trace: Seq<(Seq<char>, bool)>) -> Seq<bool> {
    trace.map_values(|v: (Seq<char>, bool)| v.1)
}

/// A graph that can be walked on the calling thread, one node after another.
pub trait SyncExecute<I: Clone>: Workflow<I> {
    /// `trace` is a walk that starting here with `input` can take: each node
    /// runs on a clone of its input; a present output goes on to the success
    /// branch, an absent one hands the original input to the failure branch; the
    /// terminal node ends the walk and is not itself recorded.
    spec fn walks(&self, input: I, trace: Seq<(Seq<char>, bool)>) -> bool;

    /// The nodes a walk visits are fixed by whether each output along the way
    /// was present: two walks from here, on any inputs, that saw the same
    /// outcomes visited the same nodes.
    proof fn lemma_path_determined(&self, a: I, ta: Seq<(Seq<char>, bool)>, b: I, tb: Seq<(Seq<char>, bool)>)
        requires
            self.walks(a, ta),
            self.walks(b, tb),
            outcomes(ta) == outcomes(tb),
        ensures
            ta == tb,
    ;

    /// Runs the graph from here on `input` and returns the nodes visited, in
    /// order. A fault raised inside a node's function is not caught: it aborts
    /// the whole walk.
    fn sync_execute(&self, input: I) -> (r: Vec<(String, bool)>)
        ensures
            self.walks(input, visits(r@)),
    ;
}

impl<I: Clone> SyncExecute<I> for () {
    open spec fn walks(&self, input: I, trace: Seq<(Seq<char>, bool)>) -> bool {
        trace.len() == 0
    }

    proof fn lemma_path_determined(&self, a: I, ta: Seq<(Seq<char>, bool)>, b: I, tb: Seq<(Seq<char>, bool)>) {
    }

    fn sync_execute(&self, input: I) -> (r: Vec<(String, bool)>) {
        let r: Vec<(String, bool)> = Vec::new();
        assert(visits(r@) =~= Seq::empty());
        r
    }
}

impl<I: Clone, O: Clone, W: Fn(I) -> Option<O>, S: SyncExecute<O>, F: SyncExecute<I>> SyncExecute<I> for Node<I, O, W, S, F> {
    open spec fn walks(&self, input: I, trace: Seq<(Seq<char>, bool)>) -> bool {
        &&& trace.len() >= 1
        &&& trace[0].0 == self.label()
        &&& exists|c: I, o: Option<O>|
            #![trigger self.produces(c, o)]
            cloned(input, c) && self.produces(c, o) && trace[0].1 == o.is_some() && match o {
                Some(y) => self.success_branch().walks(y, trace.drop_first()),
                None => self.failure_branch().walks(input, trace.drop_first()),
            }
    }

    proof fn lemma_path_determined(&self, a: I, ta: Seq<(Seq<char>, bool)>, b: I, tb: Seq<(Seq<char>, bool)>) {
        assert(self.walks(a, ta));
        assert(self.walks(b, tb));
        assert(ta.len() >= 1 && tb.len() >= 1);
        let (ca, oa) = choose|c: I, o: Option<O>|
            #![trigger self.produces(c, o)]
            cloned(a, c) && self.produces(c, o) && ta[0].1 == o.is_some() && match o {
                Some(y) => self.success_branch().walks(y, ta.drop_first()),
                None => self.failure_branch().walks(a, ta.drop_first()),
            };
        let (cb, ob) = choose|c: I, o: Option<O>|
            #![trigger self.produces(c, o)]
            cloned(b, c) && self.produces(c, o) && tb[0].1 == o.is_some() && match o {
                Some(y) => self.success_branch().walks(y, tb.drop_first()),
                None => self.failure_branch().walks(b, tb.drop_first()),
            };
        assert(outcomes(ta)[0] == ta[0].1);
        assert(outcomes(tb)[0] == tb[0].1);
        assert(ta[0].1 == tb[0].1);
        assert(ta[0] == tb[0]);
        assert(outcomes(ta.drop_first()) =~= outcomes(ta).drop_first());
        assert(outcomes(tb.drop_first()) =~= outcomes(tb).drop_first());
        match (oa, ob) {
            (Some(ya), Some(yb)) => {
                self.success_branch().lemma_path_determined(ya, ta.drop_first(), yb, tb.drop_first());
            },
            (None, None) => {
                self.failure_branch().lemma_path_determined(a, ta.drop_first(), b, tb.drop_first());
            },
            _ => {},
        }
        assert(ta.drop_first() == tb.drop_first());
        assert(ta =~= seq![ta[0]] + ta.drop_first());
        assert(tb =~= seq![tb[0]] + tb.drop_first());
    }

    fn sync_execute(&self, input: I) -> (r: Vec<(String, bool)>) {
        let c = input.clone();
        let output = self.execute(c);
        let present = output.is_some();
        let mut rest = match output {
            Some(y) => self.right().sync_execute(y),
            None => self.left().sync_execute(input),
        };
        let ghost old_rest = rest@;
        let mut r: Vec<(String, bool)> = Vec::new();
        r.push((self.current(), present));
        r.append(&mut rest);
        assert(r@.drop_first() =~= old_rest);
        assert(visits(r@).drop_first() =~= visits(r@.drop_first()));
        r
    }
}

/// A walk that finds its node's output present, where the success branch is
/// the terminal node, ends at that node.
pub proof fn lemma_stops_at_end_on_success<I: Clone, O: Clone, W: Fn(I) -> Option<O>, F: SyncExecute<I>>(
    node: Node<I, O, W, (), F>,
    input: I,
    trace: Seq<(Seq<char>, bool)>,
)
    requires
        node.walks(input, trace),
        trace[0].1,
    ensures
        trace.len() == 1,
{
}

/// A walk that finds its node's output absent, where the failure branch is the
/// terminal node, ends at that node: its input goes no further.
pub proof fn lemma_stops_at_end_on_failure<I: Clone, O: Clone, W: Fn(I) -> Option<O>, S: SyncExecute<O>>(
    node: Node<I, O, W, S, ()>,
    input: I,
    trace: Seq<(Seq<char>, bool)>,
)
    requires
        node.walks(input, trace),
        !trace[0].1,
    ensures
        trace.len() == 1,
{
}

} // verus!
