use std::sync::mpsc::{channel, Sender};
use workgraph::sync_executor::SyncExecute;
use workgraph::workflows::{Node, Workflow};

fn generate_chain(sender: Sender<Option<usize>>) -> impl SyncExecute<usize> {
    let first_borrow = sender.clone();
    let output = Node::new("check_greater_than_5", move |input: usize| {
        if input > 5 {
            first_borrow.clone().send(Some(input)).unwrap();
            Some(input)
        } else {
            first_borrow.clone().send(None).unwrap();
            None
        }
    });

    let second_borrow = sender.clone();

    let ok = Node::new("multiply_by_2", move |input: usize| {
        second_borrow.clone().send(Some(input * 2)).unwrap();
        Some(input * 2)
    });

    let third_borrow = sender.clone();

    let ko = Node::new("set_to_zero", move |_: usize| {
        third_borrow.clone().send(Some(0)).unwrap();
        Some(0)
    });

    output.and_then(ok).or_else(ko)
}

#[test]
fn test_workflow() {
    let (sender, receiver) = channel();

    let chain = generate_chain(sender);

    chain.sync_execute(10);

    let results = vec![Some(10), Some(20)];
    let received = receiver.iter().take(2).collect::<Vec<_>>();

    assert_eq!(results, received);
}

fn quiet_guard_chain(sender: Sender<usize>) -> impl SyncExecute<usize> {
    let first = sender.clone();
    let guard = Node::new("check_greater_than_5", move |input: usize| {
        if input > 5 {
            first.send(input).unwrap();
            Some(input)
        } else {
            None
        }
    });
    let second = sender.clone();
    let ok = Node::new("multiply_by_2", move |input: usize| {
        second.send(input * 2).unwrap();
        Some(input * 2)
    });
    let third = sender;
    let ko = Node::new("set_to_zero", move |_: usize| {
        third.send(0).unwrap();
        Some(0)
    });
    guard.and_then(ok).or_else(ko)
}

#[test]
fn success_path_emits_input_then_double() {
    let (sender, receiver) = channel();
    let chain = quiet_guard_chain(sender);
    let trace = chain.sync_execute(10);
    drop(chain);
    assert_eq!(receiver.iter().collect::<Vec<_>>(), vec![10, 20]);
    assert_eq!(
        trace,
        vec![("check_greater_than_5".to_string(), true), ("multiply_by_2".to_string(), true)]
    );
}

#[test]
fn failure_path_emits_only_zero() {
    let (sender, receiver) = channel();
    let chain = quiet_guard_chain(sender);
    let trace = chain.sync_execute(3);
    drop(chain);
    assert_eq!(receiver.iter().collect::<Vec<_>>(), vec![0]);
    assert_eq!(
        trace,
        vec![("check_greater_than_5".to_string(), false), ("set_to_zero".to_string(), true)]
    );
}

#[test]
fn failure_branch_receives_original_input() {
    let (sender, receiver) = channel();
    let guard = Node::new("never", |input: usize| if input > 100 { Some(input + 1) } else { None });
    let ko = Node::new("record", move |input: usize| {
        sender.send(input).unwrap();
        Some(input)
    });
    let chain = guard.or_else(ko);
    chain.sync_execute(7);
    drop(chain);
    assert_eq!(receiver.iter().collect::<Vec<_>>(), vec![7]);
}

#[test]
fn same_outcomes_visit_same_nodes() {
    let (sender, _receiver) = channel();
    let chain = generate_chain(sender);
    assert_eq!(chain.sync_execute(6), chain.sync_execute(600));
    assert_eq!(chain.sync_execute(0), chain.sync_execute(5));
    assert_ne!(chain.sync_execute(5), chain.sync_execute(6));
}

#[test]
fn present_output_with_terminal_success_stops() {
    let (sender, receiver) = channel();
    let ko = Node::new("fallback", move |input: usize| {
        sender.send(input).unwrap();
        Some(input)
    });
    let chain = Node::new("always", |input: usize| Some(input)).or_else(ko);
    let trace = chain.sync_execute(4);
    drop(chain);
    assert_eq!(trace, vec![("always".to_string(), true)]);
    assert_eq!(receiver.iter().count(), 0);
}

#[test]
fn absent_output_with_terminal_failure_stops() {
    let (sender, receiver) = channel();
    let ok = Node::new("next", move |input: usize| {
        sender.send(input).unwrap();
        Some(input)
    });
    let chain = Node::new("never", |_: usize| None::<usize>).and_then(ok);
    let trace = chain.sync_execute(4);
    drop(chain);
    assert_eq!(trace, vec![("never".to_string(), false)]);
    assert_eq!(receiver.iter().count(), 0);
}

#[test]
fn deep_chain_follows_outcomes() {
    let last = Node::new("to_string_len", |s: String| Some(s.len()));
    let middle = Node::new("non_empty", |s: String| if s.is_empty() { None } else { Some(s) }).and_then(last);
    let chain = Node::new("trim", |s: String| Some(s.trim().to_string())).and_then(middle);
    assert_eq!(
        chain.sync_execute("  ab ".to_string()),
        vec![("trim".to_string(), true), ("non_empty".to_string(), true), ("to_string_len".to_string(), true)]
    );
    assert_eq!(
        chain.sync_execute("   ".to_string()),
        vec![("trim".to_string(), true), ("non_empty".to_string(), false)]
    );
}

#[test]
fn terminal_node_is_named_end() {
    let end = ();
    assert_eq!(Workflow::<usize>::current(&end), "End");
    assert!(Workflow::<usize>::is_terminal(&end));
    assert_eq!(Workflow::<usize>::execute(&end, 3), Some(()));
    assert_eq!(SyncExecute::<usize>::sync_execute(&end, 3), vec![]);
}
