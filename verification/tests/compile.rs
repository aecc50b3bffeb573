use luminair_graph::error::Error;
use luminair_graph::graph::{Dependency, Graph, Node, Operator};
use luminair_graph::prim::{LuminairAdd, PrimitiveCompiler};
use luminair_graph::tensor::Shape;

fn edge(source: usize, len: usize) -> Dependency {
    Dependency { source, shape: Shape { dims: vec![len] } }
}

fn add_graph() -> Graph {
    let mut graph = Graph::new();
    let a = graph.add_node(Operator::Function, vec![]);
    let b = graph.add_node(Operator::Function, vec![]);
    let sum = graph.add_node(Operator::Add, vec![edge(a, 4), edge(b, 4)]);
    graph.add_node(Operator::Contiguous, vec![edge(sum, 4)]);
    graph
}

fn ops(graph: &Graph) -> Vec<Operator> {
    graph.nodes.iter().map(|n| n.op).collect()
}

#[test]
fn additions_are_replaced_and_the_rest_stays() {
    let mut graph = add_graph();
    let before = graph.clone();
    assert_eq!(PrimitiveCompiler::new().compile(&mut graph), Ok(()));
    assert_eq!(
        ops(&graph),
        vec![
            Operator::Function,
            Operator::Function,
            Operator::LuminairAdd(LuminairAdd::new()),
            Operator::Contiguous,
        ]
    );
    assert_eq!(graph.nodes.len(), before.nodes.len());
    for (after, earlier) in graph.nodes.iter().zip(before.nodes.iter()) {
        assert_eq!(after.inputs, earlier.inputs);
    }
}

#[test]
fn every_computing_node_ends_provable() {
    let mut graph = Graph::new();
    let mut last = graph.add_node(Operator::Function, vec![]);
    for _ in 0..20 {
        let other = graph.add_node(Operator::Function, vec![]);
        let shaped = graph.add_node(Operator::Contiguous, vec![edge(other, 2)]);
        last = graph.add_node(Operator::Add, vec![edge(last, 2), edge(shaped, 2)]);
    }
    let before = graph.clone();
    assert_eq!(PrimitiveCompiler::new().compile(&mut graph), Ok(()));
    for (after, earlier) in graph.nodes.iter().zip(before.nodes.iter()) {
        match earlier.op {
            Operator::Function => assert_eq!(after.op, Operator::Function),
            Operator::Contiguous => assert_eq!(after.op, Operator::Contiguous),
            _ => assert!(matches!(after.op, Operator::LuminairAdd(_))),
        }
    }
}

#[test]
fn an_unknown_operator_stops_the_compiler() {
    let mut graph = add_graph();
    let a = 0;
    let product = graph.add_node(Operator::Other(17), vec![edge(a, 4), edge(a, 4)]);
    graph.add_node(Operator::Add, vec![edge(product, 4), edge(a, 4)]);
    let before = graph.clone();
    let result = PrimitiveCompiler::new().compile(&mut graph);
    assert_eq!(
        result,
        Err(Error::UnsupportedOperatorKind { node: 4, kind: Operator::Other(17) })
    );
    assert_eq!(graph, before);
}

#[test]
fn the_first_unknown_operator_is_the_one_reported() {
    let mut graph = Graph::new();
    graph.add_node(Operator::Add, vec![]);
    graph.add_node(Operator::Other(3), vec![]);
    graph.add_node(Operator::Other(8), vec![]);
    let before = graph.clone();
    let result = PrimitiveCompiler::new().compile(&mut graph);
    assert_eq!(
        result,
        Err(Error::UnsupportedOperatorKind { node: 1, kind: Operator::Other(3) })
    );
    assert_eq!(graph, before);
    assert_eq!(graph.nodes[0].op, Operator::Add);
}

#[test]
fn a_compiled_graph_is_not_compiled_again() {
    let mut graph = add_graph();
    let compiler = PrimitiveCompiler::new();
    assert_eq!(compiler.compile(&mut graph), Ok(()));
    let compiled = graph.clone();
    let again = compiler.compile(&mut graph);
    assert_eq!(
        again,
        Err(Error::UnsupportedOperatorKind {
            node: 2,
            kind: Operator::LuminairAdd(LuminairAdd::new()),
        })
    );
    assert_eq!(graph, compiled);
}

#[test]
fn leaves_and_pass_throughs_compile_any_number_of_times() {
    let mut graph = Graph::new();
    let a = graph.add_node(Operator::Function, vec![]);
    graph.add_node(Operator::Contiguous, vec![edge(a, 3)]);
    let before = graph.clone();
    let compiler = PrimitiveCompiler::new();
    assert_eq!(compiler.compile(&mut graph), Ok(()));
    assert_eq!(compiler.compile(&mut graph), Ok(()));
    assert_eq!(graph, before);
}

#[test]
fn an_empty_graph_compiles() {
    let mut graph = Graph::new();
    assert_eq!(PrimitiveCompiler::new().compile(&mut graph), Ok(()));
    assert!(graph.nodes.is_empty());
}

#[test]
fn substitution_of_each_operator() {
    assert_eq!(
        Operator::Add.substitute(),
        Some(Operator::LuminairAdd(LuminairAdd::new()))
    );
    assert_eq!(Operator::Contiguous.substitute(), Some(Operator::Contiguous));
    assert_eq!(Operator::Function.substitute(), Some(Operator::Function));
    assert_eq!(Operator::LuminairAdd(LuminairAdd::new()).substitute(), None);
    assert_eq!(Operator::Other(0).substitute(), None);
    assert_eq!(
        LuminairAdd::new().into_operator(),
        Operator::LuminairAdd(LuminairAdd::new())
    );
}

#[test]
fn nodes_are_numbered_as_they_are_added() {
    let mut graph = Graph::new();
    assert_eq!(graph.add_node(Operator::Function, vec![]), 0);
    assert_eq!(graph.add_node(Operator::Add, vec![edge(0, 1), edge(0, 1)]), 1);
    assert_eq!(
        graph.nodes[1],
        Node { op: Operator::Add, inputs: vec![edge(0, 1), edge(0, 1)] }
    );
}
