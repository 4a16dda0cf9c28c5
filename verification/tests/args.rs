use graph_gen::{Args, GenError, Generatable, Kind, Output, Probability};

fn args(n: usize, num: u64, den: u64) -> Args {
    Args {
        n,
        p: Probability::new(num, den),
        loops: false,
        digraph: false,
        kind: Kind::Plain,
        output: None,
        weights: None,
    }
}

#[test]
fn output_language_by_name() {
    assert_eq!(Output::from_str("dimacs"), Ok(Output::Dimacs));
    assert_eq!(Output::from_str("graphviz"), Ok(Output::GraphViz));
    assert_eq!(Output::from_str("dot"), Ok(Output::GraphViz));
}

#[test]
fn output_language_whatever_the_case() {
    assert_eq!(Output::from_str("DIMACS"), Ok(Output::Dimacs));
    assert_eq!(Output::from_str("Dimacs"), Ok(Output::Dimacs));
    assert_eq!(Output::from_str("GraphViz"), Ok(Output::GraphViz));
    assert_eq!(Output::from_str("DOT"), Ok(Output::GraphViz));
}

#[test]
fn unknown_output_language_is_handed_back() {
    assert_eq!(Output::from_str("Svg"), Err("Svg".to_string()));
    assert_eq!(Output::from_str(""), Err(String::new()));
    assert_eq!(Output::from_str(" dot"), Err(" dot".to_string()));
    assert_eq!(Output::from_str("dimacs2"), Err("dimacs2".to_string()));
}

#[test]
fn output_language_of_a_name_in_lower_case() {
    assert_eq!(Output::from_lowercase("dimacs"), Some(Output::Dimacs));
    assert_eq!(Output::from_lowercase("graphviz"), Some(Output::GraphViz));
    assert_eq!(Output::from_lowercase("dot"), Some(Output::GraphViz));
    assert_eq!(Output::from_lowercase("DOT"), None);
    assert_eq!(Output::from_lowercase("Dimacs"), None);
    assert_eq!(Output::from_lowercase(""), None);
}

#[test]
fn output_language_defaults_to_dimacs() {
    assert_eq!(Output::default(), Output::Dimacs);
}

#[test]
fn graph_of_the_arguments() {
    let mut a = args(4, 1, 1);
    let g = a.graph().unwrap();
    assert_eq!(g.nb_vertices(), 4);
    assert_eq!(g.nb_edges(), 6);
    assert!(g.edges().iter().all(|(_, w)| *w == 1));
    a.digraph = true;
    assert_eq!(a.graph().unwrap().nb_edges(), 12);
    assert!(a.graph().unwrap().model().is_digraph());
    a.loops = true;
    assert_eq!(a.graph().unwrap().nb_edges(), 16);
    assert!(a.graph().unwrap().model().allows_self_loops());
}

#[test]
fn single_vertex_with_self_loops_from_the_arguments() {
    let mut a = args(1, 1, 1);
    assert_eq!(a.graph().unwrap_err(), GenError::InvalidVertexCount);
    a.loops = true;
    a.digraph = true;
    let g = a.graph().unwrap();
    assert_eq!(g.nb_edges(), 1);
    assert_eq!(g.edges()[0].0.src.id, 1);
    assert_eq!(g.edges()[0].0.dst.id, 1);
}

#[test]
fn max2sat_doubles_the_vertices() {
    let mut a = args(3, 1, 1);
    a.kind = Kind::Max2Sat;
    let g = a.graph().unwrap();
    assert_eq!(g.nb_vertices(), 6);
    assert_eq!(g.nb_edges(), 15);
    a.kind = Kind::MaxClique;
    assert_eq!(a.graph().unwrap().nb_vertices(), 3);
}

#[test]
fn weights_of_the_arguments_are_plucked() {
    let mut a = args(6, 1, 1);
    a.weights = Some(vec![10, 20]);
    let g = a.graph().unwrap();
    assert_eq!(g.nb_edges(), 15);
    assert!(g.edges().iter().all(|(_, w)| *w == 10 || *w == 20));
}

#[test]
fn arguments_are_turned_down() {
    assert_eq!(args(0, 1, 2).graph().unwrap_err(), GenError::InvalidVertexCount);
    assert_eq!(args(5, 3, 2).graph().unwrap_err(), GenError::InvalidProbability);
    assert_eq!(args(usize::MAX, 1, 2).graph().unwrap_err(), GenError::InstanceTooLarge);
    let mut sat = args(usize::MAX / 2 + 1, 0, 1);
    sat.kind = Kind::Max2Sat;
    assert_eq!(sat.graph().unwrap_err(), GenError::InstanceTooLarge);
    let mut weights = args(5, 1, 2);
    weights.weights = Some(vec![]);
    assert_eq!(weights.graph().unwrap_err(), GenError::NoWeightCandidates);
    assert_eq!(weights.generatable().err(), Some(GenError::NoWeightCandidates));
    // the model is looked at before the weights
    weights.n = 0;
    assert_eq!(weights.graph().unwrap_err(), GenError::InvalidVertexCount);
}

#[test]
fn instance_of_the_kind_asked_for() {
    let mut a = args(4, 1, 2);
    assert!(matches!(a.generatable().unwrap(), Generatable::GenGraph { .. }));
    a.kind = Kind::MaxClique;
    assert!(matches!(a.generatable().unwrap(), Generatable::ClqGraph { .. }));
    a.kind = Kind::Max2Sat;
    assert!(matches!(a.generatable().unwrap(), Generatable::GenSat { .. }));
}

#[test]
fn wcnf_reads_a_graph_as_clauses() {
    let a = args(2, 1, 1);
    let mut doubled = args(2, 1, 1);
    doubled.kind = Kind::Max2Sat;
    let sat = a.wcnf(doubled.graph().unwrap());
    let text = sat.to_dimacs();
    assert_eq!(text.lines().nth(7).unwrap(), "p wcnf 2 6");
    assert_eq!(text.lines().count(), 14);
}

#[test]
fn output_in_the_language_asked_for() {
    let mut a = args(3, 0, 1);
    let g = a.generatable().unwrap();
    let dimacs = "c Pseudo-random Erdos-Renyi graph G(3, 0/1)\n\
                  c it was generated to NOT allow self loops\n\
                  c This graph has 3 vertices and 0 edges\n\
                  c -------------------------------------------------------------\n\
                  c Generated w/ graph_gen: https://github.com/xgillard/graph_gen\n\
                  3 0";
    assert_eq!(a.output(&g), dimacs);
    a.output = Some(Output::Dimacs);
    assert_eq!(a.output(&g), dimacs);
    a.output = Some(Output::GraphViz);
    assert_eq!(a.output(&g), "graph g {\n  1;\n  2;\n  3;\n}");
}

#[test]
fn output_of_a_max2sat_instance() {
    let mut a = args(2, 0, 1);
    a.kind = Kind::Max2Sat;
    let g = a.generatable().unwrap();
    assert_eq!(a.output(&g).lines().last().unwrap(), "p wcnf 2 0");
    a.output = Some(Output::GraphViz);
    assert_eq!(a.output(&g), "graph wcnf {\n  1;\n  2;\n}");
}
