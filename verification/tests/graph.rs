use graph_gen::{Edge, ErModel, GenError, Graph, Probability, Vertex};

fn edge(src: isize, dst: isize) -> Edge {
    Edge { src: Vertex { id: src }, dst: Vertex { id: dst } }
}

fn empty(n: usize, digraph: bool, self_loops: bool) -> Graph {
    Graph::empty(ErModel::with_options(n, Probability::new(1, 2), digraph, self_loops).unwrap())
}

fn pairs(g: &Graph) -> Vec<(isize, isize, isize)> {
    g.edges().iter().map(|(e, w)| (e.src.id, e.dst.id, *w)).collect()
}

#[test]
fn self_loop_is_an_edge_with_equal_ends() {
    assert!(edge(3, 3).is_self_loop());
    assert!(!edge(3, 4).is_self_loop());
    assert!(!edge(4, 3).is_self_loop());
}

#[test]
fn rev_swaps_the_ends() {
    assert_eq!(edge(3, 4).rev(), edge(4, 3));
    assert_eq!(edge(3, 4).rev().rev(), edge(3, 4));
    assert_eq!(edge(5, 5).rev(), edge(5, 5));
}

#[test]
fn empty_graph_has_the_vertices_of_its_model() {
    let g = empty(6, false, false);
    assert_eq!(g.nb_vertices(), 6);
    assert_eq!(g.nb_edges(), 0);
    assert_eq!(g.model().n(), 6);
    assert!(g.edges().is_empty());
}

#[test]
fn offered_edge_is_accepted_with_weight_one() {
    let mut g = empty(4, false, false);
    assert!(g.offer(edge(1, 2)));
    assert!(g.offer(edge(4, 3)));
    assert_eq!(pairs(&g), vec![(1, 2, 1), (4, 3, 1)]);
    assert_eq!(g.nb_edges(), 2);
}

#[test]
fn offered_edge_is_rejected_when_present() {
    let mut g = empty(4, true, true);
    assert!(g.offer(edge(1, 2)));
    assert!(!g.offer(edge(1, 2)));
    assert_eq!(pairs(&g), vec![(1, 2, 1)]);
}

#[test]
fn undirected_graph_rejects_the_reverse_of_an_edge() {
    let mut g = empty(4, false, false);
    assert!(g.offer(edge(1, 2)));
    assert!(!g.offer(edge(2, 1)));
    assert!(g.offer(edge(2, 3)));
    assert!(!g.offer(edge(3, 2)));
    assert_eq!(pairs(&g), vec![(1, 2, 1), (2, 3, 1)]);
}

#[test]
fn directed_graph_accepts_the_reverse_of_an_edge() {
    let mut g = empty(4, true, false);
    assert!(g.offer(edge(1, 2)));
    assert!(g.offer(edge(2, 1)));
    assert_eq!(pairs(&g), vec![(1, 2, 1), (2, 1, 1)]);
}

#[test]
fn self_loop_is_rejected_unless_allowed() {
    let mut g = empty(4, false, false);
    assert!(!g.offer(edge(2, 2)));
    let mut d = empty(4, true, false);
    assert!(!d.offer(edge(2, 2)));
    let mut l = empty(4, false, true);
    assert!(l.offer(edge(2, 2)));
    assert!(!l.offer(edge(2, 2)));
    assert_eq!(pairs(&l), vec![(2, 2, 1)]);
}

#[test]
fn edge_outside_the_vertices_is_rejected() {
    let mut g = empty(4, true, true);
    assert!(!g.offer(edge(0, 1)));
    assert!(!g.offer(edge(1, 0)));
    assert!(!g.offer(edge(5, 1)));
    assert!(!g.offer(edge(1, 5)));
    assert!(!g.offer(edge(-1, 2)));
    assert!(!g.offer(edge(isize::MIN, isize::MAX)));
    assert!(g.offer(edge(4, 4)));
    assert!(g.offer(edge(1, 1)));
    assert!(g.offer(edge(1, 4)));
    assert!(g.offer(edge(4, 1)));
    assert_eq!(g.nb_edges(), 4);
}

#[test]
fn edges_of_distinct_cells_do_not_collide() {
    // (1, 4) and (2, 1) are neighbours in the grid of a graph on 3 or 4 vertices
    let mut g = empty(4, true, true);
    for s in 1..=4 {
        for d in 1..=4 {
            assert!(g.offer(edge(s, d)));
        }
    }
    assert_eq!(g.nb_edges(), 16);
    for s in 1..=4 {
        for d in 1..=4 {
            assert!(!g.offer(edge(s, d)));
        }
    }
}

#[test]
fn plucked_weights_come_from_the_candidates() {
    let mut g = empty(5, true, true);
    for s in 1..=5 {
        for d in 1..=5 {
            g.offer(edge(s, d));
        }
    }
    let before: Vec<(isize, isize)> = pairs(&g).iter().map(|&(s, d, _)| (s, d)).collect();
    let candidates = [7, -3, 40];
    assert_eq!(g.pluck_random_weights(&candidates), Ok(()));
    let after = pairs(&g);
    assert_eq!(after.len(), 25);
    assert_eq!(after.iter().map(|&(s, d, _)| (s, d)).collect::<Vec<_>>(), before);
    assert!(after.iter().all(|&(_, _, w)| candidates.contains(&w)));
    // the index still knows the edges
    assert!(!g.offer(edge(3, 3)));
}

#[test]
fn plucked_weights_from_one_candidate() {
    let mut g = empty(3, false, false);
    g.offer(edge(1, 2));
    g.offer(edge(2, 3));
    assert_eq!(g.pluck_random_weights(&[-12]), Ok(()));
    assert_eq!(pairs(&g), vec![(1, 2, -12), (2, 3, -12)]);
}

#[test]
fn plucked_weights_use_every_candidate_in_the_long_run() {
    let mut g = empty(30, true, true);
    for s in 1..=30 {
        for d in 1..=30 {
            g.offer(edge(s, d));
        }
    }
    g.pluck_random_weights(&[1, 2, 3]).unwrap();
    let ws: Vec<isize> = pairs(&g).iter().map(|&(_, _, w)| w).collect();
    assert!(ws.contains(&1) && ws.contains(&2) && ws.contains(&3));
}

#[test]
fn plucking_from_no_candidate_is_rejected() {
    let mut g = empty(3, false, false);
    g.offer(edge(1, 2));
    assert_eq!(g.pluck_random_weights(&[]), Err(GenError::NoWeightCandidates));
    assert_eq!(pairs(&g), vec![(1, 2, 1)]);
    let mut none = empty(3, false, false);
    assert_eq!(none.pluck_random_weights(&[]), Err(GenError::NoWeightCandidates));
}
