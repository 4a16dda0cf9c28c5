use graph_gen::{ErModel, GenError, Probability};

fn ratio(num: u64, den: u64) -> Probability {
    Probability::new(num, den)
}

fn model(n: usize, num: u64, den: u64, digraph: bool, self_loops: bool) -> ErModel {
    ErModel::with_options(n, ratio(num, den), digraph, self_loops).unwrap()
}

#[test]
fn new_model_is_undirected_without_self_loops() {
    let m = ErModel::new(7, ratio(1, 3)).unwrap();
    assert_eq!(m.n(), 7);
    assert_eq!(m.p(), ratio(1, 3));
    assert!(!m.is_digraph());
    assert!(!m.allows_self_loops());
}

#[test]
fn builders_return_new_values() {
    let m = ErModel::new(7, ratio(1, 3)).unwrap();
    let d = m.digraph().unwrap();
    let l = m.with_self_loops().unwrap();
    let both = d.with_self_loops().unwrap();
    assert!(!m.is_digraph() && !m.allows_self_loops());
    assert!(d.is_digraph() && !d.allows_self_loops());
    assert!(!l.is_digraph() && l.allows_self_loops());
    assert!(both.is_digraph() && both.allows_self_loops());
    assert_eq!(both.n(), 7);
    assert_eq!(both.p(), ratio(1, 3));
}

#[test]
fn possible_edges_of_each_kind_of_graph() {
    assert_eq!(model(5, 1, 1, false, false).nb_possible_edges(), 10);
    assert_eq!(model(5, 1, 1, true, false).nb_possible_edges(), 20);
    assert_eq!(model(5, 1, 1, true, true).nb_possible_edges(), 25);
    assert_eq!(model(4, 1, 1, false, true).nb_possible_edges(), 8);
}

#[test]
fn possible_edges_truncate_for_odd_n_with_self_loops() {
    assert_eq!(model(5, 1, 1, false, true).nb_possible_edges(), 12);
    assert_eq!(model(3, 1, 1, false, true).nb_possible_edges(), 4);
    assert_eq!(model(1, 1, 1, false, true).nb_possible_edges(), 0);
}

#[test]
fn single_vertex_with_self_loops_is_a_model() {
    let m = model(1, 1, 1, true, true);
    assert_eq!(m.nb_possible_edges(), 1);
    assert_eq!(m.nb_edges_to_pick(), 1);
}

#[test]
fn target_rounds_to_nearest() {
    // 10 candidates
    assert_eq!(model(5, 3, 10, false, false).nb_edges_to_pick(), 3);
    assert_eq!(model(5, 1, 3, false, false).nb_edges_to_pick(), 3);
    assert_eq!(model(5, 2, 3, false, false).nb_edges_to_pick(), 7);
    assert_eq!(model(5, 1, 21, false, false).nb_edges_to_pick(), 0);
    assert_eq!(model(5, 1, 19, false, false).nb_edges_to_pick(), 1);
}

#[test]
fn target_rounds_half_away_from_zero() {
    // 10 candidates
    assert_eq!(model(5, 1, 4, false, false).nb_edges_to_pick(), 3);
    assert_eq!(model(5, 1, 20, false, false).nb_edges_to_pick(), 1);
    assert_eq!(model(5, 3, 4, false, false).nb_edges_to_pick(), 8);
    // 3 candidates
    assert_eq!(model(3, 1, 2, false, false).nb_edges_to_pick(), 2);
}

#[test]
fn target_is_zero_at_probability_zero() {
    for &(digraph, loops) in &[(false, false), (false, true), (true, false), (true, true)] {
        assert_eq!(model(9, 0, 1, digraph, loops).nb_edges_to_pick(), 0);
        assert_eq!(model(9, 0, 77, digraph, loops).nb_edges_to_pick(), 0);
    }
}

#[test]
fn target_is_all_candidates_at_probability_one() {
    for &(digraph, loops) in &[(false, false), (false, true), (true, false), (true, true)] {
        for n in 2..20usize {
            let m = model(n, 5, 5, digraph, loops);
            assert_eq!(m.nb_edges_to_pick() as u128, m.nb_possible_edges());
        }
    }
}

#[test]
fn target_never_decreases_as_probability_grows() {
    for &(digraph, loops) in &[(false, false), (false, true), (true, false), (true, true)] {
        let mut last = 0usize;
        for num in 0..=1000u64 {
            let t = model(13, num, 1000, digraph, loops).nb_edges_to_pick();
            assert!(last <= t);
            last = t;
        }
    }
    // across different denominators: 1/3 <= 2/5 <= 1/2 <= 5/9
    let a = model(13, 1, 3, false, false).nb_edges_to_pick();
    let b = model(13, 2, 5, false, false).nb_edges_to_pick();
    let c = model(13, 1, 2, false, false).nb_edges_to_pick();
    let d = model(13, 5, 9, false, false).nb_edges_to_pick();
    assert!(a <= b && b <= c && c <= d);
    assert_eq!((a, b, c, d), (26, 31, 39, 43));
}

#[test]
fn target_of_a_large_model_is_exact() {
    // 4_000_000_000 vertices: 4e9 * (4e9 - 1) / 2 candidates
    let m = model(4_000_000_000, 1, 1_000_000_000, false, false);
    assert_eq!(m.nb_possible_edges(), 7_999_999_998_000_000_000);
    assert_eq!(m.nb_edges_to_pick(), 7_999_999_998);
    let huge = model(4_000_000_000, u64::MAX - 1, u64::MAX, false, false);
    assert_eq!(huge.nb_edges_to_pick(), 7_999_999_998_000_000_000);
}

#[test]
fn no_vertex_is_rejected() {
    assert_eq!(ErModel::new(0, ratio(1, 2)).unwrap_err(), GenError::InvalidVertexCount);
    assert_eq!(
        ErModel::with_options(0, ratio(1, 2), true, true).unwrap_err(),
        GenError::InvalidVertexCount
    );
}

#[test]
fn one_vertex_without_self_loops_is_rejected() {
    assert_eq!(ErModel::new(1, ratio(1, 2)).unwrap_err(), GenError::InvalidVertexCount);
    assert_eq!(
        ErModel::with_options(1, ratio(1, 2), true, false).unwrap_err(),
        GenError::InvalidVertexCount
    );
    assert!(ErModel::with_options(1, ratio(1, 2), false, true).is_ok());
}

#[test]
fn probability_outside_the_unit_interval_is_rejected() {
    assert_eq!(ErModel::new(5, ratio(3, 2)).unwrap_err(), GenError::InvalidProbability);
    assert_eq!(ErModel::new(5, ratio(0, 0)).unwrap_err(), GenError::InvalidProbability);
    assert_eq!(ErModel::new(5, ratio(1, 0)).unwrap_err(), GenError::InvalidProbability);
    assert!(ErModel::new(5, ratio(2, 2)).is_ok());
    assert!(ErModel::new(5, ratio(0, 2)).is_ok());
}

#[test]
fn vertex_count_is_looked_at_before_the_probability() {
    assert_eq!(ErModel::new(0, ratio(3, 2)).unwrap_err(), GenError::InvalidVertexCount);
}

#[test]
fn too_large_an_instance_is_rejected() {
    assert_eq!(ErModel::new(usize::MAX, ratio(0, 1)).unwrap_err(), GenError::InstanceTooLarge);
    assert_eq!(
        ErModel::new(isize::MAX as usize, ratio(1, 1)).unwrap_err(),
        GenError::InstanceTooLarge
    );
    // the same vertices with few enough edges are fine
    assert!(ErModel::new(isize::MAX as usize, ratio(0, 1)).is_ok());
}

#[test]
fn an_option_can_make_an_instance_too_large() {
    // the n(n-1) candidates of a digraph fit, the n*n with self loops do not
    let n: usize = 1 << (usize::BITS / 2);
    let m = ErModel::new(n, ratio(1, 1)).unwrap();
    let d = m.digraph().unwrap();
    assert_eq!(d.with_self_loops().unwrap_err(), GenError::InstanceTooLarge);
    assert!(m.with_self_loops().is_ok());
    assert_eq!(
        m.with_self_loops().unwrap().digraph().unwrap_err(),
        GenError::InstanceTooLarge
    );
}
