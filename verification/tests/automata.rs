use cellular::engine::{
    conc_iter_trans, copy_univ, get_neigh, run, sec_transition, select_strategy, tp_transition,
    transition, Automata, Strategy,
};
use cellular::rule::{num2bools, rule30, ConfigError, RuleTable};

fn falses(n: usize) -> Vec<bool> {
    let mut v = Vec::new();
    for _ in 0..n {
        v.push(false);
    }
    v
}

#[test]
fn rule_decode_correctness() {
    // Rule 30 is binary 00011110, most significant bit answering (1,1,1).
    let t = RuleTable::decode(30).unwrap();
    assert_eq!(t.lookup((true, true, true)), false);
    assert_eq!(t.lookup((true, true, false)), false);
    assert_eq!(t.lookup((true, false, true)), false);
    assert_eq!(t.lookup((true, false, false)), true);
    assert_eq!(t.lookup((false, true, true)), true);
    assert_eq!(t.lookup((false, true, false)), true);
    assert_eq!(t.lookup((false, false, true)), true);
    assert_eq!(t.lookup((false, false, false)), false);
}

#[test]
fn rule_decode_110() {
    // Rule 110 is binary 01101110.
    let t = RuleTable::decode(110).unwrap();
    assert_eq!(t.lookup((true, true, true)), false);
    assert_eq!(t.lookup((true, true, false)), true);
    assert_eq!(t.lookup((true, false, true)), true);
    assert_eq!(t.lookup((true, false, false)), false);
    assert_eq!(t.lookup((false, true, true)), true);
    assert_eq!(t.lookup((false, true, false)), true);
    assert_eq!(t.lookup((false, false, true)), true);
    assert_eq!(t.lookup((false, false, false)), false);
}

#[test]
fn num2bools_expansion() {
    assert_eq!(
        num2bools(30),
        vec![false, false, false, true, true, true, true, false]
    );
    assert_eq!(
        num2bools(0),
        vec![false, false, false, false, false, false, false, false]
    );
    assert_eq!(num2bools(255), vec![true; 8]);
}

#[test]
fn rule30_matches_decoded_table() {
    let t = RuleTable::decode(30).unwrap();
    for l in [false, true] {
        for m in [false, true] {
            for r in [false, true] {
                assert_eq!(rule30((l, m, r)), t.lookup((l, m, r)));
            }
        }
    }
}

#[test]
fn boundary_wraparound() {
    // Universe [A, B, C, D, E] with A=true, B=false, C=true, D=true, E=false.
    let u = vec![true, false, true, true, false];
    // neighbors(0) = (E, A, B)
    assert_eq!(get_neigh(0, 5, &u), (false, true, false));
    // neighbors(4) = (D, E, A)
    assert_eq!(get_neigh(4, 5, &u), (true, false, true));
    // interior: neighbors(2) = (B, C, D)
    assert_eq!(get_neigh(2, 5, &u), (false, true, true));
}

#[test]
fn strategy_equivalence_one_step() {
    let t = RuleTable::decode(110).unwrap();
    let mut u = falses(16);
    u[3] = true;
    u[7] = true;
    u[8] = true;
    u[15] = true;
    let seq = run(16, u.clone(), 1, &t, Strategy::Sequential).unwrap();
    let tp = run(16, u.clone(), 1, &t, Strategy::WorkerPool).unwrap();
    let par = run(16, u.clone(), 1, &t, Strategy::DataParallel).unwrap();
    assert_eq!(seq, tp);
    assert_eq!(seq, par);
    assert_ne!(seq, u);
}

#[test]
fn strategy_equivalence_many_steps() {
    let t = RuleTable::decode(30).unwrap();
    let mut u = falses(25);
    u[12] = true;
    let seq = run(25, u.clone(), 9, &t, Strategy::Sequential).unwrap();
    let tp = run(25, u.clone(), 9, &t, Strategy::WorkerPool).unwrap();
    let par = run(25, u.clone(), 9, &t, Strategy::DataParallel).unwrap();
    assert_eq!(seq, tp);
    assert_eq!(seq, par);
}

#[test]
fn idempotent_table() {
    let t1 = RuleTable::decode(30).unwrap();
    let t2 = RuleTable::decode(30).unwrap();
    assert_eq!(t1, t2);
    let t3 = RuleTable::decode(110).unwrap();
    let t4 = RuleTable::decode(110).unwrap();
    assert_eq!(t3, t4);
}

#[test]
fn determinism_across_generations() {
    let t = RuleTable::decode(110).unwrap();
    let mut u = falses(20);
    u[5] = true;
    u[6] = true;
    u[13] = true;
    for strategy in [Strategy::Sequential, Strategy::WorkerPool, Strategy::DataParallel] {
        let n_then_one = {
            let after_n = run(20, u.clone(), 6, &t, strategy).unwrap();
            run(20, after_n, 1, &t, strategy).unwrap()
        };
        let n_plus_one = run(20, u.clone(), 7, &t, strategy).unwrap();
        assert_eq!(n_then_one, n_plus_one);
    }
}

#[test]
fn invalid_input_rejection() {
    assert_eq!(RuleTable::decode(256), Err(ConfigError::InvalidRule));
    assert_eq!(RuleTable::decode(-1), Err(ConfigError::InvalidRule));
    assert_eq!(RuleTable::decode(-200), Err(ConfigError::InvalidRule));
    assert!(RuleTable::decode(0).is_ok());
    assert!(RuleTable::decode(255).is_ok());
}

#[test]
fn end_to_end_rule_110() {
    // Rule 110, size 10, all false except position 5, one sequential step.
    // Position 4 sees (0,0,1) -> true, position 5 sees (0,1,0) -> true,
    // position 6 sees (1,0,0) -> false; everything else stays false.
    let t = RuleTable::decode(110).unwrap();
    let mut u = falses(10);
    u[5] = true;
    let next = run(10, u, 1, &t, Strategy::Sequential).unwrap();
    let expected = vec![
        false, false, false, false, true, true, false, false, false, false,
    ];
    assert_eq!(next, expected);
}

#[test]
fn transition_uses_rule_30() {
    // [0,0,0,1,0,0,0] under rule 30: positions 2, 3, 4 turn on.
    let u = vec![false, false, false, true, false, false, false];
    let next = transition(7, &u);
    assert_eq!(next, vec![false, false, true, true, true, false, false]);
    // The hardcoded table agrees with the decoded one.
    let t = RuleTable::decode(30).unwrap();
    assert_eq!(next, sec_transition(7, &u, &t));
}

#[test]
fn conc_iter_matches_sequential() {
    let t = RuleTable::decode(90).unwrap();
    let mut u = falses(12);
    u[2] = true;
    u[9] = true;
    let par = conc_iter_trans(12, u.clone(), &t);
    let seq = sec_transition(12, &u, &t);
    assert_eq!(par, seq);
    assert_ne!(par, u);
}

#[test]
fn worker_pool_transition_matches_sequential() {
    let pool = rayon::ThreadPoolBuilder::new().num_threads(5).build().unwrap();
    let t = RuleTable::decode(110).unwrap();
    let mut u = falses(14);
    u[4] = true;
    u[10] = true;
    // The pool is reused across generations.
    for _ in 0..4 {
        let tp = tp_transition(&pool, 14, &u, &t);
        let seq = sec_transition(14, &u, &t);
        assert_eq!(tp, seq);
        u = tp;
    }
}

#[test]
fn strategy_selection() {
    assert_eq!(select_strategy(true, false, false), Ok(Strategy::Sequential));
    assert_eq!(select_strategy(false, true, false), Ok(Strategy::WorkerPool));
    assert_eq!(select_strategy(false, false, true), Ok(Strategy::DataParallel));
    assert_eq!(
        select_strategy(false, false, false),
        Err(ConfigError::InvalidStrategy)
    );
    assert_eq!(
        select_strategy(true, true, false),
        Err(ConfigError::InvalidStrategy)
    );
    assert_eq!(
        select_strategy(true, false, true),
        Err(ConfigError::InvalidStrategy)
    );
    assert_eq!(
        select_strategy(false, true, true),
        Err(ConfigError::InvalidStrategy)
    );
    assert_eq!(
        select_strategy(true, true, true),
        Err(ConfigError::InvalidStrategy)
    );
}

#[test]
fn run_zero_transitions_is_identity() {
    let t = RuleTable::decode(30).unwrap();
    let mut u = falses(8);
    u[1] = true;
    let r = run(8, u.clone(), 0, &t, Strategy::Sequential).unwrap();
    assert_eq!(r, u);
}

#[test]
fn size_one_universe_is_own_neighbor() {
    // A universe of length 1 is its own left and right neighbor.
    let u = vec![true];
    assert_eq!(get_neigh(0, 1, &u), (true, true, true));
    let t = RuleTable::decode(110).unwrap();
    // (1,1,1) -> false under rule 110.
    assert_eq!(sec_transition(1, &u, &t), vec![false]);
}

#[test]
fn automata_step_and_commit() {
    let t = RuleTable::decode(110).unwrap();
    let mut u = falses(10);
    u[5] = true;
    let mut a = Automata::new(10, u.clone());
    assert_eq!(a.size, 10);
    assert_eq!(a.pre_univ, u);
    assert_eq!(a.pos_univ, u);
    a.step_seq(&t);
    assert_eq!(a.pre_univ, u);
    assert_eq!(a.pos_univ, sec_transition(10, &u, &t));
    a.commit();
    assert_eq!(a.pre_univ, a.pos_univ);
    assert_eq!(a.pre_univ, sec_transition(10, &u, &t));
}

#[test]
fn copy_univ_copies_cells() {
    let u = vec![true, false, false, true];
    assert_eq!(copy_univ(&u), u);
    assert_eq!(copy_univ(&Vec::new()), Vec::<bool>::new());
}
