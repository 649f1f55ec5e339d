use rsrl::domains::Transition;
use rsrl::fa::{Parameterised, StateFunction};
use rsrl::features::Features;
use rsrl::linear::ScalarLFA;
use rsrl::prediction::gradient_mc::GradientMC;
use rsrl::prediction::gtd2::{ShapeMismatch, GTD2};
use rsrl::prediction::recursive_lstd::RecursiveLSTD;
use rsrl::prediction::td::TD;
use rsrl::prediction::td_lambda::TDLambda;
use rsrl::prediction::tdc::TDC;
use rsrl::scalar::{Fixed, Scalar};
use rsrl::traces::Trace;

fn fx(n: i64) -> Fixed {
    Fixed::from_int(n)
}

fn q(num: i64, den: i64) -> Fixed {
    Fixed::ratio(num, den)
}

fn one_hot(n: usize, i: usize) -> Features<Fixed> {
    Features::Sparse(n, vec![(i, Fixed::one())])
}

fn table(weights: Vec<Fixed>) -> ScalarLFA<Fixed> {
    let n = weights.len();
    ScalarLFA::new((0..2).map(|s| one_hot(n, s)).collect(), weights)
}

fn two_state_table() -> ScalarLFA<Fixed> {
    table(vec![Fixed::zero(), Fixed::zero()])
}

#[test]
fn td_zero_converges_on_two_state_chain() {
    let alpha = Fixed::ratio(1, 2);
    let mut td = TD::new(two_state_table(), alpha, Fixed::one(), 0usize);
    let t = Transition::terminal(0usize, (), Fixed::one(), 1usize);
    for _ in 0..40 {
        td.handle_transition(&t);
    }
    let v = td.predict_v(&0);
    let gap = Fixed::one().sub(v);
    assert!(!gap.lt(Fixed::zero()));
    assert!(gap.lt(Fixed::ratio(1, 1000000)));
    assert_eq!(td.predict_v(&1), Fixed::zero());
    assert_eq!(td.prior_state, 0);
}

#[test]
fn td_zero_single_step_is_exact() {
    let mut lfa = two_state_table();
    lfa.update(&1, Fixed::from_int(4));
    let mut td = TD::new(lfa, Fixed::ratio(1, 2), Fixed::ratio(1, 2), 0usize);
    td.handle_transition(&Transition::new(0usize, (), Fixed::from_int(3), 1usize));
    // residual = 3 + 0.5 * 4 - 0 = 5, update = 0.5 * 5
    assert_eq!(td.predict_v(&0), Fixed::ratio(5, 2));
    assert_eq!(td.prior_state, 1);
}

#[test]
fn td_lambda_follows_the_trace_and_resets_it_at_the_end() {
    let trace: Trace<Fixed> = Trace::accumulating(2);
    let mut td = TDLambda::new(two_state_table(), trace, q(1, 2), fx(1), q(1, 2), 0usize);
    td.handle_transition(&Transition::new(0usize, (), fx(2), 1usize));
    assert_eq!(td.fa_theta.weights(), &vec![fx(1), fx(0)]);
    assert_eq!(td.trace.deref().expanded(), vec![fx(1), fx(0)]);
    assert_eq!(td.prior_state, 1);
    td.handle_transition(&Transition::terminal(1usize, (), fx(4), 0usize));
    assert_eq!(td.fa_theta.weights(), &vec![fx(2), fx(2)]);
    assert_eq!(td.trace.deref().expanded(), vec![fx(0), fx(0)]);
    assert_eq!(td.prior_state, 1);
    td.handle_transition(&Transition::new(1usize, (), fx(0), 0usize));
    td.handle_terminal();
    assert_eq!(td.trace.deref().expanded(), vec![fx(0), fx(0)]);
}

#[test]
fn gradient_mc_scans_from_the_end() {
    let mut mc = GradientMC::new(two_state_table(), q(1, 2), q(1, 2), 0usize);
    let batch = vec![
        Transition::new(0usize, (), fx(1), 1usize),
        Transition::terminal(1usize, (), fx(2), 0usize),
    ];
    mc.handle_batch(&batch);
    // G = 2 at the last step, taken from state 1; G = 1 + 0.5 * 2 at the first
    assert_eq!(mc.v_func.weights(), &vec![fx(2), fx(2)]);
    assert_eq!(mc.prior_state, 1);
    assert_eq!(mc.predict_v(&0), fx(2));
    assert_eq!(mc.predict_v(&1), fx(2));
    mc.handle_batch(&[Transition::terminal(1usize, (), fx(6), 0usize)]);
    // the error 6 - V(1) lands on state 1
    assert_eq!(mc.v_func.weights(), &vec![fx(2), fx(6)]);
    let before = mc.v_func.weights().clone();
    mc.handle_batch(&[] as &[Transition<usize, (), Fixed>]);
    assert_eq!(mc.v_func.weights(), &before);
}

#[test]
fn gtd2_and_tdc_refuse_estimators_of_different_shape() {
    let small = || table(vec![fx(0), fx(0)]);
    let large = || table(vec![fx(0), fx(0), fx(0)]);
    let expected = ShapeMismatch { theta: (2, 1), w: (3, 1) };
    match GTD2::new(small(), large(), q(1, 2), q(1, 4), q(1, 2), 0usize) {
        Ok(_) => panic!("mismatched shapes were accepted"),
        Err(e) => assert_eq!(e, expected),
    }
    match TDC::new(small(), large(), q(1, 2), q(1, 4), q(1, 2), 0usize) {
        Ok(_) => panic!("mismatched shapes were accepted"),
        Err(e) => assert_eq!(e, expected),
    }
    assert!(GTD2::new(small(), small(), q(1, 2), q(1, 4), q(1, 2), 0usize).is_ok());
    assert!(TDC::new(large(), large(), q(1, 2), q(1, 4), q(1, 2), 0usize).is_ok());
}

#[test]
fn gtd2_step_is_exact() {
    let theta = table(vec![fx(1), fx(2)]);
    let w = table(vec![q(1, 2), fx(0)]);
    let mut gtd = match GTD2::new(theta, w, q(1, 2), q(1, 4), q(1, 2), 0usize) {
        Ok(l) => l,
        Err(_) => panic!("equal shapes were refused"),
    };
    gtd.handle_transition(&Transition::new(0usize, (), fx(3), 1usize));
    assert_eq!(gtd.fa_w.weights(), &vec![q(9, 8), fx(0)]);
    assert_eq!(gtd.fa_theta.weights(), &vec![q(9, 4), q(17, 8)]);
    assert_eq!(gtd.prior_state, 1);
    assert_eq!(gtd.predict_v(&0), q(9, 4));
    assert_eq!(gtd.fa_theta.weights_dim(), (2, 1));
}

#[test]
fn tdc_step_is_exact() {
    let theta = table(vec![fx(1), fx(2)]);
    let w = table(vec![q(1, 2), fx(0)]);
    let mut tdc = match TDC::new(theta, w, q(1, 2), q(1, 4), q(1, 2), 0usize) {
        Ok(l) => l,
        Err(_) => panic!("equal shapes were refused"),
    };
    tdc.handle_transition(&Transition::terminal(0usize, (), fx(3), 1usize));
    // e = 3 - 1 = 2; w += 0.25 * (2 - 0.5); theta += 0.5 * (2 * x - 0.5 * (x - 0.5 * y))
    assert_eq!(tdc.fa_w.weights(), &vec![q(7, 8), fx(0)]);
    assert_eq!(tdc.fa_theta.weights(), &vec![q(7, 4), q(17, 8)]);
    assert_eq!(tdc.prior_state, 0);
}

#[test]
fn recursive_lstd_takes_a_rank_one_step() {
    let eps = Fixed::one().div(Fixed::from_count(100000));
    let mut rls = RecursiveLSTD::new(two_state_table(), q(1, 2), 0usize);
    assert_eq!(rls.c_mat.rows, vec![vec![eps, fx(0)], vec![fx(0), eps]]);
    rls.handle_transition(&Transition::new(0usize, (), fx(1), 1usize));
    // phi = [1, 0]; phi' = [0, 1]; pd = [1, -0.5]; g = c pd; v = c phi.
    let g = vec![eps, eps.mul(q(-1, 2))];
    let v = vec![eps, fx(0)];
    let a = Fixed::one().add(g[0]);
    let scale = Fixed::one().neg().div(a);
    let c = vec![
        vec![eps.add(scale.mul(v[0].mul(g[0]))), fx(0).add(scale.mul(v[0].mul(g[1])))],
        vec![fx(0), eps],
    ];
    assert_eq!(rls.c_mat.rows, c);
    assert_eq!(rls.fa_theta.weights(), &vec![fx(1).div(a).mul(eps), fx(0)]);
    assert_eq!(rls.prior_state, 1);
    rls.handle_transition(&Transition::terminal(1usize, (), fx(2), 0usize));
    assert_eq!(rls.c_mat.rows, vec![vec![fx(0), fx(0)], vec![fx(0), fx(0)]]);
    assert_eq!(rls.prior_state, 1);
    let after = rls.fa_theta.weights().clone();
    rls.handle_transition(&Transition::new(1usize, (), fx(5), 0usize));
    assert_eq!(rls.fa_theta.weights(), &after);
    rls.handle_terminal();
    assert_eq!(rls.c_mat.n_rows(), 2);
}

#[test]
fn lstd_gathers_statistics_step_by_step() {
    let mut lstd = rsrl::prediction::lstd::LSTD::new(two_state_table(), q(1, 2), 0usize);
    assert_eq!(lstd.a.rows, vec![vec![fx(0), fx(0)], vec![fx(0), fx(0)]]);
    assert_eq!(lstd.b, rsrl::traces::zero_vector::<Fixed>(2));
    lstd.accumulate(&Transition::new(0usize, (), fx(3), 1usize));
    // b += 3 * [1, 0]; a -= [1, 0] (0.5 * [0, 1] - [1, 0])
    assert_eq!(lstd.b, vec![fx(3), fx(0)]);
    assert_eq!(lstd.a.rows, vec![vec![fx(1), q(-1, 2)], vec![fx(0), fx(0)]]);
    assert_eq!(lstd.prior_state, 1);
    lstd.accumulate(&Transition::terminal(1usize, (), fx(5), 0usize));
    // b += 5 * [0, 1]; a += [0, 1] [0, 1]
    assert_eq!(lstd.b, vec![fx(3), fx(5)]);
    assert_eq!(lstd.a.rows, vec![vec![fx(1), q(-1, 2)], vec![fx(0), fx(1)]]);
    assert_eq!(lstd.prior_state, 1);
    assert_eq!(lstd.fa_theta.weights(), &vec![fx(0), fx(0)]);
    lstd.reset();
    assert_eq!(lstd.a.rows, vec![vec![fx(0), fx(0)], vec![fx(0), fx(0)]]);
    assert_eq!(lstd.b, vec![fx(0), fx(0)]);
}

#[test]
fn td_zero_halves_the_gap_at_each_terminal_step() {
    let mut td = TD::new(two_state_table(), q(1, 2), fx(1), 0usize);
    let t = Transition::terminal(0usize, (), fx(1), 1usize);
    let mut expected = vec![q(1, 2), q(3, 4), q(7, 8), q(15, 16)];
    expected.reverse();
    while let Some(v) = expected.pop() {
        td.handle_transition(&t);
        assert_eq!(td.predict_v(&0), v);
        assert_eq!(td.predict_v(&1), fx(0));
        assert_eq!(td.prior_state, 0);
    }
}
