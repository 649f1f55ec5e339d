use rsrl::control::expected_sarsa::{expected_value, ExpectedSARSA};
use rsrl::control::pal::PAL;
use rsrl::control::q_lambda::QLambda;
use rsrl::control::q_sigma::{Backup, BackupEntry};
use rsrl::control::sarsa_lambda::SARSALambda;
use rsrl::control::to_q_lambda::TOQLambda;
use rsrl::control::to_sarsa_lambda::TOSARSALambda;
use rsrl::domains::Transition;
use rsrl::fa::{
    DifferentiableStateActionFunction, EnumerableStateActionFunction, LinearStateActionFunction,
    Parameterised, StateActionFunction,
};
use rsrl::features::Features;
use rsrl::linear::VectorLFA;
use rsrl::policies::{EnumerablePolicy, Policy};
use rsrl::scalar::{Fixed, Scalar};
use rsrl::tabular::Tabular;
use rsrl::traces::Trace;

fn fx(n: i64) -> Fixed {
    Fixed::from_int(n)
}

fn q(num: i64, den: i64) -> Fixed {
    Fixed::ratio(num, den)
}

fn one_hot(n: usize, i: usize) -> Features<Fixed> {
    Features::Sparse(n, vec![(i, Fixed::one())])
}

/// Q(s, a) over two states and two actions: Q(0, .) = [1, 2], Q(1, .) = [4, 8].
fn q_table() -> Tabular<Fixed> {
    Tabular::new(vec![vec![fx(1), fx(4)], vec![fx(2), fx(8)]])
}

/// The same values in a linear estimator over one-hot features.
fn q_linear() -> VectorLFA<Fixed> {
    let mut lfa = match VectorLFA::zeros(vec![one_hot(2, 0), one_hot(2, 1)], 2, 2) {
        Some(l) => l,
        None => panic!("four weights could not be counted"),
    };
    lfa.update_by_error(&0, &0, fx(1));
    lfa.update_by_error(&1, &0, fx(4));
    lfa.update_by_error(&0, &1, fx(2));
    lfa.update_by_error(&1, &1, fx(8));
    lfa
}

struct Always(usize);

impl Policy<usize, Fixed> for Always {
    type Action = usize;

    fn supports(&self, _state: usize, _action: usize) -> bool {
        unreachable!()
    }

    fn probability_spec(&self, _state: usize, _action: usize) -> Fixed {
        unreachable!()
    }

    fn sample(&self, _rng: &mut rand::rngs::ThreadRng, _state: &usize) -> usize {
        self.0
    }

    fn probability(&self, _state: &usize, action: &usize) -> Fixed {
        if *action == self.0 {
            Fixed::one()
        } else {
            Fixed::zero()
        }
    }
}

struct Weighted(Vec<Fixed>);

impl Policy<usize, Fixed> for Weighted {
    type Action = usize;

    fn supports(&self, _state: usize, _action: usize) -> bool {
        unreachable!()
    }

    fn probability_spec(&self, _state: usize, _action: usize) -> Fixed {
        unreachable!()
    }

    fn sample(&self, _rng: &mut rand::rngs::ThreadRng, _state: &usize) -> usize {
        0
    }

    fn probability(&self, _state: &usize, action: &usize) -> Fixed {
        self.0[*action]
    }
}

impl EnumerablePolicy<usize, Fixed> for Weighted {
    fn n_actions_spec(&self) -> usize {
        unreachable!()
    }

    fn probabilities(&self, _state: &usize) -> Vec<Fixed> {
        self.0.clone()
    }
}

#[test]
fn linear_estimator_keeps_one_block_of_weights_for_each_action() {
    let lfa = q_linear();
    assert_eq!(lfa.weights(), &vec![fx(1), fx(4), fx(2), fx(8)]);
    assert_eq!(lfa.weights_dim(), (2, 2));
    assert_eq!(lfa.n_actions(), 2);
    assert_eq!(lfa.n_features(), 2);
    assert_eq!(lfa.evaluate(&1, &0), fx(4));
    assert_eq!(lfa.evaluate_all(&0), vec![fx(1), fx(2)]);
    assert_eq!(lfa.find_max(&1), (1, fx(8)));
    assert_eq!(lfa.grad(&1, &1).expanded(), vec![fx(0), fx(0), fx(0), fx(1)]);
    assert_eq!(lfa.features(&1, &1).expanded(), vec![fx(0), fx(1)]);
    assert_eq!(lfa.evaluate_features(&one_hot(2, 1), &1), fx(8));
    assert_eq!(lfa.evaluate_features(&one_hot(3, 1), &1), fx(0));
    assert_eq!(lfa.evaluate_features(&one_hot(2, 1), &2), fx(0));
    let mut lfa = lfa;
    lfa.update_features(&Features::Dense(vec![fx(1), fx(2)]), &0, q(1, 2));
    assert_eq!(lfa.weights(), &vec![q(3, 2), fx(5), fx(2), fx(8)]);
    lfa.update_all_by_errors(&1, vec![fx(1), fx(-1)]);
    assert_eq!(lfa.weights(), &vec![q(3, 2), fx(6), fx(2), fx(7)]);
    assert!(VectorLFA::<Fixed>::zeros(Vec::new(), usize::MAX, 2).is_none());
}

#[test]
fn expected_sarsa_step_is_exact() {
    let policy = Weighted(vec![q(1, 4), q(3, 4)]);
    let mut learner = ExpectedSARSA::new(q_table(), policy, q(1, 2), q(1, 2), 0usize);
    assert_eq!(learner.predict_v(&1), fx(7));
    learner.handle_transition(&Transition::new(0usize, 0usize, fx(3), 1usize));
    // target = 3 + 0.5 * (4 * 0.25 + 8 * 0.75) = 6.5; Q += 0.5 * (6.5 - 1)
    assert_eq!(learner.predict_q(&0, &0), q(15, 4));
    assert_eq!(learner.prior_state, 1);
    learner.handle_transition(&Transition::terminal(1usize, 1usize, fx(2), 0usize));
    assert_eq!(learner.predict_q(&1, &1), fx(5));
    assert_eq!(learner.prior_state, 1);
    assert_eq!(expected_value(&vec![fx(1), fx(2), fx(3)], &vec![fx(2), fx(2)]), fx(6));
}

#[test]
fn pal_step_is_exact() {
    let mut pal = PAL::new(q_table(), Always(0), q(1, 2), q(1, 2), 0usize);
    assert_eq!(pal.sample_target(&0), 1);
    assert_eq!(pal.predict_v(&1), fx(8));
    pal.handle_transition(&Transition::new(0usize, 0usize, fx(3), 1usize));
    // td = 3 + 0.5 * 8 - 1 = 6; al = 6 - 0.5 * (2 - 1) = 5.5;
    // other = 6 - 0.5 * (8 - 4) = 4; residual = 5.5; Q += 0.5 * 5.5
    assert_eq!(pal.predict_q(&0, &0), q(15, 4));
    assert_eq!(pal.prior_state, 1);
    pal.handle_transition(&Transition::terminal(1usize, 0usize, fx(6), 0usize));
    assert_eq!(pal.predict_q(&1, &0), fx(5));
    assert_eq!(pal.prior_state, 1);
}

#[test]
fn q_lambda_cuts_the_trace_after_an_exploring_action() {
    let trace: Trace<Fixed> = Trace::accumulating(4);
    let mut ql = QLambda::new(q_linear(), Always(0), trace, q(1, 2), q(1, 2), q(1, 2), 0usize);
    ql.handle_transition(&Transition::new(0usize, 1usize, fx(3), 1usize));
    // residual = 3 + 0.5 * 8 - 2 = 5 along the trace [0, 0, 1, 0]
    assert_eq!(ql.fa_theta.weights_view(), &vec![fx(1), fx(4), q(9, 2), fx(8)]);
    assert_eq!(ql.trace.deref().expanded(), vec![fx(0), fx(0), fx(1), fx(0)]);
    assert_eq!(ql.prior_state, 1);
    ql.handle_transition(&Transition::new(1usize, 0usize, fx(0), 1usize));
    // the action 0 is not greedy in state 1: the old trace is cut
    assert_eq!(ql.trace.deref().expanded(), vec![fx(0), fx(1), fx(0), fx(0)]);
    // residual = 0 + 0.5 * 8 - 4 = 0
    assert_eq!(ql.fa_theta.weights_view(), &vec![fx(1), fx(4), q(9, 2), fx(8)]);
    ql.handle_transition(&Transition::terminal(1usize, 1usize, fx(0), 0usize));
    // greedy: the trace decays by 0.25 and takes the gradient in; residual = -8
    assert_eq!(ql.fa_theta.weights_view(), &vec![fx(1), fx(3), q(9, 2), fx(4)]);
    assert_eq!(ql.trace.deref().expanded(), vec![fx(0), fx(0), fx(0), fx(0)]);
    assert_eq!(ql.sample_target(&0), 1);
    assert_eq!(ql.predict_v(&0), q(9, 2));
    assert_eq!(ql.predict_q(&1, &0), fx(3));
}

#[test]
fn sarsa_lambda_bootstraps_at_the_action_drawn() {
    let trace: Trace<Fixed> = Trace::accumulating(4);
    let mut sarsa = SARSALambda::new(q_linear(), Always(0), trace, q(1, 2), q(1, 2), q(1, 2), 0usize);
    sarsa.handle_transition(&Transition::new(0usize, 1usize, fx(3), 1usize));
    // residual = 3 + 0.5 * 4 - 2 = 3
    assert_eq!(sarsa.fa_theta.weights(), &vec![fx(1), fx(4), q(7, 2), fx(8)]);
    assert_eq!(sarsa.prior_state, 1);
    sarsa.handle_transition_with(&Transition::new(1usize, 1usize, fx(0), 0usize), &1);
    // trace = [0, 0, 0.25, 1]; residual = 0 + 0.5 * 3.5 - 8 = -6.25
    assert_eq!(sarsa.trace.deref().expanded(), vec![fx(0), fx(0), q(1, 4), fx(1)]);
    assert_eq!(
        sarsa.fa_theta.weights(),
        &vec![fx(1), fx(4), q(7, 2).sub(q(25, 32)), fx(8).sub(q(25, 8))]
    );
    sarsa.handle_transition(&Transition::terminal(0usize, 0usize, fx(1), 1usize));
    assert_eq!(sarsa.trace.deref().expanded(), vec![fx(0), fx(0), fx(0), fx(0)]);
    assert_eq!(sarsa.prior_state, 0);
    assert_eq!(sarsa.predict_v(&0), sarsa.predict_q(&0, &0));
}

#[test]
fn true_online_q_lambda_step_is_exact() {
    let trace: Trace<Fixed> = Trace::accumulating(4);
    let mut toq = TOQLambda::new(q_linear(), Always(0), trace, q(1, 2), q(1, 2), q(1, 2), 0usize);
    toq.handle_transition(&Transition::new(0usize, 1usize, fx(3), 1usize));
    // trace = gradient; residual = 3 + 0.5 * 8 - 0 = 7; correction = 0.5 * (0 - 2)
    assert_eq!(toq.fa_theta.weights_view(), &vec![fx(1), fx(4), q(9, 2), fx(8)]);
    assert_eq!(toq.q_old, fx(8));
    assert_eq!(toq.trace.deref().expanded(), vec![fx(0), fx(0), fx(1), fx(0)]);
    assert_eq!(toq.prior_state, 1);
    toq.handle_transition(&Transition::terminal(1usize, 1usize, fx(2), 0usize));
    // greedy: c = 0.25, dotted = 0: trace = 0.25 * [0, 0, 1, 0] + [0, 0, 0, 1]
    // along the trace: 0.5 * (2 - 8) = -3; along the gradient: 0.5 * (8 - 8) = 0
    assert_eq!(toq.fa_theta.weights_view(), &vec![fx(1), fx(4), q(15, 4), fx(5)]);
    assert_eq!(toq.q_old, fx(0));
    assert_eq!(toq.trace.deref().expanded(), vec![fx(0), fx(0), fx(0), fx(0)]);
    assert_eq!(toq.prior_state, 1);
    toq.q_old = fx(3);
    toq.handle_terminal();
    assert_eq!(toq.q_old, fx(0));
}

#[test]
fn true_online_q_lambda_replaces_the_trace_after_an_exploring_action() {
    let trace: Trace<Fixed> = Trace::accumulating(4);
    let mut toq = TOQLambda::new(q_linear(), Always(0), trace, q(1, 2), q(1, 2), q(1, 2), 0usize);
    toq.trace.update(&Features::Dense(vec![fx(5), fx(5), fx(5), fx(5)]));
    toq.handle_transition(&Transition::new(0usize, 0usize, fx(0), 0usize));
    // the action 0 is not greedy in state 0: the trace is the gradient alone;
    // residual = 0 + 0.5 * 2 - 0 = 1; correction = 0.5 * (0 - 1)
    assert_eq!(toq.fa_theta.weights_view(), &vec![fx(1), fx(4), fx(2), fx(8)]);
    assert_eq!(toq.trace.deref().expanded(), vec![fx(1), fx(0), fx(0), fx(0)]);
    assert_eq!(toq.q_old, fx(2));
}

#[test]
fn true_online_sarsa_lambda_step_is_exact() {
    let trace: Trace<Fixed> = Trace::accumulating(2);
    let mut tos =
        TOSARSALambda::new(trace, q_linear(), Always(0), q(1, 2), q(1, 2), q(1, 2), 0usize);
    tos.handle_transition(&Transition::new(0usize, 1usize, fx(3), 1usize));
    // trace = [1, 0]; residual = 3 + 0.5 * 4 - 0 = 5; correction = 0.5 * (0 - 2)
    assert_eq!(tos.weights(), &vec![fx(1), fx(4), q(7, 2), fx(8)]);
    assert_eq!(tos.q_old, fx(4));
    assert_eq!(tos.trace.deref().expanded(), vec![fx(1), fx(0)]);
    assert_eq!(tos.prior_state, 1);
    tos.handle_transition_with(&Transition::terminal(1usize, 0usize, fx(1), 0usize), 0);
    // decay 0.25; trace . phi = 0: trace = [0.25, 1]; residual = 1 - 4 = -3
    // along the trace for action 0: [1, 4] + 0.5 * -3 * [0.25, 1]; correction 0.5 * (4 - 4)
    assert_eq!(tos.q_old, fx(0));
    assert_eq!(tos.trace.deref().expanded(), vec![fx(0), fx(0)]);
    assert_eq!(tos.predict_qsa(&0, 0), q(5, 8));
    assert_eq!(tos.predict_qsa(&1, 0), q(5, 2));
    assert_eq!(tos.predict_qsa(&1, 1), fx(8));
}

#[test]
fn true_online_sarsa_lambda_values_a_state_by_expectation() {
    let trace: Trace<Fixed> = Trace::accumulating(2);
    let policy = Weighted(vec![q(1, 4), q(3, 4)]);
    let tos = TOSARSALambda::new(trace, q_linear(), policy, q(1, 2), q(1, 2), q(1, 2), 0usize);
    assert_eq!(tos.predict_qs(&1), vec![fx(4), fx(8)]);
    assert_eq!(tos.predict_v(&1), fx(7));
}

#[test]
fn backup_window_is_first_in_first_out() {
    let entry = |a: usize, residual: i64| BackupEntry {
        s: 0usize,
        a,
        q: fx(1),
        residual: fx(residual),
        sigma: q(1, 2),
        pi: q(1, 2),
        mu: q(1, 4),
    };
    let mut window: Backup<usize, Fixed> = Backup::new(3);
    assert_eq!(window.len(), 0);
    assert_eq!(window.n_steps(), 3);
    assert!(window.pop().is_none());
    window.push(entry(0, 2));
    window.push(entry(1, 4));
    window.push(entry(2, 8));
    assert_eq!(window.len(), 3);
    // weight of each later entry: 0.5 * ((1 - 0.5) * 0.5 + 0.5) = 0.375
    // return: 1 + 2 + 0.375 * 4; ratio: (0.5 + 0.5 * 0.5 / 0.25) squared
    let (isr, g) = window.propagate(q(1, 2));
    assert_eq!(g, q(9, 2));
    assert_eq!(isr, q(9, 4));
    match window.pop() {
        Some(e) => assert_eq!(e.a, 0),
        None => panic!("a full window gave nothing"),
    }
    assert_eq!(window.len(), 2);
    window.clear();
    assert_eq!(window.len(), 0);
}

#[test]
fn true_online_sarsa_lambda_trace_takes_the_dutch_increment() {
    let mut trace: Trace<Fixed> = Trace::accumulating(2);
    trace.update(&Features::Dense(vec![fx(1), fx(2)]));
    let mut tos =
        TOSARSALambda::new(trace, q_linear(), Always(0), q(1, 2), q(1, 2), q(1, 2), 0usize);
    tos.update_traces(vec![fx(2), fx(0)], q(1, 2));
    // trace . phi = 2; increment = (1 - 0.5 * 0.5 * 2) * phi = [1, 0]; decayed trace = [0.5, 1]
    assert_eq!(tos.trace.deref().expanded(), vec![q(3, 2), fx(1)]);
}

#[test]
fn q_sigma_backs_up_when_the_window_fills() {
    let entry = |s: usize, a: usize, q0: i64, residual: i64| BackupEntry {
        s,
        a,
        q: fx(q0),
        residual: fx(residual),
        sigma: fx(0),
        pi: fx(1),
        mu: fx(1),
    };
    let mut learner = rsrl::control::q_sigma::QSigma::new(
        q_table(),
        Always(0),
        q(1, 2),
        q(1, 2),
        fx(0),
        2,
        0usize,
    );
    learner.update_backup(entry(0, 0, 1, 4));
    assert_eq!(learner.backup.len(), 1);
    assert_eq!(learner.predict_q(&0, &0), fx(1));
    learner.update_backup(entry(1, 1, 8, 0));
    // return = 1 + 4 = 5; ratio = 1; Q(0, 0) += 0.5 * (5 - 1)
    assert_eq!(learner.backup.len(), 1);
    assert_eq!(learner.predict_q(&0, &0), fx(3));
    let mut rng = rand::thread_rng();
    assert_eq!(learner.sample_behaviour(&mut rng, &0), 0);
    learner.handle_terminal();
    assert_eq!(learner.backup.len(), 0);
}

#[test]
fn transitions_say_where_they_went_and_whether_they_ended() {
    let t = Transition::new(3usize, 1usize, fx(2), 4usize);
    assert!(!t.terminated());
    assert_eq!(t.states(), (&3, &4));
    assert_eq!((t.action, t.reward), (1, fx(2)));
    let t = Transition::terminal(3usize, 1usize, fx(2), 4usize);
    assert!(t.terminated());
    assert_eq!(t.states(), (&3, &4));
}
