use rsrl::control::q_sigma::{blended, QSigma};
use rsrl::domains::Transition;
use rsrl::fa::{EnumerableStateActionFunction, StateActionFunction, StateFunction};
use rsrl::features::{dot_features, Features};
use rsrl::linalg::{Matrix, MatrixView, VectorView};
use rsrl::linear::ScalarLFA;
use rsrl::policies::epsilon_greedy::EpsilonGreedy;
use rsrl::policies::{greedy_probabilities, Policy};
use rsrl::prediction::lstd::{LinearSolver, Solved, LSTD};
use rsrl::prediction::td::TD;
use rsrl::scalar::Scalar;
use rsrl::tabular::Tabular;

#[derive(Clone, Copy, Debug, PartialEq)]
struct F(f64);

impl Scalar for F {
    fn zero_spec() -> Self {
        unreachable!()
    }

    fn one_spec() -> Self {
        unreachable!()
    }

    fn from_count_spec(_n: usize) -> Self {
        unreachable!()
    }

    fn neg_spec(self) -> Self {
        unreachable!()
    }

    fn add_spec(self, _rhs: Self) -> Self {
        unreachable!()
    }

    fn sub_spec(self, _rhs: Self) -> Self {
        unreachable!()
    }

    fn mul_spec(self, _rhs: Self) -> Self {
        unreachable!()
    }

    fn div_spec(self, _rhs: Self) -> Self {
        unreachable!()
    }

    fn lt_spec(self, _rhs: Self) -> bool {
        unreachable!()
    }

    fn zero() -> Self {
        F(0.0)
    }

    fn one() -> Self {
        F(1.0)
    }

    fn from_count(n: usize) -> Self {
        F(n as f64)
    }

    fn neg(self) -> Self {
        F(-self.0)
    }

    fn add(self, rhs: Self) -> Self {
        F(self.0 + rhs.0)
    }

    fn sub(self, rhs: Self) -> Self {
        F(self.0 - rhs.0)
    }

    fn mul(self, rhs: Self) -> Self {
        F(self.0 * rhs.0)
    }

    fn div(self, rhs: Self) -> Self {
        F(self.0 / rhs.0)
    }

    fn lt(self, rhs: Self) -> bool {
        self.0 < rhs.0
    }
}

fn fs(v: &[f64]) -> Vec<F> {
    v.iter().map(|x| F(*x)).collect()
}

fn raw(v: &[F]) -> Vec<f64> {
    v.iter().map(|x| x.0).collect()
}

#[test]
fn test_sampling() {
    let p = EpsilonGreedy::new(2, F(0.5));
    let qs = fs(&[1.0, 0.0]);
    let mut rng = rand::thread_rng();
    let mut n0: f64 = 0.0;
    let mut n1: f64 = 0.0;
    for _ in 0..50000 {
        match p.sample(&mut rng, &qs) {
            0 => n0 += 1.0,
            _ => n1 += 1.0,
        }
    }
    assert!((0.75 - n0 / 50000.0).abs() < 0.01);
    assert!((0.25 - n1 / 50000.0).abs() < 0.01);
}

#[test]
fn test_probabilites() {
    let p = EpsilonGreedy::new(5, F(0.5));
    assert_eq!(raw(&p.probabilities(&fs(&[1.0, 0.0, 0.0, 0.0, 0.0]))), vec![0.6, 0.1, 0.1, 0.1, 0.1]);
    assert_eq!(raw(&p.probabilities(&fs(&[0.0, 0.0, 0.0, 0.0, 1.0]))), vec![0.1, 0.1, 0.1, 0.1, 0.6]);
    assert_eq!(raw(&p.probabilities(&fs(&[1.0, 0.0, 0.0, 0.0, 1.0]))), vec![0.35, 0.1, 0.1, 0.1, 0.35]);
}

#[test]
fn epsilon_greedy_choice_follows_the_draws() {
    let p = EpsilonGreedy::new(3, F(0.25));
    let qs = fs(&[0.0, 2.0, 2.0]);
    assert_eq!(p.sample_with(&qs, F(0.1), 2), 2);
    assert_eq!(p.sample_with(&qs, F(0.25), 2), 1);
    assert_eq!(p.sample_with(&qs, F(0.9), 0), 1);
    let mut rng = rand::thread_rng();
    for _ in 0..50 {
        assert!(p.sample(&mut rng, &qs) < 3);
    }
    let explorer = EpsilonGreedy::new(3, F(2.0));
    let mut seen = [false; 3];
    for _ in 0..200 {
        let a = explorer.sample(&mut rng, &qs);
        assert!(a < 3);
        seen[a] = true;
    }
    assert!(seen[0] || seen[2]);
    let greedy = EpsilonGreedy::new(3, F(0.0));
    for _ in 0..50 {
        assert_eq!(greedy.sample(&mut rng, &qs), 1);
    }
}

#[test]
fn greedy_probabilities_share_ties() {
    assert_eq!(raw(&greedy_probabilities(&fs(&[1.0, 3.0, 3.0, 0.0]))), vec![0.0, 0.5, 0.5, 0.0]);
    assert_eq!(raw(&greedy_probabilities(&fs(&[2.0]))), vec![1.0]);
    assert_eq!(greedy_probabilities(&fs(&[])).len(), 0);
}

#[test]
fn float_dot_products() {
    let s = Features::Sparse(3, vec![(0, F(0.5)), (2, F(2.0))]);
    let d = Features::Dense(fs(&[1.0, 10.0, 100.0]));
    assert_eq!(dot_features(&s, &d), F(200.5));
    assert_eq!(dot_features(&d, &s), F(200.5));
    assert_eq!(dot_features(&d, &d), F(10101.0));
}

fn one_hot(n: usize, i: usize) -> Features<F> {
    Features::Sparse(n, vec![(i, F(1.0))])
}

#[test]
fn td_zero_converges_with_floats() {
    let v = ScalarLFA::new(vec![one_hot(2, 0), one_hot(2, 1)], fs(&[0.0, 0.0]));
    let mut td = TD::new(v, F(0.1), F(0.9), 0usize);
    let t = Transition::terminal(0usize, (), F(1.0), 1usize);
    for _ in 0..500 {
        td.handle_transition(&t);
    }
    assert!((td.predict_v(&0).0 - 1.0).abs() < 1e-9);
    assert_eq!(td.v_func.evaluate(&1), F(0.0));
    // V(s) = 1 - (1 - alpha)^N * (1 - v0): with alpha = 0.5 and v0 = 0
    let v = ScalarLFA::new(vec![one_hot(2, 0), one_hot(2, 1)], fs(&[0.0, 0.0]));
    let mut td = TD::new(v, F(0.5), F(0.9), 0usize);
    for n in 1..=10 {
        td.handle_transition(&t);
        assert_eq!(td.predict_v(&0), F(1.0 - 0.5f64.powi(n)));
    }
}

struct Cramer;

impl LinearSolver<F> for Cramer {
    fn solve_spec(&self, _a: MatrixView<F>, _b: VectorView<F>) -> Option<VectorView<F>> {
        unreachable!()
    }

    fn pinv_spec(&self, _a: MatrixView<F>) -> Option<MatrixView<F>> {
        unreachable!()
    }

    fn solve(&self, a: &Matrix<F>, b: &Vec<F>) -> Option<Vec<F>> {
        let m = &a.rows;
        let det = m[0][0].0 * m[1][1].0 - m[0][1].0 * m[1][0].0;
        if det == 0.0 {
            return None;
        }
        Some(vec![
            F((b[0].0 * m[1][1].0 - m[0][1].0 * b[1].0) / det),
            F((m[0][0].0 * b[1].0 - b[0].0 * m[1][0].0) / det),
        ])
    }

    fn pinv(&self, _a: &Matrix<F>) -> Option<Matrix<F>> {
        None
    }
}

#[test]
fn lstd_recovers_exact_weights_of_two_state_chain() {
    // State 0 goes to state 1 with reward 0; state 1 ends with reward 1.
    // With gamma = 0.5: V(1) = 1 and V(0) = 0.5 * V(1).
    let v = ScalarLFA::new(vec![one_hot(2, 0), one_hot(2, 1)], fs(&[0.0, 0.0]));
    let mut lstd = LSTD::new(v, F(0.5), 0usize);
    let batch = vec![
        Transition::new(0usize, (), F(0.0), 1usize),
        Transition::terminal(1usize, (), F(1.0), 0usize),
    ];
    assert_eq!(lstd.handle_batch(&batch, &Cramer), Solved::Direct);
    assert_eq!(raw(lstd.fa_theta.weights()), vec![0.5, 1.0]);
    assert_eq!(lstd.predict_v(&0), F(0.5));
    assert_eq!(lstd.predict_v(&1), F(1.0));
    assert_eq!(raw(&lstd.b), vec![0.0, 1.0]);
    assert_eq!(raw(&lstd.a.rows[0]), vec![1.0, -0.5]);
    assert_eq!(raw(&lstd.a.rows[1]), vec![0.0, 1.0]);
}

#[test]
fn lstd_gathers_each_batch_from_zero() {
    // rewards 1 and 2: V(1) = 2 and V(0) = 1 + 0.5 * 2
    let v = ScalarLFA::new(vec![one_hot(2, 0), one_hot(2, 1)], fs(&[0.0, 0.0]));
    let mut lstd = LSTD::new(v, F(0.5), 0usize);
    let batch = vec![
        Transition::new(0usize, (), F(1.0), 1usize),
        Transition::terminal(1usize, (), F(2.0), 0usize),
    ];
    assert_eq!(lstd.handle_batch(&batch, &Cramer), Solved::Direct);
    assert_eq!(raw(lstd.fa_theta.weights()), vec![2.0, 2.0]);
    // the next batch starts in state 1, where the first ended
    let again = vec![Transition::terminal(1usize, (), F(3.0), 0usize)];
    assert_eq!(lstd.handle_batch(&again, &Cramer), Solved::Unsolved);
    assert_eq!(raw(&lstd.b), vec![0.0, 3.0]);
    assert_eq!(raw(&lstd.a.rows[0]), vec![0.0, 0.0]);
    assert_eq!(raw(&lstd.a.rows[1]), vec![0.0, 1.0]);
    assert_eq!(raw(lstd.fa_theta.weights()), vec![2.0, 2.0]);
}

struct Fails;

impl LinearSolver<F> for Fails {
    fn solve_spec(&self, _a: MatrixView<F>, _b: VectorView<F>) -> Option<VectorView<F>> {
        unreachable!()
    }

    fn pinv_spec(&self, _a: MatrixView<F>) -> Option<MatrixView<F>> {
        unreachable!()
    }

    fn solve(&self, _a: &Matrix<F>, _b: &Vec<F>) -> Option<Vec<F>> {
        None
    }

    fn pinv(&self, a: &Matrix<F>) -> Option<Matrix<F>> {
        let n = a.rows.len();
        let mut rows = Vec::new();
        for i in 0..n {
            let mut row = vec![F(0.0); n];
            row[i] = F(3.0);
            rows.push(row);
        }
        Some(Matrix { rows })
    }
}

struct Nothing;

impl LinearSolver<F> for Nothing {
    fn solve_spec(&self, _a: MatrixView<F>, _b: VectorView<F>) -> Option<VectorView<F>> {
        unreachable!()
    }

    fn pinv_spec(&self, _a: MatrixView<F>) -> Option<MatrixView<F>> {
        unreachable!()
    }

    fn solve(&self, _a: &Matrix<F>, _b: &Vec<F>) -> Option<Vec<F>> {
        Some(vec![F(1.0)])
    }

    fn pinv(&self, _a: &Matrix<F>) -> Option<Matrix<F>> {
        None
    }
}

#[test]
fn lstd_falls_back_to_the_pseudo_inverse_and_then_to_nothing() {
    let table = || ScalarLFA::new(vec![one_hot(2, 0), one_hot(2, 1)], fs(&[7.0, 8.0]));
    let batch = vec![Transition::terminal(0usize, (), F(1.0), 1usize)];
    let mut lstd = LSTD::new(table(), F(0.5), 0usize);
    assert_eq!(lstd.handle_batch(&batch, &Fails), Solved::PseudoInverse);
    assert_eq!(raw(lstd.fa_theta.weights()), vec![3.0, 0.0]);
    let mut lstd = LSTD::new(table(), F(0.5), 0usize);
    assert_eq!(lstd.handle_batch(&batch, &Nothing), Solved::Unsolved);
    assert_eq!(raw(lstd.fa_theta.weights()), vec![7.0, 8.0]);
    assert_eq!(lstd.apply_solution(Some(fs(&[1.0, 2.0])), None), Solved::Direct);
    assert_eq!(raw(lstd.fa_theta.weights()), vec![1.0, 2.0]);
    assert_eq!(lstd.solve(&Nothing), Solved::Unsolved);
    assert_eq!(raw(&lstd.b), vec![1.0, 0.0]);
}

struct Always(usize, f64);

impl Policy<usize, F> for Always {
    type Action = usize;

    fn supports(&self, _state: usize, _action: usize) -> bool {
        unreachable!()
    }

    fn probability_spec(&self, _state: usize, _action: usize) -> F {
        unreachable!()
    }

    fn sample(&self, _rng: &mut rand::rngs::ThreadRng, _state: &usize) -> usize {
        self.0
    }

    fn probability(&self, _state: &usize, action: &usize) -> F {
        if *action == self.0 {
            F(self.1)
        } else {
            F(0.0)
        }
    }
}

fn q_table() -> Tabular<F> {
    // rows are actions, columns are states
    Tabular::new(vec![fs(&[1.0, 4.0]), fs(&[2.0, 8.0])])
}

#[test]
fn q_sigma_blend_is_sampled_at_one_and_expected_at_zero() {
    assert_eq!(blended(F(1.0), F(4.0), F(6.5)), F(4.0));
    assert_eq!(blended(F(0.0), F(4.0), F(6.5)), F(6.5));
    assert_eq!(blended(F(0.5), F(4.0), F(6.0)), F(5.0));
}

#[test]
fn q_sigma_one_is_the_sarsa_target_and_zero_the_expected_one() {
    let first = Transition::new(0usize, 0usize, F(3.0), 1usize);
    let second = Transition::new(1usize, 1usize, F(0.0), 0usize);
    // SARSA target with the action 1 drawn in state 1: 3 + 0.5 * 8 = 7.
    let mut sampled = QSigma::new(q_table(), Always(1, 1.0), F(0.25), F(0.5), F(1.0), 2, 0usize);
    sampled.handle_transition(&first);
    assert_eq!(sampled.q_func.evaluate(&0, &0), F(1.0));
    sampled.handle_transition(&second);
    assert_eq!(sampled.q_func.evaluate(&0, &0), F(1.0 + 0.25 * (7.0 - 1.0)));
    // Expected target under the greedy policy of state 1: 3 + 0.5 * 8 = 7,
    // whatever the action drawn; the ratio 1 - 0 + 0 * pi / mu is one.
    let mut expected = QSigma::new(q_table(), Always(0, 0.5), F(0.25), F(0.5), F(0.0), 2, 0usize);
    expected.handle_transition(&first);
    expected.handle_transition(&second);
    assert_eq!(expected.q_func.evaluate(&0, &0), F(1.0 + 0.25 * (7.0 - 1.0)));
    assert_eq!(expected.prior_state, 0);
    assert_eq!(expected.q_func.evaluate_all(&1), fs(&[4.0, 8.0]));
    assert_eq!(expected.sample_target(&1), 1);
    assert_eq!(expected.predict_v(&1), F(8.0));
    assert_eq!(expected.predict_q(&1, &0), F(4.0));
    // With sigma at one and an action drawn that the target never takes,
    // the ratio is zero and nothing is learned.
    let mut off = QSigma::new(q_table(), Always(0, 1.0), F(0.25), F(0.5), F(1.0), 2, 0usize);
    off.handle_transition(&first);
    off.handle_transition(&second);
    assert_eq!(off.q_func.evaluate(&0, &0), F(1.0));
}

#[test]
fn q_sigma_window_of_one_entry_propagates_the_estimate_alone() {
    let mut q = QSigma::new(q_table(), Always(1, 1.0), F(0.25), F(0.5), F(0.5), 1, 0usize);
    q.handle_transition(&Transition::new(0usize, 0usize, F(3.0), 1usize));
    assert_eq!(q.backup.len(), 0);
    assert_eq!(q.q_func.evaluate_all(&0), fs(&[1.0, 2.0]));
}

#[test]
fn q_sigma_learns_nothing_from_an_episode_shorter_than_the_window() {
    let mut q = QSigma::new(q_table(), Always(1, 1.0), F(0.25), F(0.5), F(0.5), 4, 0usize);
    q.handle_transition(&Transition::new(0usize, 0usize, F(3.0), 1usize));
    q.handle_transition(&Transition::new(1usize, 1usize, F(1.0), 0usize));
    assert_eq!(q.backup.len(), 2);
    q.handle_transition(&Transition::terminal(0usize, 1usize, F(5.0), 1usize));
    assert_eq!(q.backup.len(), 0);
    assert_eq!(q.q_func.evaluate_all(&0), fs(&[1.0, 2.0]));
    assert_eq!(q.q_func.evaluate_all(&1), fs(&[4.0, 8.0]));
    assert_eq!(q.prior_state, 0);
}
