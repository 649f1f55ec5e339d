use rsrl::control::reinforce::{BaselineREINFORCE, REINFORCE};
use rsrl::domains::Transition;
use rsrl::fa::EnumerableStateActionFunction;
use rsrl::policies::{DifferentiablePolicy, Policy};
use rsrl::scalar::{Fixed, Scalar};
use rsrl::tabular::Tabular;
use vstd::view::View;

fn fx(n: i64) -> Fixed {
    Fixed::from_int(n)
}

fn q(num: i64, den: i64) -> Fixed {
    Fixed::ratio(num, den)
}

/// A policy that keeps one preference for each state and action and
/// records the errors that it is given.
struct Preferences {
    table: Vec<Vec<Fixed>>,
    log: Vec<(usize, usize, Fixed)>,
}

impl View for Preferences {
    type V = ();

    fn view(&self) -> () {
        unreachable!()
    }
}

impl Policy<usize, Fixed> for Preferences {
    type Action = usize;

    fn supports(&self, _state: usize, _action: usize) -> bool {
        unreachable!()
    }

    fn probability_spec(&self, _state: usize, _action: usize) -> Fixed {
        unreachable!()
    }

    fn sample(&self, _rng: &mut rand::rngs::ThreadRng, state: &usize) -> usize {
        self.mpa(state)
    }

    fn probability(&self, state: &usize, action: &usize) -> Fixed {
        if self.mpa(state) == *action {
            Fixed::one()
        } else {
            Fixed::zero()
        }
    }
}

impl DifferentiablePolicy<usize, Fixed> for Preferences {
    fn update_spec(_model: (), _state: usize, _action: usize, _error: Fixed) -> () {
        unreachable!()
    }

    fn mpa_spec(_model: (), _state: usize) -> usize {
        unreachable!()
    }

    fn mpa(&self, state: &usize) -> usize {
        let row = &self.table[*state];
        let mut best = 0;
        for a in 1..row.len() {
            if row[best].lt(row[a]) {
                best = a;
            }
        }
        best
    }

    fn update(&mut self, state: &usize, action: &usize, error: Fixed) {
        self.table[*state][*action] = self.table[*state][*action].add(error);
        self.log.push((*state, *action, error));
    }
}

fn preferences() -> Preferences {
    Preferences { table: vec![vec![fx(0), fx(0)], vec![fx(0), fx(0)]], log: Vec::new() }
}

fn episode() -> Vec<Transition<usize, usize, Fixed>> {
    vec![
        Transition::new(0usize, 1usize, fx(1), 1usize),
        Transition::terminal(1usize, 0usize, fx(2), 0usize),
    ]
}

#[test]
fn reinforce_scans_from_the_end_with_normalised_returns() {
    let mut learner = REINFORCE::new(preferences(), q(1, 2), q(1, 2), 0usize);
    learner.handle_batch(&episode());
    // G = 2 then G = 1 + 0.5 * 2 = 2; each error is 0.5 * G / 2, for the
    // state that the step left and the action that it took
    assert_eq!(learner.policy.log, vec![(1, 0, q(1, 2)), (0, 1, q(1, 2))]);
    assert_eq!(learner.prior_state, 1);
    learner.handle_batch(&[]);
    assert_eq!(learner.policy.log.len(), 2);
    assert_eq!(learner.prior_state, 1);
    let mut rng = rand::thread_rng();
    assert_eq!(learner.sample_target(&mut rng, &0), learner.sample_behaviour(&mut rng, &0));
}

#[test]
fn baseline_reinforce_subtracts_the_baseline() {
    let baseline = Tabular::new(vec![vec![q(1, 2), fx(0)], vec![fx(1), fx(0)]]);
    let mut learner = BaselineREINFORCE::new(preferences(), baseline, q(1, 2), q(1, 2), 0usize);
    learner.handle_batch(&episode());
    // errors: 0.5 * (2 - B(1, 0)) and 0.5 * (2 - B(0, 1))
    assert_eq!(learner.policy.log, vec![(1, 0, fx(1)), (0, 1, q(1, 2))]);
    assert_eq!(learner.prior_state, 1);
    assert_eq!(learner.baseline.evaluate_all(&0), vec![q(1, 2), fx(1)]);
}
