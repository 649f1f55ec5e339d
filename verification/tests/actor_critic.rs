use rsrl::control::cacla::CACLA;
use rsrl::control::offpac::OffPAC;
use rsrl::control::pal::PAL;
use rsrl::control::qac::QAC;
use rsrl::control::tdac::TDAC;
use rsrl::domains::Transition;
use rsrl::features::Features;
use rsrl::linear::ScalarLFA;
use rsrl::policies::{DifferentiablePolicy, Policy};
use rsrl::prediction::td::TD;
use rsrl::scalar::{Fixed, Scalar};
use rsrl::tabular::Tabular;
use vstd::view::View;

fn fx(n: i64) -> Fixed {
    Fixed::from_int(n)
}

fn q(num: i64, den: i64) -> Fixed {
    Fixed::ratio(num, den)
}

fn one_hot(n: usize, i: usize) -> Features<Fixed> {
    Features::Sparse(n, vec![(i, Fixed::one())])
}

fn critic() -> TD<usize, ScalarLFA<Fixed>, Fixed> {
    let v = ScalarLFA::new(vec![one_hot(2, 0), one_hot(2, 1)], vec![fx(1), fx(4)]);
    TD::new(v, q(1, 2), q(1, 2), 0usize)
}

/// A policy over two actions that gives the action 0 the probability
/// `first` and records the errors that it is given.
struct Recorder {
    first: Fixed,
    log: Vec<(usize, usize, Fixed)>,
}

impl View for Recorder {
    type V = ();

    fn view(&self) -> () {
        unreachable!()
    }
}

impl Policy<usize, Fixed> for Recorder {
    type Action = usize;

    fn supports(&self, _state: usize, _action: usize) -> bool {
        unreachable!()
    }

    fn probability_spec(&self, _state: usize, _action: usize) -> Fixed {
        unreachable!()
    }

    fn sample(&self, _rng: &mut rand::rngs::ThreadRng, _state: &usize) -> usize {
        0
    }

    fn probability(&self, _state: &usize, action: &usize) -> Fixed {
        if *action == 0 {
            self.first
        } else {
            Fixed::one().sub(self.first)
        }
    }
}

impl DifferentiablePolicy<usize, Fixed> for Recorder {
    fn update_spec(_model: (), _state: usize, _action: usize, _error: Fixed) -> () {
        unreachable!()
    }

    fn mpa_spec(_model: (), _state: usize) -> usize {
        unreachable!()
    }

    fn mpa(&self, _state: &usize) -> usize {
        0
    }

    fn update(&mut self, state: &usize, action: &usize, error: Fixed) {
        self.log.push((*state, *action, error));
    }
}

fn recorder(first: Fixed) -> Recorder {
    Recorder { first, log: Vec::new() }
}

/// A policy over actions that are numbers: it holds one mean for each state.
struct Means {
    means: Vec<Fixed>,
}

impl View for Means {
    type V = ();

    fn view(&self) -> () {
        unreachable!()
    }
}

impl Policy<usize, Fixed> for Means {
    type Action = Fixed;

    fn supports(&self, _state: usize, _action: Fixed) -> bool {
        unreachable!()
    }

    fn probability_spec(&self, _state: usize, _action: Fixed) -> Fixed {
        unreachable!()
    }

    fn sample(&self, _rng: &mut rand::rngs::ThreadRng, state: &usize) -> Fixed {
        self.means[*state]
    }

    fn probability(&self, state: &usize, action: &Fixed) -> Fixed {
        if self.means[*state] == *action {
            Fixed::one()
        } else {
            Fixed::zero()
        }
    }
}

impl DifferentiablePolicy<usize, Fixed> for Means {
    fn update_spec(_model: (), _state: usize, _action: Fixed, _error: Fixed) -> () {
        unreachable!()
    }

    fn mpa_spec(_model: (), _state: usize) -> Fixed {
        unreachable!()
    }

    fn mpa(&self, state: &usize) -> Fixed {
        self.means[*state]
    }

    fn update(&mut self, state: &usize, _action: &Fixed, error: Fixed) {
        self.means[*state] = self.means[*state].add(error);
    }
}

#[test]
fn tdac_hands_the_policy_the_residual_seen_before_the_critic_learns() {
    let mut ac = TDAC::new(critic(), recorder(q(1, 2)), q(1, 4), q(1, 2), 0usize);
    ac.handle_transition(&Transition::new(0usize, 1usize, fx(3), 1usize));
    // residual = 3 + 0.5 * 4 - 1 = 4; the policy takes 0.25 * 4
    assert_eq!(ac.policy.log, vec![(0, 1, fx(1))]);
    // the critic moves V(0) by 0.5 * 4
    assert_eq!(ac.predict_v(&0), fx(3));
    assert_eq!(ac.prior_state, 1);
    ac.handle_transition(&Transition::terminal(1usize, 0usize, fx(2), 0usize));
    assert_eq!(ac.policy.log[1], (1, 0, q(-1, 2)));
    assert_eq!(ac.prior_state, 1);
    ac.handle_terminal();
    assert_eq!(ac.predict_v(&1), fx(3));
}

#[test]
fn offpac_weighs_the_residual_by_the_ratio_of_probabilities() {
    let mut ac =
        OffPAC::new(critic(), recorder(q(1, 4)), recorder(q(1, 2)), q(1, 2), q(1, 2), 0usize);
    ac.handle_transition(&Transition::new(0usize, 0usize, fx(3), 1usize));
    // the critic learns first: V(0) = 1 + 0.5 * 4 = 3; then the residual is
    // 3 + 0.5 * 4 - 3 = 2 and the ratio 0.25 / 0.5
    assert_eq!(ac.predict_v(&0), fx(3));
    assert_eq!(ac.target.log, vec![(0, 0, q(1, 2))]);
    assert_eq!(ac.behaviour.log.len(), 0);
    assert_eq!(ac.prior_state, 1);
    ac.handle_terminal();
}

#[test]
fn qac_hands_the_policy_the_value_of_the_action_taken() {
    let table = Tabular::new(vec![vec![fx(1), fx(4)], vec![fx(2), fx(8)]]);
    let pal = PAL::new(table, recorder(q(1, 2)), q(1, 2), q(1, 2), 0usize);
    let mut ac = QAC::new(pal, recorder(q(1, 2)), q(1, 4), 0usize);
    ac.handle_transition(&Transition::new(0usize, 0usize, fx(3), 1usize));
    // the critic moves Q(0, 0) to 3.75 first; the policy takes 0.25 * 3.75
    assert_eq!(ac.predict_q(&0, &0), q(15, 4));
    assert_eq!(ac.policy.log, vec![(0, 0, q(15, 16))]);
    assert_eq!(ac.prior_state, 1);
    assert_eq!(ac.predict_v(&1), fx(8));
    ac.update_policy(&Transition::new(1usize, 1usize, fx(0), 0usize));
    assert_eq!(ac.policy.log[1], (1, 1, fx(2)));
    ac.handle_terminal();
}

#[test]
fn cacla_moves_the_mean_only_after_a_step_that_improves() {
    let means = Means { means: vec![fx(2), fx(0)] };
    let behaviour = Means { means: vec![fx(0), fx(0)] };
    let mut ac = CACLA::new(critic(), means, behaviour, q(1, 2), q(1, 2), 0usize);
    ac.handle_transition(&Transition::new(0usize, fx(6), fx(3), 1usize));
    // target = 3 + 0.5 * 4 = 5 > V(0) = 1: the mean moves by 0.5 * (6 - 2)
    assert_eq!(ac.target_policy.means, vec![fx(4), fx(0)]);
    assert_eq!(ac.prior_state, 1);
    ac.handle_transition(&Transition::terminal(1usize, fx(9), fx(1), 0usize));
    // target = 1 is not above V(1) = 4
    assert_eq!(ac.target_policy.means, vec![fx(4), fx(0)]);
    assert_eq!(ac.prior_state, 1);
    let mut rng = rand::thread_rng();
    assert_eq!(ac.sample_target(&mut rng, &0), fx(4));
    assert_eq!(ac.sample_behaviour(&mut rng, &0), fx(0));
    ac.handle_terminal();
}
