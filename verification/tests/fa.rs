use rsrl::fa::{argmax, argmin, EnumerableStateActionFunction, StateActionFunction};
use rsrl::scalar::{Fixed, Scalar};
use rsrl::tabular::Tabular;

fn fx(n: i64) -> Fixed {
    Fixed::from_int(n)
}

#[test]
fn argmax_takes_lowest_index_on_ties() {
    let values = vec![fx(1), fx(3), fx(3), fx(2), fx(3)];
    assert_eq!(argmax(&values), (1, fx(3)));
    let flat = vec![fx(7), fx(7), fx(7)];
    assert_eq!(argmax(&flat), (0, fx(7)));
}

#[test]
fn argmin_takes_lowest_index_on_ties() {
    let values = vec![fx(4), fx(1), fx(3), fx(1)];
    assert_eq!(argmin(&values), (1, fx(1)));
    let flat = vec![fx(7), fx(7), fx(7)];
    assert_eq!(argmin(&flat), (0, fx(7)));
}

#[test]
fn tabular_find_max_and_min_break_ties_to_the_left() {
    let q = Tabular::new(vec![vec![fx(5), fx(0)], vec![fx(5), fx(2)], vec![fx(1), fx(2)]]);
    assert_eq!(q.n_actions(), 3);
    assert_eq!(q.find_max(&0), (0, fx(5)));
    assert_eq!(q.find_max(&1), (1, fx(2)));
    assert_eq!(q.find_min(&0), (2, fx(1)));
    assert_eq!(q.find_min(&1), (0, fx(0)));
}

#[test]
fn tabular_update_moves_one_entry() {
    let mut q: Tabular<Fixed> = Tabular::zeros([2, 3]);
    assert_eq!(q.evaluate_all(&1), vec![fx(0), fx(0), fx(0)]);
    q.update(&1, &2, fx(10), fx(4), Fixed::ratio(1, 2));
    assert_eq!(q.evaluate(&1, &2), fx(3));
    assert_eq!(q.evaluate(&0, &2), fx(0));
    assert_eq!(q.evaluate_all(&1), vec![fx(0), fx(0), fx(3)]);
    q.update_all(&0, vec![fx(2), fx(4), fx(6)], vec![fx(0), fx(0), fx(0)], Fixed::ratio(1, 2));
    assert_eq!(q.evaluate_all(&0), vec![fx(1), fx(2), fx(3)]);
    let estimates = vec![fx(1), fx(2), fx(3), fx(9)];
    q.update_all(&0, vec![fx(3), fx(2), fx(1)], estimates, Fixed::one());
    assert_eq!(q.evaluate_all(&0), vec![fx(3), fx(2), fx(1)]);
}
