use rsrl::fa::{EnumerableStateActionFunction, StateActionFunction};
use rsrl::linalg::{dot, Matrix};
use rsrl::memory::make_shared;
use rsrl::scalar::{Fixed, Scalar};
use rsrl::tabular::Tabular;

fn fx(n: i64) -> Fixed {
    Fixed::from_int(n)
}

#[test]
fn shared_handle_gives_read_and_write_access() {
    let mut handle = make_shared(vec![1u32, 2, 3]);
    assert_eq!(handle.borrow().len(), 3);
    handle.borrow_mut().push(4);
    assert_eq!(*handle.borrow(), vec![1, 2, 3, 4]);
    assert_eq!(handle.into_inner(), vec![1, 2, 3, 4]);
}

#[test]
fn shared_estimator_is_an_estimator() {
    let mut q = make_shared(Tabular::new(vec![vec![fx(1), fx(4)], vec![fx(2), fx(8)]]));
    assert_eq!(q.n_actions(), 2);
    assert_eq!(q.evaluate(&1, &1), fx(8));
    assert_eq!(q.find_max(&0), (1, fx(2)));
    assert_eq!(q.find_min(&0), (0, fx(1)));
    q.update_by_error(&0, &0, fx(5));
    assert_eq!(q.borrow().evaluate(&0, &0), fx(6));
    assert_eq!(q.evaluate_all(&0), vec![fx(6), fx(2)]);
    q.update_all_by_errors(&1, vec![fx(1), fx(1)]);
    assert_eq!(q.evaluate_all(&1), vec![fx(5), fx(9)]);
}

#[test]
fn matrix_operations() {
    let eps = Fixed::ratio(1, 2);
    let mut m = Matrix::scaled_identity(2, eps);
    assert_eq!(m.rows, vec![vec![eps, fx(0)], vec![fx(0), eps]]);
    assert_eq!(m.n_rows(), 2);
    assert_eq!(m.mat_vec(&vec![fx(2), fx(6)]), vec![fx(1), fx(3)]);
    m.merge_outer(&vec![fx(1), fx(2)], &vec![fx(3), fx(4)], |x: Fixed, y: Fixed| x.add(y));
    assert_eq!(m.rows, vec![vec![eps.add(fx(3)), fx(4)], vec![fx(6), eps.add(fx(8))]]);
    m.fill_zero();
    assert_eq!(m.rows, vec![vec![fx(0), fx(0)], vec![fx(0), fx(0)]]);
    assert_eq!(dot(&vec![fx(1), fx(2), fx(3)], &vec![fx(4), fx(5)]), fx(14));
}
