use rsrl::features::{dot_features, Features};
use rsrl::scalar::{Fixed, Scalar};

fn fx(n: i64) -> Fixed {
    Fixed::from_int(n)
}

fn dense(v: &[i64]) -> Features<Fixed> {
    Features::Dense(v.iter().map(|x| fx(*x)).collect())
}

fn sparse(n: usize, v: &[(usize, i64)]) -> Features<Fixed> {
    Features::Sparse(n, v.iter().map(|(i, x)| (*i, fx(*x))).collect())
}

#[test]
fn dot_dense_dense() {
    assert_eq!(dot_features(&dense(&[1, 2, 3]), &dense(&[4, 5, 6])), fx(32));
    assert_eq!(dot_features(&dense(&[1, 2, 3]), &dense(&[4, 5])), fx(14));
    assert_eq!(dot_features(&dense(&[]), &dense(&[4, 5])), fx(0));
}

#[test]
fn dot_sparse_dense_and_dense_sparse() {
    let s = sparse(4, &[(0, 2), (3, 5)]);
    let d = dense(&[10, 20, 30, 40]);
    assert_eq!(dot_features(&s, &d), fx(220));
    assert_eq!(dot_features(&d, &s), fx(220));
    let short = dense(&[10, 20]);
    assert_eq!(dot_features(&s, &short), fx(20));
    assert_eq!(dot_features(&short, &s), fx(20));
}

#[test]
fn dot_sparse_sparse_walks_either_side() {
    let a = sparse(8, &[(1, 2), (4, 3), (6, 7)]);
    let b = sparse(8, &[(4, 10), (7, 1)]);
    assert_eq!(dot_features(&a, &b), fx(30));
    assert_eq!(dot_features(&b, &a), fx(30));
    let c = sparse(8, &[(0, 1)]);
    assert_eq!(dot_features(&a, &c), fx(0));
}

#[test]
fn component_access() {
    let s = sparse(5, &[(1, 2), (3, 4)]);
    assert_eq!(s.dim(), 5);
    assert_eq!(s.get(1), Some(fx(2)));
    assert_eq!(s.get(2), None);
    assert_eq!(s.at(2), fx(0));
    assert_eq!(s.at(3), fx(4));
    assert!(s.is_active(1));
    assert!(!s.is_active(0));
    assert_eq!(s.expanded(), vec![fx(0), fx(2), fx(0), fx(4), fx(0)]);
    let d = dense(&[0, 7, -1]);
    assert_eq!(d.dim(), 3);
    assert_eq!(d.get(3), None);
    assert!(!d.is_active(0));
    assert!(d.is_active(1));
    assert!(d.is_active(2));
    assert!(!d.is_active(9));
    assert_eq!(d.expanded(), vec![fx(0), fx(7), fx(-1)]);
}

#[test]
fn scaled_addto_and_addto() {
    let mut w = vec![fx(1), fx(1), fx(1)];
    sparse(3, &[(2, 4), (7, 9)]).scaled_addto(fx(2), &mut w);
    assert_eq!(w, vec![fx(1), fx(1), fx(9)]);
    dense(&[1, 2]).scaled_addto(fx(3), &mut w);
    assert_eq!(w, vec![fx(4), fx(7), fx(9)]);
    dense(&[1, 1, 1]).addto(&mut w);
    assert_eq!(w, vec![fx(5), fx(8), fx(10)]);
    sparse(3, &[(0, 5)]).addto(&mut w);
    assert_eq!(w, vec![fx(10), fx(8), fx(10)]);
}

#[test]
fn combine_merges_over_the_first_dimension() {
    let a = sparse(3, &[(1, 2)]);
    let b = dense(&[10, 20, 30, 40]);
    let r = a.combine(&b, |x: Fixed, y: Fixed| x.sub(y));
    assert_eq!(r.expanded(), vec![fx(-10), fx(-18), fx(-30)]);
    assert_eq!(a.copy().expanded(), a.expanded());
    assert_eq!(b.dot_vec(&vec![fx(1), fx(1)]), fx(30));
    assert_eq!(a.dot_vec(&vec![fx(3), fx(4), fx(5)]), fx(8));
}

#[test]
fn constructors_check_the_indices() {
    assert!(Features::sparse(3, vec![(0, fx(1)), (2, fx(1))]).is_some());
    assert!(Features::sparse(3, vec![(0, fx(1)), (3, fx(1))]).is_none());
    assert!(Features::sparse(3, vec![(1, fx(1)), (1, fx(2))]).is_none());
    assert!(Features::<Fixed>::sparse(0, Vec::new()).is_some());
    assert!(Features::dense(vec![fx(1)]).is_wf());
    assert!(!sparse(2, &[(0, 1), (1, 1), (0, 1)]).is_wf());
}
