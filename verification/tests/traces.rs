use rsrl::features::Features;
use rsrl::scalar::{Fixed, Scalar};
use rsrl::traces::Trace;

fn fx(n: i64) -> Fixed {
    Fixed::from_int(n)
}

fn values(t: &Trace<Fixed>) -> Vec<Fixed> {
    t.deref().expanded()
}

#[test]
fn accumulating_trace_adds() {
    let mut t: Trace<Fixed> = Trace::accumulating(3);
    assert_eq!(t.len(), 3);
    assert_eq!(values(&t), vec![fx(0), fx(0), fx(0)]);
    t.update(&Features::Dense(vec![fx(1), fx(2), fx(3)]));
    t.update(&Features::Sparse(3, vec![(1, fx(5))]));
    assert_eq!(values(&t), vec![fx(1), fx(7), fx(3)]);
    t.scale(Fixed::ratio(1, 2));
    assert_eq!(values(&t), vec![Fixed::ratio(1, 2), Fixed::ratio(7, 2), Fixed::ratio(3, 2)]);
}

#[test]
fn replacing_trace_sets_active_components() {
    let mut t: Trace<Fixed> = Trace::replacing(4, fx(1));
    t.update(&Features::Sparse(4, vec![(0, fx(9)), (2, fx(9))]));
    assert_eq!(values(&t), vec![fx(1), fx(0), fx(1), fx(0)]);
    t.scaled_update(Fixed::ratio(1, 2), &Features::Dense(vec![fx(0), fx(3), fx(0), fx(0)]));
    assert_eq!(values(&t), vec![Fixed::ratio(1, 2), fx(1), Fixed::ratio(1, 2), fx(0)]);
}

#[test]
fn reset_gives_the_zero_vector() {
    let mut t: Trace<Fixed> = Trace::accumulating(2);
    t.update(&Features::Dense(vec![fx(4), fx(5)]));
    t.reset();
    assert_eq!(values(&t), vec![fx(0), fx(0)]);
    assert_eq!(t.len(), 2);
}

#[test]
fn combine_inplace_merges_componentwise() {
    let mut t: Trace<Fixed> = Trace::accumulating(3);
    t.update(&Features::Dense(vec![fx(1), fx(2), fx(3)]));
    t.combine_inplace(&Features::Sparse(3, vec![(2, fx(10))]), |x: Fixed, y: Fixed| {
        x.mul(fx(2)).add(y)
    });
    assert_eq!(values(&t), vec![fx(2), fx(4), fx(16)]);
}
