use pgpt::config::Config;
use pgpt::rational::{Ratio, Rational};
use pgpt::transform::{xy, Matrix2, Param, Point};

fn ratio(num: i32, den: i32) -> Rational {
    Rational::new(num, den).unwrap()
}

fn param(num: i32, den: i32) -> Param {
    Param::new(num, den).unwrap()
}

fn config(a: Rational, vx: Rational, vy: Rational) -> Config {
    Config::new(a, ratio(1, 2), vx, vy).unwrap()
}

/// Whether `r` has the value `num / den`.
fn has_value(r: &Ratio, num: i128, den: i128) -> bool {
    r.numer() * den == num * r.denom()
}

#[test]
fn param_is_never_zero() {
    assert!(Param::new(0, 1).is_none());
    assert!(Param::new(0, 100).is_none());
    assert!(Param::new(1, 0).is_none());
    assert!(Param::new(1, -1).is_none());
    let t = Param::new(-1, 100).unwrap();
    assert_eq!((t.numer(), t.denom()), (-1, 100));
}

#[test]
fn param_from_rational_rejects_zero() {
    assert!(Param::from_rational(&ratio(0, 3)).is_none());
    let t = Param::from_rational(&ratio(-5, 3)).unwrap();
    assert_eq!((t.numer(), t.denom()), (-5, 3));
}

#[test]
fn matrix_entries_are_cleared_of_denominators() {
    // a = 3/2, t = 2/5: t = 2/5, a (t - 1/t) = -63/20, 1/t = 5/2, times 2 * 5 * 2.
    let m = Matrix2::new(&ratio(3, 2), &param(2, 5));
    assert_eq!(m.rows(), ((8, -63), (0, 50)));
}

#[test]
fn matrix_at_one_is_a_multiple_of_the_identity() {
    let m = Matrix2::new(&ratio(7, 3), &param(1, 1));
    assert_eq!(m.rows(), ((3, 0), (0, 3)));
    let m = Matrix2::new(&ratio(7, 3), &param(4, 4));
    assert_eq!(m.rows(), ((48, 0), (0, 48)));
}

#[test]
fn matrix_without_skew_is_diagonal() {
    let m = Matrix2::new(&ratio(0, 1), &param(3, 1));
    assert_eq!(m.rows(), ((9, 0), (0, 1)));
}

#[test]
fn matrix_of_a_negative_parameter_has_positive_diagonal() {
    let m = Matrix2::new(&ratio(3, 2), &param(-2, 5));
    assert_eq!(m.rows(), ((8, -63), (0, 50)));
}

#[test]
fn matrix_of_extreme_terms_does_not_overflow() {
    let m = Matrix2::new(&ratio(i32::MIN, i32::MAX), &param(i32::MIN, 1));
    let n = i32::MIN as i128;
    let d = i32::MAX as i128;
    assert_eq!(m.rows(), ((n * n * d, n * (n * n - 1)), (0, d)));
    let r = m.apply(&ratio(i32::MIN, i32::MAX));
    assert_eq!(r.numer(), n * n * d * n + n * (n * n - 1) * d);
    assert_eq!(r.denom(), d * d);
}

#[test]
fn apply_multiplies_the_homogeneous_vector() {
    let m = Matrix2::new(&ratio(3, 2), &param(2, 5));
    let r = m.apply(&ratio(7, 11));
    assert_eq!(r.numer(), 8 * 7 - 63 * 11);
    assert_eq!(r.denom(), 50 * 11);
}

#[test]
fn point_follows_the_closed_form() {
    // x = t^2 s + a (t^2 - 1) with a = 3/2, t = 2/5.
    let c = config(ratio(3, 2), ratio(7, 11), ratio(-1, 4));
    let Point(x, y) = xy(&c, &param(2, 5));
    // 4/25 * 7/11 + 3/2 * (4/25 - 1) = -637/550
    assert!(has_value(&x, -637, 550));
    // 4/25 * -1/4 + 3/2 * (4/25 - 1) = -13/10
    assert!(has_value(&y, -13, 10));
}

#[test]
fn point_at_a_tenth() {
    let c = config(ratio(1, 1), ratio(0, 1), ratio(1, 1));
    let Point(x, y) = xy(&c, &param(1, 10));
    assert_eq!((x.numer(), x.denom()), (-99, 100));
    assert_eq!((y.numer(), y.denom()), (-98, 100));
}

#[test]
fn point_at_one_is_the_seed() {
    for (a, vx, vy) in [
        (ratio(1, 1), ratio(0, 1), ratio(1, 1)),
        (ratio(13, 10), ratio(-7, 3), ratio(5, 9)),
        (ratio(-250, 7), ratio(1000, 1), ratio(-1, 1000)),
    ] {
        let c = config(a, vx, vy);
        for t in [param(1, 1), param(100, 100)] {
            let Point(x, y) = xy(&c, &t);
            assert!(has_value(&x, vx.numer() as i128, vx.denom() as i128));
            assert!(has_value(&y, vy.numer() as i128, vy.denom() as i128));
        }
    }
}

#[test]
fn opposite_parameters_give_the_same_point() {
    let c = config(ratio(13, 10), ratio(0, 1), ratio(1, 1));
    for i in 1..500 {
        let Point(px, py) = xy(&c, &param(i, 100));
        let Point(nx, ny) = xy(&c, &param(-i, 100));
        assert_eq!((px.numer(), px.denom()), (nx.numer(), nx.denom()));
        assert_eq!((py.numer(), py.denom()), (ny.numer(), ny.denom()));
    }
}

#[test]
fn point_without_skew_is_a_pure_squeeze() {
    let c = config(ratio(0, 1), ratio(3, 1), ratio(-2, 1));
    let Point(x, y) = xy(&c, &param(5, 2));
    // t^2 = 25/4
    assert!(has_value(&x, 75, 4));
    assert!(has_value(&y, -50, 4));
}

#[test]
fn point_has_positive_denominators() {
    let c = config(ratio(-13, 10), ratio(-7, 3), ratio(5, 9));
    for t in [param(-500, 100), param(-1, 100), param(1, 100), param(499, 100)] {
        let Point(x, y) = xy(&c, &t);
        assert!(x.denom() > 0);
        assert!(y.denom() > 0);
    }
}
