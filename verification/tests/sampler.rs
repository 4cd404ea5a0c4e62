use pgpt::compressor::{check_start, DomainError};
use pgpt::config::Config;
use pgpt::curve_data::CurveData;
use pgpt::grid::Branch;
use pgpt::rational::{Ratio, Rational};
use pgpt::sampler::{compute_curve, compute_points, get_plot_data};
use pgpt::transform::{xy, Param, Point};

fn ratio(num: i32, den: i32) -> Rational {
    Rational::new(num, den).unwrap()
}

fn param(num: i32, den: i32) -> Param {
    Param::new(num, den).unwrap()
}

fn value(r: &Ratio) -> f64 {
    r.numer() as f64 / r.denom() as f64
}

/// The displayed coordinates of a raw point under the scale `k`.
fn into_coord(p: (f64, f64), k: f64) -> (f64, f64) {
    ((k * p.0).tanh(), (k * p.1).tanh())
}

/// The raw coordinates of a displayed point under the scale `k`.
fn from_coord(k: f64, x0: f64, y0: f64) -> (f64, f64) {
    (k.recip() * x0.atanh(), k.recip() * y0.atanh())
}

fn same_terms(a: &Ratio, b: &Ratio) -> bool {
    (a.numer(), a.denom()) == (b.numer(), b.denom())
}

#[test]
fn test_compute_curve() {
    // The displayed start (1, 0) is on the border of the display region.
    let k = ratio(1, 2);
    assert!(matches!(check_start(&k, ratio(1, 1), ratio(0, 1)), Err(DomainError::OutOfRange)));

    // The trajectory through the raw point (0, 1).
    let config = Config::new(ratio(1, 1), k, ratio(0, 1), ratio(1, 1)).unwrap();
    let t_values = vec![param(1, 10), param(1, 1), param(2, 1)];
    let (x_vals, y_vals) = compute_curve(&config, &t_values);
    let shown: Vec<(f64, f64)> = x_vals
        .iter()
        .zip(y_vals.iter())
        .map(|(x, y)| into_coord((value(x), value(y)), 0.5))
        .collect();

    assert!((shown[0].0 - (-0.458175844698613)).abs() < 0.01);
    assert!((shown[0].1 - (-0.4542164326822591)).abs() < 0.01);

    assert!((shown[1].0 - (0.0)).abs() < 0.01);
    assert!((shown[1].1 - (0.46211715726000974)).abs() < 0.01);

    assert!((shown[2].0 - (0.9051482536448665)).abs() < 0.01);
    assert!((shown[2].1 - (0.9981778976111987)).abs() < 0.01);

    // The two branches lie on each other.
    let config = Config::new(ratio(13, 10), k, ratio(0, 1), ratio(1, 1)).unwrap();
    for i in 1..500 {
        let Point(px, py) = xy(&config, &param(i, 100));
        let Point(nx, ny) = xy(&config, &param(-i, 100));
        let (px, py) = into_coord((value(&px), value(&py)), 0.5);
        let (nx, ny) = into_coord((value(&nx), value(&ny)), 0.5);
        assert!((px - nx).abs() < 0.01);
        assert!((py - ny).abs() < 0.01);
    }
}

#[test]
fn lib_test_compute_curve() {
    // The displayed start (0, 1) is on the border of the display region.
    let k = ratio(1, 2);
    assert!(matches!(check_start(&k, ratio(0, 1), ratio(1, 1)), Err(DomainError::OutOfRange)));

    // The first coordinate of the start is displayed at 0 and stands for 0.
    let (vx, _) = from_coord(0.5, 0.0, 0.0);
    assert_eq!(vx, 0.0);

    let config = Config::new(ratio(1, 1), k, ratio(0, 1), ratio(1, 1)).unwrap();
    let t_values = vec![param(1, 10), param(1, 1), param(2, 1)];
    let (x_values, y_values) = compute_curve(&config, &t_values);
    let x_values: Vec<f64> = x_values.iter().map(|x| (0.5 * value(x)).tanh()).collect();
    let y_values: Vec<f64> = y_values.iter().map(|y| (0.5 * value(y)).tanh()).collect();

    assert!((x_values[0] - (-0.458175844698613)).abs() < 0.01);
    assert!((y_values[0] - (-0.4542164326822591)).abs() < 0.01);

    assert!((x_values[1] - (0.0)).abs() < 0.01);
    assert!((y_values[1] - (0.46211715726000974)).abs() < 0.01);

    assert!((x_values[2] - (0.9051482536448665)).abs() < 0.01);
    assert!((y_values[2] - (0.9981778976111987)).abs() < 0.01);

    let config = Config::new(ratio(13, 10), k, ratio(0, 1), ratio(1, 1)).unwrap();
    for i in 1..500 {
        let Point(px, py) = xy(&config, &param(i, 100));
        let Point(nx, ny) = xy(&config, &param(-i, 100));
        assert!(((0.5 * value(&px)).tanh() - (0.5 * value(&nx)).tanh()).abs() < 0.01);
        assert!(((0.5 * value(&py)).tanh() - (0.5 * value(&ny)).tanh()).abs() < 0.01);
    }
}

#[test]
fn scenario_at_a_tenth_one_and_two() {
    let config = Config::new(ratio(1, 1), ratio(1, 2), ratio(0, 1), ratio(1, 1)).unwrap();
    let (x, y) = compute_curve(&config, &vec![param(1, 10), param(1, 1), param(2, 1)]);
    // raw: t^2 s + (t^2 - 1)
    let raw: Vec<(i128, i128, i128, i128)> =
        x.iter().zip(y.iter()).map(|(x, y)| (x.numer(), x.denom(), y.numer(), y.denom())).collect();
    assert_eq!(raw, vec![(-99, 100, -98, 100), (0, 1, 1, 1), (3, 1, 7, 1)]);
    let expected = [(-0.458, -0.454), (0.0, 0.462), (0.905, 0.998)];
    for i in 0..3 {
        let (sx, sy) = into_coord((value(&x[i]), value(&y[i])), 0.5);
        assert!((sx - expected[i].0).abs() < 0.01);
        assert!((sy - expected[i].1).abs() < 0.01);
    }
}

#[test]
fn displayed_start_comes_back_at_one() {
    let (k, x0, y0) = (0.5, 0.25, -0.75);
    let start = check_start(&ratio(1, 2), ratio(1, 4), ratio(-3, 4)).unwrap();
    assert_eq!((start.x().numer(), start.y().numer()), (1, -3));
    let (vx, vy) = from_coord(k, x0, y0);
    let exact = |v: f64| ratio((v * 1048576.0).round() as i32, 1048576);
    let config = Config::new(ratio(13, 10), ratio(1, 2), exact(vx), exact(vy)).unwrap();
    let Point(x, y) = xy(&config, &param(1, 1));
    let (sx, sy) = into_coord((value(&x), value(&y)), k);
    assert!((sx - x0).abs() < 1e-5);
    assert!((sy - y0).abs() < 1e-5);
}

#[test]
fn compress_undoes_decompress() {
    for k in [0.5, -0.5, 2.0, 0.01] {
        for u in [-0.999, -0.5, 0.0, 0.25, 0.999] {
            let (x, y) = from_coord(k, u, -u);
            let (su, sv) = into_coord((x, y), k);
            assert!((su - u).abs() < 1e-12);
            assert!((sv + u).abs() < 1e-12);
        }
    }
}

#[test]
fn curve_keeps_the_order_of_its_parameters() {
    let config = Config::new(ratio(13, 10), ratio(1, 2), ratio(-7, 3), ratio(5, 9)).unwrap();
    let t_values = vec![param(3, 1), param(-1, 7), param(3, 1), param(1, 100)];
    let (x, y) = compute_curve(&config, &t_values);
    let points = compute_points(&config, &t_values);
    assert_eq!(x.len(), 4);
    assert_eq!(y.len(), 4);
    assert_eq!(points.len(), 4);
    for (i, t) in t_values.iter().enumerate() {
        let Point(px, py) = xy(&config, t);
        assert!(same_terms(&x[i], &px));
        assert!(same_terms(&y[i], &py));
        assert!(same_terms(&points[i].0, &px));
        assert!(same_terms(&points[i].1, &py));
    }
    assert!(same_terms(&x[0], &x[2]));
    assert!(!same_terms(&x[0], &x[1]));
}

#[test]
fn curve_of_no_parameters_is_empty() {
    let config = Config::new(ratio(1, 1), ratio(1, 2), ratio(0, 1), ratio(1, 1)).unwrap();
    let (x, y) = compute_curve(&config, &Vec::new());
    assert!(x.is_empty());
    assert!(y.is_empty());
    assert!(compute_points(&config, &Vec::new()).is_empty());
}

#[test]
fn plot_data_has_two_labelled_branches() {
    let config = Config::new(ratio(1, 1), ratio(1, 2), ratio(0, 1), ratio(1, 1)).unwrap();
    let (neg, pos) = get_plot_data(&config);
    assert_eq!(neg.branch, Branch::Negative);
    assert_eq!(pos.branch, Branch::Positive);
    assert_eq!(neg.branch.label(), "Negative t");
    assert_eq!(pos.branch.label(), "Positive t");
    for series in [&neg, &pos] {
        assert_eq!(series.t.len(), 499);
        assert_eq!(series.x.len(), 499);
        assert_eq!(series.y.len(), 499);
    }
    assert_eq!((neg.t[0].numer(), neg.t[0].denom()), (-500, 100));
    assert_eq!((neg.t[498].numer(), neg.t[498].denom()), (-2, 100));
    assert_eq!((pos.t[0].numer(), pos.t[0].denom()), (1, 100));
    assert_eq!((pos.t[498].numer(), pos.t[498].denom()), (499, 100));
    // at t = -5: x = 24, y = 25 + 24
    assert_eq!(neg.x[0].numer(), 24 * neg.x[0].denom());
    assert_eq!(neg.y[0].numer(), 49 * neg.y[0].denom());
    // at t = 1: the seed
    assert_eq!(pos.x[99].numer(), 0);
    assert_eq!(pos.y[99].numer(), pos.y[99].denom());
}

#[test]
fn plot_data_matches_the_point_at_each_parameter() {
    let config = Config::new(ratio(-13, 10), ratio(1, 2), ratio(2, 3), ratio(-1, 5)).unwrap();
    let (neg, pos) = get_plot_data(&config);
    for series in [&neg, &pos] {
        for i in 0..series.t.len() {
            let Point(x, y) = xy(&config, &series.t[i]);
            assert!(same_terms(&series.x[i], &x));
            assert!(same_terms(&series.y[i], &y));
        }
    }
}

#[test]
fn displayed_points_stay_in_the_display_region() {
    let config = Config::new(ratio(13, 10), ratio(1, 2), ratio(0, 1), ratio(1, 1)).unwrap();
    let (neg, pos) = get_plot_data(&config);
    for series in [&neg, &pos] {
        for i in 0..series.t.len() {
            let (x, y) = into_coord((value(&series.x[i]), value(&series.y[i])), 0.5);
            assert!(-1.0 <= x && x <= 1.0);
            assert!(-1.0 <= y && y <= 1.0);
        }
    }
}

#[test]
fn curve_data_starts_without_points() {
    let data = CurveData::new();
    assert_eq!(data.len(), 500);
    assert!(data.neg_points().is_empty());
    assert!(data.pos_points().is_empty());
    assert_eq!(data.t_neg().len(), 500);
    assert_eq!(data.t_pos().len(), 500);
    assert_eq!((data.k().numer(), data.k().denom()), (1, 2));
}

#[test]
fn curve_data_computes_both_branches() {
    let mut data = CurveData::new();
    data.compute(ratio(1, 1));
    assert_eq!(data.len(), 500);
    assert_eq!(data.neg_points().len(), 500);
    assert_eq!(data.pos_points().len(), 500);
    // at t = -5 and t = 5: x = 24, y = 49
    for p in [&data.neg_points()[0], &data.pos_points()[499]] {
        assert_eq!(p.0.numer(), 24 * p.0.denom());
        assert_eq!(p.1.numer(), 49 * p.1.denom());
    }
    // at t = -1/10 and t = 1/10: x = -99/100, y = -98/100
    for p in [&data.neg_points()[499], &data.pos_points()[0]] {
        assert_eq!(p.0.numer() * 100, -99 * p.0.denom());
        assert_eq!(p.1.numer() * 100, -98 * p.1.denom());
    }
    let first = &data.neg_points()[0];
    assert_eq!(format!("First point: ({:.2}, {:.2})", value(&first.0), value(&first.1)), "First point: (24.00, 49.00)");
}

#[test]
fn curve_data_computes_again_for_another_skew() {
    let mut data = CurveData::new();
    data.compute(ratio(1, 1));
    data.compute(ratio(0, 1));
    assert_eq!(data.neg_points().len(), 500);
    // without skew: x = 0, y = t^2
    let p = &data.pos_points()[499];
    assert_eq!(p.0.numer(), 0);
    assert_eq!(p.1.numer(), 25 * p.1.denom());
    let config = Config::new(ratio(0, 1), data.k(), ratio(0, 1), ratio(1, 1)).unwrap();
    for (i, t) in data.t_neg().iter().enumerate() {
        let Point(x, y) = xy(&config, t);
        assert!(same_terms(&data.neg_points()[i].0, &x));
        assert!(same_terms(&data.neg_points()[i].1, &y));
    }
}
