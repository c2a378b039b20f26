use linear_unit::front::{field_or_zero, focus_after_tab, two_numbers, window_title, Focus, LineError};
use linear_unit::scalar::Scalar;
use linear_unit::unit::{LinearUnit, UnitError};

#[derive(Debug, Clone, Copy, PartialEq)]
struct F(f64);

impl Scalar for F {
    fn zero_spec() -> F {
        F(0.0)
    }
    fn add_spec(self, other: F) -> F {
        F(self.0 + other.0)
    }
    fn sub_spec(self, other: F) -> F {
        F(self.0 - other.0)
    }
    fn mul_spec(self, other: F) -> F {
        F(self.0 * other.0)
    }
    fn correction_spec(self) -> F {
        F(self.0 * 0.01)
    }
    fn is_zero_spec(self) -> bool {
        self.0 == 0.0
    }
    fn zero() -> F {
        F::zero_spec()
    }
    fn add(&self, other: &F) -> F {
        self.add_spec(*other)
    }
    fn sub(&self, other: &F) -> F {
        self.sub_spec(*other)
    }
    fn mul(&self, other: &F) -> F {
        self.mul_spec(*other)
    }
    fn correction(&self) -> F {
        self.correction_spec()
    }
    fn is_zero(&self) -> bool {
        self.is_zero_spec()
    }
    fn draw() -> F {
        F(rand::random::<f64>())
    }
}

fn fv(xs: &[f64]) -> Vec<F> {
    xs.iter().map(|&x| F(x)).collect()
}

fn progression_set() -> (Vec<Vec<F>>, Vec<F>) {
    let inputs = vec![
        fv(&[1., 2.]),
        fv(&[4., 5.]),
        fv(&[9., 10.]),
        fv(&[1., 4.]),
        fv(&[0.5, 1.]),
        fv(&[2., 6.]),
        fv(&[1., 7.]),
    ];
    let targets = fv(&[3., 6., 11., 7., 1.5, 10., 13.]);
    (inputs, targets)
}

#[test]
fn predict_is_bias_plus_dot_product() {
    let u = LinearUnit::new(fv(&[0.25, -1.5]), F(0.75));
    let r = u.predict(&fv(&[2.0, 3.0])).unwrap();
    assert_eq!(r, F(0.75 + (0.0 + 2.0 * 0.25 + 3.0 * -1.5)));
    assert_eq!(r, F(-3.25));
}

#[test]
fn predict_on_integers_is_exact() {
    let u = LinearUnit::new(vec![3i64, -2, 5], 7i64);
    assert_eq!(u.predict(&vec![1, 2, 3]), Ok(7 + 3 - 4 + 15));
}

#[test]
fn predict_on_integers_wraps() {
    let u = LinearUnit::new(vec![2i64], i64::MAX);
    assert_eq!(u.predict(&vec![1]), Ok(i64::MIN + 1));
}

#[test]
fn predict_with_wrong_length_is_refused() {
    let u = LinearUnit::new(fv(&[1.0, 2.0]), F(0.5));
    assert_eq!(u.predict(&fv(&[1.0, 2.0, 3.0])), Err(UnitError::InvalidInputLength));
    assert_eq!(u.predict(&fv(&[1.0])), Err(UnitError::InvalidInputLength));
    assert_eq!(u.weights(), &fv(&[1.0, 2.0]));
    assert_eq!(u.bias(), F(0.5));
    assert_eq!(u.dim(), 2);
}

#[test]
fn predict_twice_gives_the_same_value() {
    let u = LinearUnit::new(fv(&[0.1, 0.7]), F(-0.3));
    let x = fv(&[3.3, 1.9]);
    let a = u.predict(&x).unwrap();
    let b = u.predict(&x).unwrap();
    assert_eq!(a.0.to_bits(), b.0.to_bits());
    assert_eq!(u.weights(), &fv(&[0.1, 0.7]));
}

#[test]
fn training_from_the_same_start_is_deterministic() {
    let (xs, ts) = progression_set();
    let mut a = LinearUnit::new(fv(&[0.3, 0.6]), F(0.1));
    let mut b = LinearUnit::new(fv(&[0.3, 0.6]), F(0.1));
    let ra = a.train(&xs, &ts, 50).unwrap();
    let rb = b.train(&xs, &ts, 50).unwrap();
    assert_eq!(ra.errors, rb.errors);
    assert_eq!(ra.converged_epoch, rb.converged_epoch);
    assert_eq!(a.bias().0.to_bits(), b.bias().0.to_bits());
    assert_eq!(a.weights(), b.weights());
}

#[test]
fn exact_first_example_stops_training_at_once() {
    let xs = vec![fv(&[1.0, 2.0]), fv(&[4.0, 5.0]), fv(&[9.0, 10.0])];
    let ts = fv(&[3.0, 6.0, 11.0]);
    let mut u = LinearUnit::new(fv(&[0.0, 1.0]), F(1.0));
    let r = u.train(&xs, &ts, 100).unwrap();
    assert_eq!(r.converged_epoch, Some(0));
    assert_eq!(r.errors, vec![F(0.0)]);
    assert_eq!(u.weights(), &fv(&[0.0, 1.0]));
    assert_eq!(u.bias(), F(1.0));
}

#[test]
fn exact_hit_later_reports_its_epoch() {
    let xs = vec![vec![1i64], vec![2i64]];
    let ts = vec![100i64, 0];
    let mut u = LinearUnit::new(vec![0i64], 0i64);
    let r = u.train(&xs, &ts, 10).unwrap();
    // step 0: error 100, correction 1: w = 1, b = 1
    // step 1: output 1 + 2 = 3, error -3, correction 0
    // step 2: output 1 + 1 = 2, error 98, correction 0 from then on
    assert_eq!(r.errors.len(), 20);
    assert_eq!(&r.errors[..4], &[100, -3, 98, -3]);
    assert_eq!(r.converged_epoch, None);
    assert_eq!(u.weights(), &vec![1]);
    assert_eq!(u.bias(), 1);

    let mut v = LinearUnit::new(vec![0i64], 0i64);
    let r = v.train(&vec![vec![1i64], vec![1i64]], &vec![200i64, 4], 10).unwrap();
    // step 0: error 200, correction 2: w = 2, b = 2; step 1: output 4, error 0
    assert_eq!(r.errors, vec![200, 0]);
    assert_eq!(r.converged_epoch, Some(0));
    assert_eq!(v.weights(), &vec![2]);
    assert_eq!(v.bias(), 2);
}

#[test]
fn converged_epoch_counts_full_passes() {
    let mut u = LinearUnit::new(vec![0i64], 0i64);
    let r = u.train(&vec![vec![0i64]], &vec![50i64], 10).unwrap();
    // the correction of 50 is zero, so nothing changes and nothing converges
    assert_eq!(r.errors, vec![50; 10]);
    assert_eq!(r.converged_epoch, None);

    let mut v = LinearUnit::new(vec![0i64], 0i64);
    let r = v.train(&vec![vec![0i64], vec![0i64]], &vec![150i64, 1], 10).unwrap();
    // step 0: error 150, b = 1; step 1: error 0 in epoch 0
    assert_eq!(r.errors, vec![150, 0]);
    assert_eq!(r.converged_epoch, Some(0));

    let mut w = LinearUnit::new(vec![0i64], 0i64);
    let r = w.train(&vec![vec![0i64], vec![0i64]], &vec![150i64, 2], 10).unwrap();
    // epoch 0: errors 150 (b = 1), 1; epoch 1: errors 149 (b = 2), then 0
    assert_eq!(r.errors, vec![150, 1, 149, 0]);
    assert_eq!(r.converged_epoch, Some(1));
}

#[test]
fn without_an_exact_hit_every_epoch_runs() {
    let xs = vec![fv(&[1.0, 2.0]), fv(&[4.0, 5.0]), fv(&[9.0, 10.0])];
    let ts = fv(&[std::f64::consts::SQRT_2, std::f64::consts::PI, std::f64::consts::E]);
    let mut u = LinearUnit::new(fv(&[0.5, 0.5]), F(0.5));
    let r = u.train(&xs, &ts, 7).unwrap();
    assert_eq!(r.converged_epoch, None);
    assert_eq!(r.errors.len(), 21);
}

#[test]
fn zero_epochs_change_nothing() {
    let (xs, ts) = progression_set();
    let mut u = LinearUnit::new(fv(&[0.5, 0.5]), F(0.5));
    let r = u.train(&xs, &ts, 0).unwrap();
    assert!(r.errors.is_empty());
    assert_eq!(r.converged_epoch, None);
    assert_eq!(u.weights(), &fv(&[0.5, 0.5]));
}

#[test]
fn empty_training_set_runs_no_step() {
    let mut u = LinearUnit::new(vec![1i64, 2], 3i64);
    let r = u.train(&vec![], &vec![], 100).unwrap();
    assert!(r.errors.is_empty());
    assert_eq!(r.converged_epoch, None);
    assert_eq!(u.weights(), &vec![1, 2]);
}

#[test]
fn one_step_moves_bias_once_per_weight() {
    let mut u = LinearUnit::new(vec![0i64, 0], 0i64);
    let r = u.train(&vec![vec![1i64, 2]], &vec![250i64], 1).unwrap();
    assert_eq!(r.errors, vec![250]);
    assert_eq!(u.weights(), &vec![2, 4]);
    assert_eq!(u.bias(), 4);

    let mut v = LinearUnit::new(vec![0i64, 0], 0i64);
    v.train(&vec![vec![1i64, 2]], &vec![-250i64], 1).unwrap();
    assert_eq!(v.weights(), &vec![-2, -4]);
    assert_eq!(v.bias(), -4);
}

#[test]
fn one_float_step_follows_the_rule() {
    let mut u = LinearUnit::new(fv(&[0.0, 0.0]), F(0.0));
    let r = u.train(&vec![fv(&[1.0, 2.0])], &fv(&[3.0]), 1).unwrap();
    assert_eq!(r.errors, fv(&[3.0]));
    let c = 3.0 * 0.01;
    assert_eq!(u.weights(), &fv(&[c * 1.0, c * 2.0]));
    assert_eq!(u.bias(), F(c + c));
}

#[test]
fn mismatched_target_count_is_refused() {
    let mut u = LinearUnit::new(fv(&[0.5, 0.5]), F(0.5));
    let xs = vec![fv(&[1.0, 2.0]), fv(&[4.0, 5.0])];
    assert!(matches!(u.fit(&xs, &fv(&[3.0]), 10), Err(UnitError::InvalidTargetCount)));
    assert!(matches!(u.train(&xs, &fv(&[3.0, 6.0, 9.0]), 10), Err(UnitError::InvalidTargetCount)));
    assert_eq!(u.weights(), &fv(&[0.5, 0.5]));
    assert_eq!(u.bias(), F(0.5));
}

#[test]
fn example_of_wrong_length_is_refused() {
    let mut u = LinearUnit::new(fv(&[0.5, 0.5]), F(0.5));
    let xs = vec![fv(&[1.0, 2.0]), fv(&[4.0, 5.0, 6.0])];
    assert!(matches!(u.fit(&xs, &fv(&[3.0, 6.0]), 10), Err(UnitError::InvalidInputLength)));
    assert_eq!(u.weights(), &fv(&[0.5, 0.5]));
    assert_eq!(u.bias(), F(0.5));
}

#[test]
fn fit_learns_the_progression() {
    let (xs, ts) = progression_set();
    let mut u = LinearUnit::new(fv(&[0.0, 0.0]), F(0.0));
    u.fit(&xs, &ts, 1100).unwrap();
    let p = u.predict(&fv(&[8.0, 16.0])).unwrap().0;
    assert!((p - 24.0).abs() < 0.01, "prediction {p}");
}

#[test]
fn fit_on_three_pairs_reproduces_them() {
    let xs = vec![fv(&[1.0, 2.0]), fv(&[4.0, 5.0]), fv(&[9.0, 10.0])];
    let ts = fv(&[3.0, 6.0, 11.0]);
    let mut u = LinearUnit::new(fv(&[0.0, 0.0]), F(0.0));
    u.fit(&xs, &ts, 1100).unwrap();
    for (x, t) in xs.iter().zip(&ts) {
        let p = u.predict(x).unwrap().0;
        assert!((p - t.0).abs() < 0.01, "prediction {p} for target {}", t.0);
    }
}

#[test]
fn fit_keeps_the_dimension() {
    let mut u = LinearUnit::new(vec![0i64, 0, 0], 0i64);
    let r = u.fit(&vec![vec![1i64, 2, 3]], &vec![6i64], 3).unwrap();
    assert_eq!(u.dim(), 3);
    assert!(!r.errors.is_empty() && r.errors.len() <= 3);
}

#[test]
fn tab_moves_focus() {
    assert_eq!(focus_after_tab(false), Focus::Next);
    assert_eq!(focus_after_tab(true), Focus::Previous);
}

#[test]
fn unparsable_field_counts_as_zero() {
    assert_eq!(field_or_zero(None::<F>), F(0.0));
    assert_eq!(field_or_zero(Some(F(2.5))), F(2.5));
    assert_eq!(field_or_zero(None::<i64>), 0);
}

#[test]
fn a_line_needs_exactly_two_numbers() {
    assert_eq!(two_numbers(&vec![Some(1i64), Some(2)]), Ok(vec![1, 2]));
    assert_eq!(two_numbers(&vec![Some(1i64)]), Err(LineError::WrongCount));
    assert_eq!(two_numbers(&vec![Some(1i64), Some(2), Some(3)]), Err(LineError::WrongCount));
    assert_eq!(two_numbers::<i64>(&vec![]), Err(LineError::WrongCount));
    assert_eq!(two_numbers(&vec![Some(1i64), None, Some(3)]), Err(LineError::NotANumber));
    assert_eq!(two_numbers(&vec![Some(1i64), None]), Err(LineError::NotANumber));
}

#[test]
fn title_shows_zero_for_empty_fields() {
    assert_eq!(window_title("", "", ""), "0, 0, 0");
    assert_eq!(window_title("4", "", "12"), "4, 0, 12");
    assert_eq!(window_title("1.5", "2", "3"), "1.5, 2, 3");
}

#[test]
fn integer_prediction_is_linear() {
    let u = LinearUnit::new(vec![3i64, -2, 5], 7i64);
    let x = vec![1i64, 2, 3];
    let y = vec![-4i64, 0, 9];
    let (a, b) = (6i64, -5i64);
    let z: Vec<i64> = x.iter().zip(&y).map(|(&xi, &yi)| a * xi + b * yi).collect();
    let fx = u.predict(&x).unwrap();
    let fy = u.predict(&y).unwrap();
    let fz = u.predict(&z).unwrap();
    assert_eq!(fz, a * fx + b * fy - (a + b - 1) * 7);
    assert_eq!(fz, 7 + 3 * 26 - 2 * 12 + 5 * -27);
}

#[test]
fn integer_prediction_is_linear_under_wrapping() {
    let u = LinearUnit::new(vec![i64::MAX, 3], -11i64);
    let x = vec![5i64, i64::MIN + 7];
    let y = vec![-9i64, 12];
    let (a, b) = (i64::MAX - 2, 3i64);
    let z: Vec<i64> = x
        .iter()
        .zip(&y)
        .map(|(&xi, &yi)| a.wrapping_mul(xi).wrapping_add(b.wrapping_mul(yi)))
        .collect();
    let fx = u.predict(&x).unwrap();
    let fy = u.predict(&y).unwrap();
    let fz = u.predict(&z).unwrap();
    let expected = a
        .wrapping_mul(fx)
        .wrapping_add(b.wrapping_mul(fy))
        .wrapping_sub(a.wrapping_add(b).wrapping_sub(1).wrapping_mul(-11));
    assert_eq!(fz, expected);
}
