use linear_core::column_at;
use linear_core::column_from_ints;
use linear_core::descent_step;
use linear_core::gradient_descent;
use linear_core::normalize;
use linear_core::LinearRegressionModel;
use linear_core::ModelError;
use linear_core::Scalar;

fn value_of(s: &Scalar) -> f64 {
    s.to_column().f64().unwrap().get(0).unwrap()
}

#[test]
fn scalars_carry_exact_values() {
    let a = Scalar::from_int(6);
    let b = Scalar::from_int(4);
    assert_eq!(value_of(&a.plus(&b)), 10.0);
    assert_eq!(value_of(&a.minus(&b)), 2.0);
    assert_eq!(value_of(&a.times(&b)), 24.0);
    assert_eq!(value_of(&a.over(&b)), 1.5);
    assert_eq!(value_of(&Scalar::ratio(1, 10)), 0.1);
    assert!(b.less_than(&a));
    assert!(!a.less_than(&b));
    assert!(a.equals(&a.duplicate()));
    assert!(!a.equals(&b));
}

#[test]
fn an_untrained_model_is_all_zero() {
    let m = LinearRegressionModel::new_untrained();
    assert_eq!(value_of(&m.slope()), 0.0);
    assert_eq!(value_of(&m.intercept()), 0.0);
}

#[test]
fn a_model_keeps_the_given_parameters() {
    let m = LinearRegressionModel::new(Scalar::from_int(2), Scalar::from_int(3));
    assert_eq!(value_of(&m.slope()), 2.0);
    assert_eq!(value_of(&m.intercept()), 3.0);
    assert_eq!(value_of(&m.predict(&Scalar::from_int(4))), 11.0);
}

#[test]
fn training_rejects_mismatched_columns_and_keeps_the_model() {
    let f = column_from_ints(&vec![1, 2, 3]);
    let t = column_from_ints(&vec![1, 2]);
    let mut m = LinearRegressionModel::new(Scalar::from_int(5), Scalar::from_int(7));
    let res = m.train(&f, &t, &Scalar::ratio(1, 10), 100);
    assert_eq!(res.unwrap_err(), ModelError::ShapeMismatch);
    assert_eq!(value_of(&m.slope()), 5.0);
    assert_eq!(value_of(&m.intercept()), 7.0);
}

#[test]
fn training_rejects_a_non_positive_learning_rate() {
    let f = column_from_ints(&vec![1, 2, 3]);
    let t = column_from_ints(&vec![2, 4, 6]);
    let mut m = LinearRegressionModel::new(Scalar::from_int(5), Scalar::from_int(7));
    let res = m.train(&f, &t, &Scalar::from_int(0), 100);
    assert_eq!(res.unwrap_err(), ModelError::InvalidHyperparameter);
    let res = m.train(&f, &t, &Scalar::from_int(-1), 100);
    assert_eq!(res.unwrap_err(), ModelError::InvalidHyperparameter);
    assert_eq!(value_of(&m.slope()), 5.0);
    assert_eq!(value_of(&m.intercept()), 7.0);
}

#[test]
fn zero_iterations_reset_the_parameters() {
    let f = column_from_ints(&vec![1, 2, 3]);
    let t = column_from_ints(&vec![2, 4, 6]);
    let mut m = LinearRegressionModel::new(Scalar::from_int(5), Scalar::from_int(7));
    m.train(&f, &t, &Scalar::ratio(1, 10), 0).unwrap();
    assert_eq!(value_of(&m.slope()), 0.0);
    assert_eq!(value_of(&m.intercept()), 0.0);
}

#[test]
fn training_is_deterministic() {
    let f = column_from_ints(&vec![10, 25, 31, 47, 52]);
    let t = column_from_ints(&vec![19, 54, 60, 95, 103]);
    let lr = Scalar::ratio(1, 20);
    let mut m1 = LinearRegressionModel::new_untrained();
    let mut m2 = LinearRegressionModel::new(Scalar::from_int(-9), Scalar::from_int(4));
    m1.train(&f, &t, &lr, 250).unwrap();
    m2.train(&f, &t, &lr, 250).unwrap();
    assert_eq!(value_of(&m1.slope()).to_bits(), value_of(&m2.slope()).to_bits());
    assert_eq!(value_of(&m1.intercept()).to_bits(), value_of(&m2.intercept()).to_bits());
}

#[test]
fn training_equals_an_explicit_fold_of_the_step() {
    let f = column_from_ints(&vec![1, 2, 3, 4, 5]);
    let t = column_from_ints(&vec![3, 5, 7, 9, 11]);
    let lr = Scalar::ratio(1, 10);
    let iterations: u64 = 40;

    let mut m = LinearRegressionModel::new_untrained();
    m.train(&f, &t, &lr, iterations).unwrap();

    let fitted = gradient_descent(&f, &t, &lr, iterations);

    let mut folded = (Scalar::from_int(0), Scalar::from_int(0));
    for _ in 0..iterations {
        folded = descent_step(&folded.0, &folded.1, &f, &t, &lr);
    }

    assert_eq!(value_of(&m.slope()).to_bits(), value_of(&fitted.slope()).to_bits());
    assert_eq!(value_of(&m.intercept()).to_bits(), value_of(&fitted.intercept()).to_bits());
    assert_eq!(value_of(&m.slope()).to_bits(), value_of(&folded.0).to_bits());
    assert_eq!(value_of(&m.intercept()).to_bits(), value_of(&folded.1).to_bits());
}

#[test]
fn training_converges_on_an_exact_linear_relation() {
    let feature: Vec<i64> = vec![1, 2, 3, 4, 5];
    let target: Vec<i64> = vec![2, 4, 6, 8, 10];

    let (z_f, _, _) = normalize(&column_from_ints(&feature)).unwrap();
    let (z_t, mean_t, std_t) = normalize(&column_from_ints(&target)).unwrap();

    let mut m = LinearRegressionModel::new_untrained();
    m.train(&z_f, &z_t, &Scalar::ratio(1, 10), 1000).unwrap();

    let m_t = value_of(&mean_t);
    let s_t = value_of(&std_t);
    for i in 0..feature.len() {
        let x = column_at(&z_f, i);
        let z_pred = value_of(&m.predict(&x));
        let denormalized = z_pred * s_t + m_t;
        assert!((denormalized - target[i] as f64).abs() < 0.05);
    }
}
