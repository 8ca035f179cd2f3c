use linear_core::column_from_ints;
use linear_core::normalize;
use linear_core::ModelError;
use linear_core::Scalar;
use polars::prelude::Series;

fn scalar_value(s: &Scalar) -> f64 {
    s.to_column().f64().unwrap().get(0).unwrap()
}

fn column_values(s: &Series) -> Vec<f64> {
    let ca = s.f64().unwrap();
    let mut out: Vec<f64> = Vec::new();
    for i in 0..ca.len() {
        out.push(ca.get(i).unwrap());
    }
    out
}

fn sample_mean(v: &[f64]) -> f64 {
    v.iter().sum::<f64>() / v.len() as f64
}

fn sample_std(v: &[f64]) -> f64 {
    let m = sample_mean(v);
    (v.iter().map(|x| (x - m) * (x - m)).sum::<f64>() / (v.len() as f64 - 1.0)).sqrt()
}

fn round2(x: f64) -> f64 {
    (x * 100.0).round() / 100.0
}

#[test]
fn test_z_normalize_dataframe() {
    let km: Vec<i64> = vec![240000, 139800, 150500, 185530, 176000, 114800, 166800, 89000, 144500];
    let price: Vec<i64> = vec![3650, 3800, 4400, 4450, 5250, 5350, 5800, 5990, 5999];

    let (z_price, _, _) = normalize(&column_from_ints(&price)).unwrap();
    let (z_km, _, _) = normalize(&column_from_ints(&km)).unwrap();

    let zp = column_values(&z_price);
    let zk = column_values(&z_km);
    assert_eq!(round2(sample_mean(&zp)), 0.0);
    assert_eq!(round2(sample_std(&zp)), 1.0);
    assert_eq!(round2(sample_mean(&zk)), 0.0);
    assert_eq!(round2(sample_std(&zk)), 1.0);
}

#[test]
fn normalized_output_has_zero_mean_and_unit_variance() {
    let data: Vec<i64> = vec![3, 8, 21, 34, 55, 89, 144];
    let (z, _, _) = normalize(&column_from_ints(&data)).unwrap();
    let zv = column_values(&z);
    assert_eq!(zv.len(), data.len());
    assert!(sample_mean(&zv).abs() < 1e-9);
    assert!((sample_std(&zv) - 1.0).abs() < 1e-9);
}

#[test]
fn normalization_statistics_are_the_mean_and_sample_std() {
    let data: Vec<i64> = vec![1, 2, 3, 4, 5];
    let (_, mean, std) = normalize(&column_from_ints(&data)).unwrap();
    assert_eq!(scalar_value(&mean), 3.0);
    let expected_std = (10.0f64 / 4.0).sqrt();
    assert!((scalar_value(&std) - expected_std).abs() < 1e-12);
}

#[test]
fn normalization_round_trips_through_the_statistics() {
    let data: Vec<i64> = vec![240000, 139800, 150500, 185530, 176000, 114800, 166800, 89000];
    let raw = column_values(&column_from_ints(&data));
    let (z, mean, std) = normalize(&column_from_ints(&data)).unwrap();
    let m = scalar_value(&mean);
    let sd = scalar_value(&std);
    let zv = column_values(&z);
    for i in 0..raw.len() {
        assert!((zv[i] * sd + m - raw[i]).abs() <= 1e-9 * raw[i].abs());
    }
}

#[test]
fn normalize_rejects_a_single_sample() {
    let data: Vec<i64> = vec![5];
    let res = normalize(&column_from_ints(&data));
    assert_eq!(res.unwrap_err(), ModelError::DegenerateInput);
}

#[test]
fn normalize_rejects_a_constant_column() {
    let data: Vec<i64> = vec![3, 3, 3];
    let res = normalize(&column_from_ints(&data));
    assert_eq!(res.unwrap_err(), ModelError::DegenerateInput);
}

#[test]
fn normalize_rejects_an_empty_column() {
    let data: Vec<i64> = vec![];
    let res = normalize(&column_from_ints(&data));
    assert_eq!(res.unwrap_err(), ModelError::DegenerateInput);
}

#[test]
fn columns_hold_the_converted_integers() {
    let data: Vec<i64> = vec![-7, 0, 42];
    let got = column_values(&column_from_ints(&data));
    assert_eq!(got, vec![-7.0, 0.0, 42.0]);
}
