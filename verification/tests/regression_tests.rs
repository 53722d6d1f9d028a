use params_estimator::regression::least_squares_method;

#[test]
fn fit_recovers_noise_free_line() {
    // y = 3 + 2x, exactly.
    let xs: Vec<u64> = vec![1, 2, 3];
    let ys: Vec<u64> = vec![5, 7, 9];
    let f = least_squares_method(&xs, &ys).unwrap();
    // n*sum(xx) - sum(x)^2 = 3*14 - 36 = 6; slope = 12/6 = 2; intercept = 18/6 = 3.
    assert_eq!(f.den, 6);
    assert_eq!(f.slope_num, 2 * f.den);
    assert_eq!(f.intercept_num, 3 * f.den);
}

#[test]
fn fit_is_exact_on_sweep_sized_data() {
    // The method-count sweep shape with y = 1000 + 7x.
    let xs: Vec<u64> = vec![5, 20, 30, 50, 100, 200, 1000];
    let ys: Vec<u64> = xs.iter().map(|x| 1000 + 7 * x).collect();
    let f = least_squares_method(&xs, &ys).unwrap();
    assert_eq!(f.slope_num, 7 * f.den);
    assert_eq!(f.intercept_num, 1000 * f.den);
}

#[test]
fn fit_refuses_singular_system() {
    // All sizes equal: no line is determined.
    let xs: Vec<u64> = vec![4, 4, 4];
    let ys: Vec<u64> = vec![1, 2, 3];
    assert!(least_squares_method(&xs, &ys).is_none());
}
