use fourier::{add_vv, dft, fft, idft, ifft, mul_mv, mul_vv_el, TransformError};
use num::complex::{Complex, Complex64};
use rand::Rng;

fn lift(values: &[f64]) -> Vec<Complex64> {
    values.iter().map(|&v| Complex::new(v, 0.0)).collect()
}

fn random_values(n: usize) -> Vec<f64> {
    rand::thread_rng()
        .sample_iter(rand::distributions::Standard)
        .take(n)
        .collect()
}

#[test]
fn test_dft_simple_values() {
    let values: Vec<f64> = vec![0.2, 0.2, 0.3, 0.4, 0.5, 0.6, 0.7, 0.8];
    let r = dft(&lift(&values));
    assert_eq!(r.len(), 8);

    assert_eq!(format!("{:.2}", r[0]), "3.70+0.00i");
    assert_eq!(format!("{:.2}", r[1]), "-0.30-0.97i");
    assert_eq!(format!("{:.2}", r[2]), "-0.30-0.40i");
    assert_eq!(format!("{:.2}", r[3]), "-0.30-0.17i");
    assert_eq!(format!("{:.2}", r[4]), "-0.30+0.00i");

    // expect result similar to initial values
    let o = idft(&r);
    assert_eq!(format!("{:.1}", o[0].re), "0.2");
    assert_eq!(format!("{:.1}", o[1].re), "0.2");
    assert_eq!(format!("{:.1}", o[2].re), "0.3");
    assert_eq!(format!("{:.1}", o[3].re), "0.4");
    assert_eq!(format!("{:.1}", o[4].re), "0.5");
    assert_eq!(format!("{:.1}", o[5].re), "0.6");
    assert_eq!(format!("{:.1}", o[6].re), "0.7");
    assert_eq!(format!("{:.1}", o[7].re), "0.8");
}

#[test]
fn test_fft_simple_values() {
    let values: Vec<f64> = vec![0.2, 0.2, 0.3, 0.4, 0.5, 0.6, 0.7, 0.8];
    let r = fft(&lift(&values)).unwrap();

    assert_eq!(r.len(), 8);

    assert_eq!(format!("{:.2}", r[0]), "3.70+0.00i");
    assert_eq!(format!("{:.2}", r[1]), "-0.30-0.97i");
    assert_eq!(format!("{:.2}", r[2]), "-0.30-0.40i");
    assert_eq!(format!("{:.2}", r[3]), "-0.30-0.17i");
    assert_eq!(format!("{:.2}", r[4]), "-0.30+0.00i");

    // expect result similar to initial values
    let o = ifft(&r).unwrap();
    println!("{:?}", o);
    assert_eq!(format!("{:.1}", o[0].re), "0.2");
    assert_eq!(format!("{:.1}", o[1].re), "0.2");
    assert_eq!(format!("{:.1}", o[2].re), "0.3");
    assert_eq!(format!("{:.1}", o[3].re), "0.4");
    assert_eq!(format!("{:.1}", o[4].re), "0.5");
    assert_eq!(format!("{:.1}", o[5].re), "0.6");
    assert_eq!(format!("{:.1}", o[6].re), "0.7");
    assert_eq!(format!("{:.1}", o[7].re), "0.8");
}

#[test]
fn test_dft_random_values() {
    let values: Vec<f64> = random_values(1024);
    let r = dft(&lift(&values));
    println!("{:?}", r.len());
    let o = idft(&r);
    assert_eq!(o.len(), 1024);
}

#[test]
fn test_fft_random_values() {
    let values: Vec<f64> = random_values(1024);
    let r = fft(&lift(&values)).unwrap();
    println!("{:?}", r.len());
    let o = ifft(&r).unwrap();
    assert_eq!(o.len(), 1024);
}

#[test]
fn test_output_lengths_match_input() {
    for n in [1usize, 2, 3, 5, 7, 12] {
        let x = lift(&random_values(n));
        assert_eq!(dft(&x).len(), n);
        assert_eq!(idft(&x).len(), n);
    }
    for n in [1usize, 2, 4, 8, 16, 32] {
        let x = lift(&random_values(n));
        assert_eq!(fft(&x).unwrap().len(), n);
        assert_eq!(ifft(&x).unwrap().len(), n);
    }
}

#[test]
fn test_dft_roundtrip_any_length() {
    for n in [1usize, 2, 3, 5, 6, 7, 11, 16] {
        let values = random_values(n);
        let o = idft(&dft(&lift(&values)));
        for i in 0..n {
            assert!((o[i].re - values[i]).abs() < 0.1);
            assert_eq!(o[i].im, 0.0);
        }
    }
}

#[test]
fn test_fft_roundtrip_power_of_two() {
    for n in [1usize, 2, 4, 8, 16, 64, 256] {
        let values = random_values(n);
        let o = ifft(&fft(&lift(&values)).unwrap()).unwrap();
        for i in 0..n {
            assert!((o[i].re - values[i]).abs() < 0.1);
            assert_eq!(o[i].im, 0.0);
        }
    }
}

#[test]
fn test_fft_matches_dft_per_recursion_size() {
    // the combine step checked against the naive engine on every
    // recursion size
    for n in [2usize, 4, 8, 16, 32] {
        let x = lift(&random_values(n));
        let d = dft(&x);
        let f = fft(&x).unwrap();
        for i in 0..n {
            assert!((d[i].re - f[i].re).abs() < 0.01);
            assert!((d[i].im - f[i].im).abs() < 0.01);
        }
    }
}

#[test]
fn test_ifft_matches_idft_power_of_two() {
    for n in [4usize, 8, 16, 32] {
        let x: Vec<Complex64> = random_values(n)
            .iter()
            .zip(random_values(n).iter())
            .map(|(&a, &b)| Complex::new(a, b))
            .collect();
        let di = idft(&x);
        let fi = ifft(&x).unwrap();
        for i in 0..n {
            assert!((di[i].re - fi[i].re).abs() < 0.01);
            assert_eq!(di[i].im, 0.0);
            assert_eq!(fi[i].im, 0.0);
        }
    }
}

#[test]
fn test_base_case_fft_equals_dft_exactly() {
    for n in [1usize, 2] {
        let x = lift(&random_values(n));
        assert_eq!(fft(&x).unwrap(), dft(&x));
        let c: Vec<Complex64> = random_values(n)
            .iter()
            .map(|&v| Complex::new(v, -v))
            .collect();
        assert_eq!(ifft(&c).unwrap(), idft(&c));
    }
}

#[test]
fn test_fft_rejects_non_power_of_two() {
    for n in [3usize, 5, 6, 7, 9, 12, 1000] {
        let x = lift(&random_values(n));
        assert_eq!(fft(&x), Err(TransformError::InvalidTransformSize));
        assert_eq!(ifft(&x), Err(TransformError::InvalidTransformSize));
    }
}

#[test]
fn test_fft_roundtrip_many_random_1024() {
    for _ in 0..1000 {
        let values = random_values(1024);
        let o = ifft(&fft(&lift(&values)).unwrap()).unwrap();
        for i in 0..1024 {
            assert!((o[i].re - values[i]).abs() < 0.1);
        }
    }
}

#[test]
fn test_dft_roundtrip_many_random_short() {
    // the naive engine is quadratic, so the bulk of the random round-trip
    // runs at a short length; a few long sequences run separately below
    for _ in 0..1000 {
        let values = random_values(16);
        let o = idft(&dft(&lift(&values)));
        for i in 0..16 {
            assert!((o[i].re - values[i]).abs() < 0.1);
        }
    }
}

#[test]
fn test_dft_roundtrip_random_1024() {
    for _ in 0..3 {
        let values = random_values(1024);
        let o = idft(&dft(&lift(&values)));
        for i in 0..1024 {
            assert!((o[i].re - values[i]).abs() < 0.1);
        }
    }
}

#[test]
fn test_dft_of_unit_impulse() {
    // the transform of [1, 0, 0, 0] is flat: every coefficient 1
    let x = lift(&[1.0, 0.0, 0.0, 0.0]);
    let r = dft(&x);
    for i in 0..4 {
        assert!((r[i].re - 1.0).abs() < 1e-9);
        assert!(r[i].im.abs() < 1e-9);
    }
}

#[test]
fn test_dft_ignores_imaginary_input_parts() {
    let a = lift(&[0.5, -1.25, 2.0]);
    let b: Vec<Complex64> = a.iter().map(|c| Complex::new(c.re, 42.0)).collect();
    assert_eq!(dft(&a), dft(&b));
    let p = lift(&[0.5, -1.25, 2.0, 3.5]);
    let q: Vec<Complex64> = p.iter().map(|c| Complex::new(c.re, -7.0)).collect();
    assert_eq!(fft(&p).unwrap(), fft(&q).unwrap());
}

#[test]
fn test_vector_ops_reject_mismatched_lengths() {
    let a = lift(&[1.0, 2.0]);
    let b = lift(&[1.0, 2.0, 3.0]);
    assert_eq!(add_vv(&a, &b), Err(TransformError::DimensionMismatch));
    assert_eq!(mul_vv_el(&b, &a), Err(TransformError::DimensionMismatch));
    let m = vec![lift(&[1.0, 2.0]), lift(&[3.0, 4.0])];
    assert_eq!(mul_mv(&m, &b), Err(TransformError::DimensionMismatch));
    let ragged = vec![lift(&[1.0, 2.0]), lift(&[3.0])];
    assert_eq!(mul_mv(&ragged, &a), Err(TransformError::DimensionMismatch));
    let empty: Vec<Vec<Complex64>> = Vec::new();
    let no_values: Vec<Complex64> = Vec::new();
    assert_eq!(mul_mv(&empty, &no_values), Err(TransformError::DimensionMismatch));
}

#[test]
fn test_vector_ops_elementwise_values() {
    let a = lift(&[1.0, 2.0]);
    let b: Vec<Complex64> = vec![Complex::new(3.0, 1.0), Complex::new(-1.0, 2.0)];
    let s = add_vv(&a, &b).unwrap();
    assert_eq!(s, vec![Complex::new(4.0, 1.0), Complex::new(1.0, 2.0)]);
    let p = mul_vv_el(&a, &b).unwrap();
    assert_eq!(p, vec![Complex::new(3.0, 1.0), Complex::new(-2.0, 4.0)]);
    let m = vec![b.clone(), a.clone()];
    let mv = mul_mv(&m, &a).unwrap();
    // row 0: 1*(3+i) + 2*(-1+2i) = 1 + 5i; row 1: 1*1 + 2*2 = 5
    assert_eq!(mv, vec![Complex::new(1.0, 5.0), Complex::new(5.0, 0.0)]);
}
