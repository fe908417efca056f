//! Agreement with a reference libm implementation on random samples, in the
//! manner of a comparison harness: standard-normal doubles for the
//! decomposition, and bounded integer shifts for the recomposition.

use fexp::{bits32, bits64};
use peroxide::fuga::{Normal, Uniform, RNG};

#[test]
fn oracle_frexp_agrees_on_standard_normal_samples() {
    let n = Normal(0f64, 1f64);
    let x_vec = n.sample(1000);
    for &x in x_vec.iter() {
        let (m1, e1) = libm::frexp(x);
        let (m2, e2) = bits64::frexp_bits(x.to_bits());
        assert_eq!(m1.to_bits(), m2, "mantissa disagrees for {}", x);
        assert_eq!(e1, e2, "exponent disagrees for {}", x);
    }
}

#[test]
fn oracle_ldexp_agrees_on_bounded_shifts() {
    let n = Normal(0f64, 1f64);
    let x_vec = n.sample(1000);
    let u = Uniform(0i32, 10i32);
    let i_vec = u.sample(1000);
    for (&x, &i) in x_vec.iter().zip(i_vec.iter()) {
        let k: i32 = i as i32;
        let r1 = libm::ldexp(x, k);
        let r2 = bits64::ldexp_bits(x.to_bits(), k);
        assert_eq!(r1.to_bits(), r2, "scaling disagrees for {} * 2^{}", x, k);
    }
}

#[test]
fn oracle_frexpf_agrees_on_standard_normal_samples() {
    let n = Normal(0f64, 1f64);
    let x_vec = n.sample(1000);
    for &x in x_vec.iter() {
        let xf: f32 = x as f32;
        let (m1, e1) = libm::frexpf(xf);
        let (m2, e2) = bits32::frexp_bits(xf.to_bits());
        assert_eq!(m1.to_bits(), m2, "mantissa disagrees for {}", xf);
        assert_eq!(e1, e2, "exponent disagrees for {}", xf);
    }
}

#[test]
fn oracle_ldexpf_agrees_on_bounded_shifts() {
    let n = Normal(0f64, 1f64);
    let x_vec = n.sample(1000);
    let u = Uniform(0i32, 10i32);
    let i_vec = u.sample(1000);
    for (&x, &i) in x_vec.iter().zip(i_vec.iter()) {
        let xf: f32 = x as f32;
        let k: i32 = i as i32;
        let r1 = libm::ldexpf(xf, k);
        let r2 = bits32::ldexp_bits(xf.to_bits(), k);
        assert_eq!(r1.to_bits(), r2, "scaling disagrees for {} * 2^{}", xf, k);
    }
}
