use fexp::bits64::{frexp_bits, ldexp_bits};

fn frexp(x: f64) -> (f64, i32) {
    let (m, e) = frexp_bits(x.to_bits());
    (f64::from_bits(m), e)
}

#[test]
fn frexp_zero_returns_zero_pair() {
    let (m, e) = frexp(0.0);
    assert_eq!(m.to_bits(), 0u64);
    assert_eq!(e, 0);
}

#[test]
fn frexp_negative_zero_returns_positive_zero_pair() {
    let (m, e) = frexp(-0.0);
    assert_eq!(m.to_bits(), 0u64);
    assert_eq!(e, 0);
}

#[test]
fn frexp_exact_values() {
    assert_eq!(frexp(8.0), (0.5, 4));
    assert_eq!(frexp(1.0), (0.5, 1));
    assert_eq!(frexp(0.5), (0.5, 0));
    assert_eq!(frexp(-3.0), (-0.75, 2));
    assert_eq!(frexp(96.0), (0.75, 7));
}

#[test]
fn frexp_mantissa_magnitude_in_half_one() {
    let xs: [f64; 10] = [
        1.0,
        -1.0,
        3.141592653589793,
        -0.001953125,
        1.0e300,
        -5.0e-300,
        123456789.0,
        f64::MAX,
        f64::MIN_POSITIVE,
        -f64::MAX,
    ];
    for &x in xs.iter() {
        let (m, _) = frexp(x);
        assert!(0.5 <= m.abs() && m.abs() < 1.0, "mantissa out of range for {}", x);
    }
}

#[test]
fn frexp_ldexp_round_trip_bit_for_bit() {
    let xs: [f64; 10] = [
        1.0,
        -1.0,
        2.718281828459045,
        -0.001953125,
        1.0e300,
        -5.0e-300,
        987654321.0,
        f64::MAX,
        f64::MIN_POSITIVE,
        -f64::MIN_POSITIVE,
    ];
    for &x in xs.iter() {
        let (m, e) = frexp_bits(x.to_bits());
        assert_eq!(ldexp_bits(m, e), x.to_bits(), "round trip failed for {}", x);
    }
}
