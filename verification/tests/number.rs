use dolang::number::Num;

fn num(x: f64) -> Num {
    Num::from_bits(x.to_bits())
}

fn samples() -> Vec<f64> {
    vec![
        0.0,
        -0.0,
        1.0,
        -1.0,
        0.5,
        -0.5,
        1.5,
        2.0,
        3.999,
        1e-310,
        -1e-310,
        f64::MIN_POSITIVE,
        255.0,
        4294967295.0,
        4294967296.5,
        9007199254740991.0,
        9007199254740992.0,
        1.8446744073709552e19,
        1.8446744073709550e19,
        1e300,
        -1e300,
        f64::MAX,
        f64::MIN,
        f64::INFINITY,
        f64::NEG_INFINITY,
        f64::NAN,
        -f64::NAN,
    ]
}

#[test]
fn comparisons_are_those_of_the_numbers() {
    for a in samples() {
        for b in samples() {
            assert_eq!(num(a).equals(num(b)), a == b, "{} == {}", a, b);
            assert_eq!(num(a).less(num(b)), a < b, "{} < {}", a, b);
            assert_eq!(num(a).at_most(num(b)), a <= b, "{} <= {}", a, b);
        }
    }
}

#[test]
fn tests_on_one_number() {
    for a in samples() {
        assert_eq!(num(a).is_zero(), a == 0.0, "{}", a);
        assert_eq!(num(a).nan(), a.is_nan(), "{}", a);
        assert_eq!(num(a).negated().bits, (-a).to_bits(), "{}", a);
    }
    assert_eq!(Num::zero().bits, 0.0f64.to_bits());
}

#[test]
fn index_of_a_number() {
    for a in samples() {
        assert_eq!(num(a).to_index(), a as usize, "{}", a);
    }
    assert_eq!(num(2.5).to_index(), 2);
    assert_eq!(num(-3.0).to_index(), 0);
    assert_eq!(num(f64::NAN).to_index(), 0);
    assert_eq!(num(1e30).to_index(), usize::MAX);
}

#[test]
fn number_of_an_index() {
    let mut indexes: Vec<usize> = vec![0, 1, 2, 3, 7, 8, 255, 256, 1000, 65535, 4294967295];
    for shift in 0..64 {
        let p = 1usize << shift;
        for n in [p - 1, p, p + 1, p + (p >> 1), p + (p >> 1) + 1, p | (p >> 53), p | (p >> 54)] {
            indexes.push(n);
        }
    }
    indexes.push(usize::MAX);
    indexes.push(usize::MAX - 1023);
    indexes.push(usize::MAX - 1024);
    indexes.push((1usize << 53) + 1);
    indexes.push((1usize << 53) + 2);
    indexes.push((1usize << 53) + 3);
    indexes.push((1usize << 54) + 2);
    indexes.push((1usize << 54) + 6);
    for n in indexes {
        assert_eq!(Num::from_index(n).bits, (n as f64).to_bits(), "{}", n);
        if n < (1usize << 53) {
            assert_eq!(Num::from_index(n).to_index(), n);
        }
    }
}
