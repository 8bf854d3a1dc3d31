//! Numbers by their bit patterns.

use niri_core::measure::Measure;

fn m(x: f64) -> Measure {
    Measure::from_bits(x.to_bits())
}

const SAMPLES: [f64; 15] = [
    0.0,
    -0.0,
    1.0,
    -1.0,
    1.5,
    -1.5,
    400.0,
    -600.25,
    f64::MIN_POSITIVE,
    5e-324,
    -5e-324,
    f64::MAX,
    f64::INFINITY,
    f64::NEG_INFINITY,
    f64::NAN,
];

#[test]
fn comparisons_are_those_of_the_numbers() {
    for a in SAMPLES {
        assert_eq!(m(a).is_nan(), a.is_nan());
        for b in SAMPLES {
            assert_eq!(m(a).at_least(m(b)), a >= b, "{a} >= {b}");
            assert_eq!(m(a).above(m(b)), a > b, "{a} > {b}");
            assert_eq!(m(a).at_most(m(b)), a <= b, "{a} <= {b}");
            assert_eq!(m(a).equals(m(b)), a == b, "{a} == {b}");
        }
    }
}

#[test]
fn signs_are_cleared_and_flipped() {
    for a in SAMPLES {
        assert_eq!(m(a).abs().bits, a.abs().to_bits());
        assert_eq!(m(a).neg().bits, (-a).to_bits());
    }
}

#[test]
fn constants_are_what_they_say() {
    assert_eq!(Measure::zero(), m(0.0));
    assert_eq!(Measure::one(), m(1.0));
}
