use nowhear::number::Real64;

fn level(x: f64) -> Real64 {
    Real64::from_bits(x.to_bits())
}

#[test]
fn equality_follows_the_floating_point_rules() {
    let samples = [
        0.0,
        -0.0,
        1.0,
        -1.0,
        0.5,
        f64::MIN_POSITIVE,
        f64::MAX,
        f64::INFINITY,
        f64::NEG_INFINITY,
        f64::NAN,
        -f64::NAN,
    ];
    for a in samples {
        for b in samples {
            assert_eq!(level(a) == level(b), a == b, "{a} and {b}");
        }
    }
}

#[test]
fn nan_is_told_apart() {
    assert!(level(f64::NAN).is_nan());
    assert!(Real64::from_bits(0x7ff0_0000_0000_0001).is_nan());
    assert!(!level(f64::INFINITY).is_nan());
    assert!(!level(0.8).is_nan());
}

#[test]
fn bits_are_kept() {
    assert_eq!(Real64::from_bits(0x3fe0_0000_0000_0000).bits, 0x3fe0_0000_0000_0000);
    assert_eq!(f64::from_bits(level(0.42).bits), 0.42);
}
