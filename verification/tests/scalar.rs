use weekend::scalar::Scalar;

fn num(x: f64) -> Scalar {
    Scalar::from_bits(x.to_bits())
}

fn samples() -> Vec<f64> {
    vec![
        0.0,
        -0.0,
        f64::from_bits(1),
        -f64::from_bits(1),
        f64::from_bits(0x000f_ffff_ffff_ffff),
        f64::MIN_POSITIVE,
        -f64::MIN_POSITIVE,
        1.0e-300,
        0.1,
        0.5,
        0.999,
        1.0,
        -1.0,
        1.0 + f64::EPSILON,
        1.5,
        2.0,
        -2.0,
        3.0,
        4.0,
        127.9995,
        254.999,
        255.0,
        255.999,
        256.0,
        -255.999,
        1.0e10,
        -1.0e10,
        1.0e300,
        f64::MAX,
        f64::MIN,
        f64::INFINITY,
        f64::NEG_INFINITY,
        f64::NAN,
        -f64::NAN,
        f64::from_bits(0x7ff0_0000_0000_0001),
        f64::from_bits(0xffff_ffff_ffff_ffff),
    ]
}

#[test]
fn bits_round_trip() {
    for x in samples() {
        assert_eq!(num(x).to_bits(), x.to_bits());
    }
    assert_eq!(Scalar::from_bits(0x4000_0000_0000_0000).to_bits(), 2.0f64.to_bits());
}

#[test]
fn is_nan_agrees_with_the_hardware() {
    for x in samples() {
        assert_eq!(num(x).is_nan(), x.is_nan(), "{:?}", x);
    }
}

#[test]
fn less_than_agrees_with_the_hardware() {
    for a in samples() {
        for b in samples() {
            assert_eq!(num(a).lt(num(b)), a < b, "{:?} < {:?}", a, b);
        }
    }
}

#[test]
fn equality_agrees_with_the_hardware() {
    for a in samples() {
        for b in samples() {
            assert_eq!(num(a) == num(b), a == b, "{:?} == {:?}", a, b);
        }
    }
}

#[test]
fn equality_is_of_numbers_not_of_patterns() {
    assert!(num(0.0) == num(-0.0));
    assert!(num(f64::NAN) != num(f64::NAN));
    assert!(num(1.0) != num(-1.0));
    assert!(num(1.0) == num(1.0));
}

#[test]
fn negation_agrees_with_the_hardware() {
    for x in samples() {
        assert_eq!((-num(x)).to_bits(), (-x).to_bits(), "{:?}", x);
    }
    assert_eq!((-num(0.0)).to_bits(), 0x8000_0000_0000_0000);
    assert_eq!((-num(-2.0)).to_bits(), 2.0f64.to_bits());
}

#[test]
fn negation_twice_gives_the_pattern_back() {
    for x in samples() {
        assert_eq!((-(-num(x))).to_bits(), x.to_bits());
    }
}

#[test]
fn strictly_between_leaves_the_bounds_out() {
    assert!(num(2.0).is_strictly_between(num(0.0), num(f64::INFINITY)));
    assert!(!num(2.0).is_strictly_between(num(2.0), num(4.0)));
    assert!(!num(4.0).is_strictly_between(num(2.0), num(4.0)));
    assert!(num(3.0).is_strictly_between(num(2.0), num(4.0)));
    assert!(!num(2.0).is_strictly_between(num(3.0), num(f64::INFINITY)));
    assert!(!num(f64::INFINITY).is_strictly_between(num(0.0), num(f64::INFINITY)));
    assert!(!num(f64::NAN).is_strictly_between(num(0.0), num(f64::INFINITY)));
    assert!(!num(1.0).is_strictly_between(num(f64::NAN), num(2.0)));
    assert!(!num(1.0).is_strictly_between(num(0.0), num(f64::NAN)));
    assert!(num(-0.5).is_strictly_between(num(-1.0), num(-0.0)));
}

#[test]
fn strictly_between_agrees_with_the_hardware() {
    for t in samples() {
        for lo in samples() {
            for hi in samples() {
                assert_eq!(num(t).is_strictly_between(num(lo), num(hi)), lo < t && t < hi);
            }
        }
    }
}

#[test]
fn max_zero_agrees_with_the_hardware() {
    for x in samples() {
        let got = f64::from_bits(num(x).max_zero().to_bits());
        let want = f64::max(0.0, x);
        assert!(got == want, "{:?}: {:?} against {:?}", x, got, want);
        assert!(!got.is_sign_negative());
    }
}

#[test]
fn max_zero_on_chosen_values() {
    assert_eq!(num(1.0).max_zero().to_bits(), 1.0f64.to_bits());
    assert_eq!(num(-1.0).max_zero().to_bits(), 0);
    assert_eq!(num(-0.0).max_zero().to_bits(), 0);
    assert_eq!(num(f64::NAN).max_zero().to_bits(), 0);
    assert_eq!(num(f64::NEG_INFINITY).max_zero().to_bits(), 0);
    assert_eq!(num(f64::INFINITY).max_zero().to_bits(), f64::INFINITY.to_bits());
    assert_eq!(num(f64::from_bits(1)).max_zero().to_bits(), 1);
}

#[test]
fn to_u8_agrees_with_the_hardware() {
    for x in samples() {
        assert_eq!(num(x).to_u8(), x as u8, "{:?}", x);
    }
    let mut x = -2.0f64;
    while x < 260.0 {
        assert_eq!(num(x).to_u8(), x as u8, "{:?}", x);
        x += 0.0625;
    }
    let mut i = 0u32;
    while i <= 1000 {
        let c = 255.999 * (i as f64 / 1000.0);
        assert_eq!(num(c).to_u8(), c as u8, "{:?}", c);
        i += 1;
    }
}

#[test]
fn to_u8_on_chosen_values() {
    assert_eq!(num(0.0).to_u8(), 0);
    assert_eq!(num(0.999).to_u8(), 0);
    assert_eq!(num(1.0).to_u8(), 1);
    assert_eq!(num(127.9995).to_u8(), 127);
    assert_eq!(num(255.0).to_u8(), 255);
    assert_eq!(num(255.999).to_u8(), 255);
    assert_eq!(num(256.0).to_u8(), 255);
    assert_eq!(num(1.0e300).to_u8(), 255);
    assert_eq!(num(f64::INFINITY).to_u8(), 255);
    assert_eq!(num(-0.5).to_u8(), 0);
    assert_eq!(num(-3.0).to_u8(), 0);
    assert_eq!(num(f64::NEG_INFINITY).to_u8(), 0);
    assert_eq!(num(f64::NAN).to_u8(), 0);
}

fn next_pattern(state: &mut u64) -> u64 {
    let mut x = *state;
    x ^= x << 13;
    x ^= x >> 7;
    x ^= x << 17;
    *state = x;
    x
}

#[test]
fn many_patterns_agree_with_the_hardware() {
    let mut state = 0x9e37_79b9_7f4a_7c15u64;
    let mut i = 0u32;
    while i < 200_000 {
        let a_bits = next_pattern(&mut state);
        let b_bits = next_pattern(&mut state);
        let c_bits = next_pattern(&mut state);
        let (a, b, c) = (f64::from_bits(a_bits), f64::from_bits(b_bits), f64::from_bits(c_bits));
        let (sa, sb, sc) = (Scalar::from_bits(a_bits), Scalar::from_bits(b_bits), Scalar::from_bits(c_bits));
        assert_eq!(sa.is_nan(), a.is_nan());
        assert_eq!(sa.lt(sb), a < b);
        assert_eq!(sa == sb, a == b);
        assert_eq!(sa.is_strictly_between(sb, sc), b < a && a < c);
        assert_eq!(sa.to_u8(), a as u8);
        assert_eq!((-sa).to_bits(), (-a).to_bits());
        assert!(f64::from_bits(sa.max_zero().to_bits()) == f64::max(0.0, a));
        i += 1;
    }
}

#[test]
fn patterns_near_each_other_agree_with_the_hardware() {
    let anchors = [
        0u64,
        0x000f_ffff_ffff_ffff,
        0x0010_0000_0000_0000,
        0x3ff0_0000_0000_0000,
        0x406f_e000_0000_0000,
        0x4070_0000_0000_0000,
        0x7fef_ffff_ffff_ffff,
        0x7ff0_0000_0000_0000,
        0x8000_0000_0000_0000,
        0xfff0_0000_0000_0000,
    ];
    for anchor in anchors {
        let mut d = 0u64;
        while d < 4 {
            let mut e = 0u64;
            while e < 4 {
                let a_bits = anchor.wrapping_add(d).wrapping_sub(2);
                let b_bits = anchor.wrapping_add(e).wrapping_sub(2);
                let (a, b) = (f64::from_bits(a_bits), f64::from_bits(b_bits));
                let (sa, sb) = (Scalar::from_bits(a_bits), Scalar::from_bits(b_bits));
                assert_eq!(sa.lt(sb), a < b, "{:x} {:x}", a_bits, b_bits);
                assert_eq!(sa == sb, a == b, "{:x} {:x}", a_bits, b_bits);
                assert_eq!(sa.to_u8(), a as u8, "{:x}", a_bits);
                e += 1;
            }
            d += 1;
        }
    }
}
