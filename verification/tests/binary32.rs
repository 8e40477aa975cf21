use urbanite::binary32::{clamp, le, lt, nan, rank_of, INFINITY, ONE, SIGN_BIT, ZERO};

fn samples() -> Vec<f32> {
    vec![
        0.0,
        -0.0,
        1.0,
        -1.0,
        0.8,
        -0.8,
        6.5,
        20.0,
        0.01,
        0.1,
        1.0e-40,
        -1.0e-40,
        f32::MIN_POSITIVE,
        f32::EPSILON,
        3.4e38,
        -3.4e38,
        f32::MAX,
        f32::MIN,
        f32::INFINITY,
        f32::NEG_INFINITY,
        f32::NAN,
        -f32::NAN,
        f32::from_bits(0x7F80_0001),
        f32::from_bits(0xFFFF_FFFF),
    ]
}

#[test]
fn number_constants_are_the_encodings_they_name() {
    assert_eq!(ZERO, 0.0f32.to_bits());
    assert_eq!(ONE, 1.0f32.to_bits());
    assert_eq!(INFINITY, f32::INFINITY.to_bits());
    assert_eq!(SIGN_BIT, (-0.0f32).to_bits());
}

#[test]
fn nan_agrees_with_the_numbers() {
    for x in samples() {
        assert_eq!(nan(x.to_bits()), x.is_nan(), "{}", x);
    }
}

#[test]
fn lt_agrees_with_the_numbers() {
    for a in samples() {
        for b in samples() {
            assert_eq!(lt(a.to_bits(), b.to_bits()), a < b, "{} < {}", a, b);
        }
    }
}

#[test]
fn le_agrees_with_the_numbers() {
    for a in samples() {
        for b in samples() {
            assert_eq!(le(a.to_bits(), b.to_bits()), a <= b, "{} <= {}", a, b);
        }
    }
}

#[test]
fn both_zeros_are_one_number() {
    let plus: u32 = 0.0f32.to_bits();
    let minus: u32 = (-0.0f32).to_bits();
    assert!(!lt(plus, minus));
    assert!(!lt(minus, plus));
    assert!(le(plus, minus));
    assert!(le(minus, plus));
    assert_eq!(rank_of(plus), 0);
    assert_eq!(rank_of(minus), 0);
}

#[test]
fn rank_grows_with_the_number() {
    assert_eq!(rank_of(1.0f32.to_bits()), 0x3F80_0000);
    assert_eq!(rank_of((-1.0f32).to_bits()), -0x3F80_0000);
    assert_eq!(rank_of(f32::from_bits(1).to_bits()), 1);
    assert_eq!(rank_of(0xFFFF_FFFF), -0x7FFF_FFFF);
}

#[test]
fn clamp_agrees_with_the_numbers() {
    let bounds: [(f32, f32); 4] = [(0.0, 1.0), (6.5, 20.0), (-0.8, 0.8), (-0.0, 0.0)];
    for (low, high) in bounds {
        for x in samples() {
            let got: f32 = f32::from_bits(clamp(x.to_bits(), low.to_bits(), high.to_bits()));
            let want: f32 = x.clamp(low, high);
            if want.is_nan() {
                assert_eq!(got.to_bits(), x.to_bits());
            } else {
                assert_eq!(got.to_bits(), want.to_bits(), "{} in [{}, {}]", x, low, high);
            }
        }
    }
}

#[test]
fn clamp_pins_to_the_bound_it_meets() {
    let low: u32 = 2.0f32.to_bits();
    let high: u32 = 3.0f32.to_bits();
    assert_eq!(clamp(1.5f32.to_bits(), low, high), low);
    assert_eq!(clamp(3.5f32.to_bits(), low, high), high);
    assert_eq!(clamp(2.5f32.to_bits(), low, high), 2.5f32.to_bits());
    assert_eq!(clamp(f32::NEG_INFINITY.to_bits(), low, high), low);
    assert_eq!(clamp(f32::INFINITY.to_bits(), low, high), high);
    assert_eq!(clamp(0x7FC0_0000, low, high), 0x7FC0_0000);
}

#[test]
fn order_agrees_with_the_numbers_across_the_encodings() {
    let mut picked: Vec<u32> = Vec::new();
    let mut bits: u64 = 0;
    while bits <= u32::MAX as u64 {
        picked.push(bits as u32);
        bits += 7_654_321;
    }
    picked.push(u32::MAX);
    for a in &picked {
        let x: f32 = f32::from_bits(*a);
        assert_eq!(nan(*a), x.is_nan());
        for b in &picked {
            let y: f32 = f32::from_bits(*b);
            assert_eq!(lt(*a, *b), x < y);
            assert_eq!(le(*a, *b), x <= y);
        }
    }
}

#[test]
fn neighbouring_encodings_are_neighbouring_numbers() {
    let starts: [u32; 6] = [0, 1, 0x007F_FFFF, 0x3F7F_FFFF, 0x3F80_0000, 0x7F7F_FFFF];
    for start in starts {
        let here: f32 = f32::from_bits(start);
        let there: f32 = f32::from_bits(start + 1);
        assert!(here < there);
        assert!(lt(start, start + 1));
        assert!(lt((start + 1) | SIGN_BIT, start | SIGN_BIT));
        assert_eq!(rank_of(start + 1) - rank_of(start), 1);
    }
}
