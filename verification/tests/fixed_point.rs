use psx_renderer::fractional_type::FractionalType;

fn fx(n: i32) -> FractionalType {
    FractionalType::from_num(n)
}

#[test]
fn whole_number_construction_and_raw_form() {
    assert_eq!(fx(1).to_fixed(), 65536);
    assert_eq!(fx(-1).to_fixed(), -65536);
    assert_eq!(fx(0).to_fixed(), 0);
    assert_eq!(fx(32767).to_fixed(), 32767 * 65536);
    assert_eq!(fx(-32768).to_fixed(), i32::MIN);
    assert_eq!(FractionalType::from_fixed(98304).to_fixed(), 98304);
}

#[test]
fn add_then_sub_returns_the_original() {
    let samples = [0, 1, -1, 98304, -98304, 12345678, -12345678, i32::MAX, i32::MIN];
    for &a in &samples {
        for &b in &samples {
            let fa = FractionalType::from_fixed(a);
            let fb = FractionalType::from_fixed(b);
            assert_eq!(fa.add(fb).sub(fb).to_fixed(), a);
        }
    }
}

#[test]
fn addition_wraps_at_the_top_of_the_range() {
    let r = fx(32767).add(fx(1));
    assert_eq!(r.to_fixed(), i32::MIN);
    let r = FractionalType::from_fixed(i32::MIN).sub(FractionalType::from_fixed(1));
    assert_eq!(r.to_fixed(), i32::MAX);
}

#[test]
fn multiplying_by_one_is_exact() {
    let samples = [0, 1, -1, 98304, -98304, 7654321, i32::MAX, i32::MIN];
    for &a in &samples {
        let fa = FractionalType::from_fixed(a);
        assert_eq!(fa.mul(fx(1)).to_fixed(), a);
    }
}

#[test]
fn dividing_a_nonzero_value_by_itself_gives_one() {
    let samples = [1, -1, 98304, -98304, 7654321, -7654321, i32::MAX, i32::MIN];
    for &a in &samples {
        let fa = FractionalType::from_fixed(a);
        assert_eq!(fa.div(fa).to_fixed(), 65536);
    }
}

#[test]
fn multiplication_is_exact_on_representable_products() {
    // 1.5 * 2.5 == 3.75
    let r = FractionalType::from_fixed(98304).mul(FractionalType::from_fixed(163840));
    assert_eq!(r.to_fixed(), 245760);
}

#[test]
fn multiplication_rounds_toward_negative_infinity() {
    // (3/65536) * 0.5 = 1.5/65536, kept as 1/65536
    let r = FractionalType::from_fixed(3).mul(FractionalType::from_fixed(32768));
    assert_eq!(r.to_fixed(), 1);
    // (-3/65536) * 0.5 = -1.5/65536, kept as -2/65536
    let r = FractionalType::from_fixed(-3).mul(FractionalType::from_fixed(32768));
    assert_eq!(r.to_fixed(), -2);
}

#[test]
fn division_truncates_toward_zero() {
    // (-3/65536) / 2 = -1.5/65536, kept as -1/65536
    let r = FractionalType::from_fixed(-3).div(fx(2));
    assert_eq!(r.to_fixed(), -1);
    let r = FractionalType::from_fixed(3).div(fx(2));
    assert_eq!(r.to_fixed(), 1);
}

#[test]
fn floor_ceil_round_on_halves() {
    let pos = FractionalType::from_fixed(98304); // 1.5
    assert_eq!(pos.floor().to_fixed(), 65536);
    assert_eq!(pos.ceil().to_fixed(), 131072);
    assert_eq!(pos.round().to_fixed(), 131072); // ties away from zero
    let neg = FractionalType::from_fixed(-98304); // -1.5
    assert_eq!(neg.floor().to_fixed(), -131072);
    assert_eq!(neg.ceil().to_fixed(), -65536);
    assert_eq!(neg.round().to_fixed(), -131072); // ties away from zero
    assert_eq!(FractionalType::from_fixed(163840).round().to_fixed(), 196608); // 2.5 -> 3
}

#[test]
fn ceil_wraps_at_the_top_of_the_range() {
    let r = FractionalType::from_fixed(i32::MAX).ceil();
    assert_eq!(r.to_fixed(), i32::MIN);
}

#[test]
fn whole_part_rounds_toward_negative_infinity() {
    assert_eq!(FractionalType::from_fixed(98304).to_num(), 1);
    assert_eq!(FractionalType::from_fixed(-98304).to_num(), -2);
    assert_eq!(FractionalType::from_fixed(-1).to_num(), -1);
    assert_eq!(fx(-300).to_num(), -300);
    // The centre of pixel -1 stays in pixel -1, never in pixel 0.
    assert_eq!(FractionalType::from_fixed(-32768).to_num(), -1);
}

#[test]
fn ordering_follows_the_represented_value() {
    assert!(fx(-3) < fx(2));
    assert!(FractionalType::from_fixed(-1) < FractionalType::from_fixed(0));
    assert!(FractionalType::from_fixed(1) > FractionalType::from_fixed(0));
    assert!(fx(2) <= fx(2));
    assert!(fx(5) >= fx(5));
    assert_eq!(fx(7), fx(7));
    assert!(fx(7) != fx(8));
}

#[test]
fn zero_identity_and_test() {
    let z = FractionalType::zero();
    assert!(z.is_zero());
    assert_eq!(z.to_fixed(), 0);
    assert!(!fx(1).is_zero());
    let a = FractionalType::from_fixed(424242);
    assert_eq!(a.add(z).to_fixed(), 424242);
}

#[test]
fn negation_mirrors_the_raw_value() {
    assert_eq!(fx(5).neg().to_fixed(), -5 * 65536);
    assert_eq!(FractionalType::from_fixed(i32::MIN).neg().to_fixed(), i32::MIN);
}
