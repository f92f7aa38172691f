use gps_fix::decimal::format_fixed;

fn std_text(value: f64) -> String {
    format!("{:.4}", value)
}

fn check(value: f64) {
    assert_eq!(format_fixed(value.to_bits()), std_text(value), "value {:e}", value);
}

#[test]
fn fixed_text_of_ordinary_coordinates() {
    assert_eq!(format_fixed((-23.55f64).to_bits()), "-23.5500");
    assert_eq!(format_fixed((-46.63f64).to_bits()), "-46.6300");
    assert_eq!(format_fixed(180.0f64.to_bits()), "180.0000");
    assert_eq!(format_fixed(51.477928f64.to_bits()), "51.4779");
    assert_eq!(format_fixed((-0.001545f64).to_bits()), "-0.0015");
}

#[test]
fn fixed_text_of_zero_keeps_the_sign() {
    assert_eq!(format_fixed(0.0f64.to_bits()), "0.0000");
    assert_eq!(format_fixed((-0.0f64).to_bits()), "-0.0000");
    check(0.0);
    check(-0.0);
}

#[test]
fn fixed_text_rounds_ties_to_even() {
    // 1/32 = 0.03125 and 3/32 = 0.09375 lie exactly between two steps.
    assert_eq!(format_fixed(0.03125f64.to_bits()), "0.0312");
    assert_eq!(format_fixed(0.09375f64.to_bits()), "0.0938");
    assert_eq!(format_fixed((-0.03125f64).to_bits()), "-0.0312");
    let mut odd: u32 = 1;
    while odd < 4096 {
        check(odd as f64 / 32.0);
        check(-(odd as f64) / 32.0);
        odd += 2;
    }
}

#[test]
fn fixed_text_carries_into_the_whole_part() {
    assert_eq!(format_fixed(0.99996f64.to_bits()), "1.0000");
    assert_eq!(format_fixed(9.99999f64.to_bits()), "10.0000");
    assert_eq!(format_fixed(99.99995f64.to_bits()), std_text(99.99995));
    check(0.99995);
    check(0.99994);
}

#[test]
fn fixed_text_of_tiny_values_is_zero() {
    assert_eq!(format_fixed(1e-5f64.to_bits()), "0.0000");
    assert_eq!(format_fixed((-1e-5f64).to_bits()), "-0.0000");
    assert_eq!(format_fixed(4.9e-5f64.to_bits()), "0.0000");
    assert_eq!(format_fixed(5.1e-5f64.to_bits()), "0.0001");
    assert_eq!(format_fixed(f64::MIN_POSITIVE.to_bits()), "0.0000");
    assert_eq!(format_fixed(1u64), "0.0000");
    check(5e-5);
    check(f64::from_bits(1));
    check(f64::from_bits(0x000f_ffff_ffff_ffff));
}

#[test]
fn fixed_text_of_huge_values_is_exact() {
    assert_eq!(format_fixed(1e21f64.to_bits()), "1000000000000000000000.0000");
    assert_eq!(format_fixed(9007199254740992.0f64.to_bits()), "9007199254740992.0000");
    check(1e22);
    check(1e23);
    check(1e300);
    check(f64::MAX);
    check(f64::MIN);
    check(4503599627370496.0);
    check(4503599627370497.0);
    check(4503599627370495.5);
    check(123456789.12345678);
}

#[test]
fn fixed_text_of_values_that_are_no_numbers() {
    assert_eq!(format_fixed(f64::NAN.to_bits()), "NaN");
    assert_eq!(format_fixed((-f64::NAN).to_bits()), "NaN");
    assert_eq!(format_fixed(0x7ff0_0000_0000_0001), "NaN");
    assert_eq!(format_fixed(0xffff_ffff_ffff_ffff), "NaN");
    assert_eq!(format_fixed(f64::INFINITY.to_bits()), "inf");
    assert_eq!(format_fixed(f64::NEG_INFINITY.to_bits()), "-inf");
    check(f64::NAN);
    check(f64::INFINITY);
    check(f64::NEG_INFINITY);
}

#[test]
fn fixed_text_agrees_with_std_on_a_sweep_of_bit_patterns() {
    let mut state: u64 = 0x9e37_79b9_7f4a_7c15;
    let mut count: u32 = 0;
    while count < 4000 {
        state = state.wrapping_mul(6364136223846793005).wrapping_add(1442695040888963407);
        let bits = state ^ (state >> 29);
        check(f64::from_bits(bits));
        count += 1;
    }
}

#[test]
fn fixed_text_agrees_with_std_on_a_sweep_of_coordinates() {
    let mut state: u64 = 0x0123_4567_89ab_cdef;
    let mut count: u32 = 0;
    while count < 20000 {
        state = state.wrapping_mul(6364136223846793005).wrapping_add(1442695040888963407);
        let unit = (state >> 11) as f64 / (1u64 << 53) as f64;
        check(unit * 360.0 - 180.0);
        check((unit - 0.5) * 0.001);
        count += 1;
    }
}

#[test]
fn fixed_text_agrees_with_std_at_every_exponent() {
    let mut exponent: u64 = 0;
    while exponent < 0x7ff {
        check(f64::from_bits(exponent << 52));
        check(f64::from_bits((exponent << 52) | 0x000f_ffff_ffff_ffff));
        check(f64::from_bits((exponent << 52) | 0x0008_0000_0000_0000));
        check(f64::from_bits((exponent << 52) | 0x8000_0000_0000_0001));
        exponent += 1;
    }
}

#[test]
fn sign_bit_only_puts_a_minus_in_front() {
    let mut state: u64 = 0x0bad_cafe_dead_beef;
    let mut count: u32 = 0;
    while count < 2000 {
        state = state.wrapping_mul(6364136223846793005).wrapping_add(1442695040888963407);
        let bits = (state ^ (state >> 31)) & 0x7fff_ffff_ffff_ffff;
        if !f64::from_bits(bits).is_nan() {
            let plain = format_fixed(bits);
            let negated = format_fixed(bits | 0x8000_0000_0000_0000);
            assert_eq!(negated, format!("-{}", plain));
        }
        count += 1;
    }
}

#[test]
fn finite_text_has_a_point_before_its_last_four_digits() {
    let samples = [0.0, -0.0, 1.0, -23.55, 0.00004, 123456.7, 1e40, -1e-40, f64::MAX];
    for value in samples {
        let text = format_fixed(value.to_bits());
        let digits = text.strip_prefix('-').unwrap_or(&text);
        assert!(digits.len() >= 6);
        let (whole, rest) = digits.split_at(digits.len() - 5);
        assert!(!whole.is_empty());
        assert!(whole.chars().all(|c| c.is_ascii_digit()));
        assert!(rest.starts_with('.'));
        assert!(rest[1..].chars().all(|c| c.is_ascii_digit()));
        assert!(whole == "0" || !whole.starts_with('0'));
    }
}

#[test]
fn rounding_goes_to_the_nearest_step() {
    // Just below, at and just above the middle between 0.1234 and 0.1235.
    assert_eq!(format_fixed(0.12344999f64.to_bits()), "0.1234");
    assert_eq!(format_fixed(0.12345001f64.to_bits()), "0.1235");
    // 0.5 + 1/32 = 0.53125 is a true tie between 0.5312 and 0.5313.
    assert_eq!(format_fixed(0.53125f64.to_bits()), "0.5312");
    // 0.5 + 3/32 = 0.59375 is a true tie between 0.5937 and 0.5938.
    assert_eq!(format_fixed(0.59375f64.to_bits()), "0.5938");
}
