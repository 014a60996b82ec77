//! Amounts and doubles.

use polybot::decimal::{read_amount, remaining_amount, Dec, MAX_MANTISSA};
use polybot::double::Double;
use polybot::text::{copy_opt_text, copy_texts, list_contains, same_text};
use polybot::ui::ticker::round_to_two_dp;

fn dec(mantissa: i128, scale: u32) -> Dec {
    Dec { mantissa, scale }
}

fn d(x: f64) -> Double {
    Double::from_bits(x.to_bits())
}

#[test]
fn remaining_is_never_negative() {
    assert_eq!(remaining_amount(dec(1000, 2), dec(25, 1)), Some(dec(750, 2)));
    assert_eq!(remaining_amount(dec(1, 0), dec(2, 0)), Some(dec(0, 0)));
    assert_eq!(remaining_amount(dec(5, 0), dec(5, 0)), Some(dec(0, 0)));
    assert_eq!(remaining_amount(dec(MAX_MANTISSA, 0), dec(-1, 0)), None);
}

#[test]
fn rounding_cuts_off() {
    assert_eq!(round_to_two_dp("1.239"), "1.23");
    assert_eq!(round_to_two_dp("-1.239"), "-1.23");
    assert_eq!(round_to_two_dp("5"), "5");
    assert_eq!(round_to_two_dp("0.1"), "0.1");
    assert_eq!(round_to_two_dp("abc"), "abc");
    assert_eq!(round_to_two_dp(&round_to_two_dp("7.777")), "7.77");
}

#[test]
fn printed_amounts_read_back() {
    for text in ["0.00", "12.50", "-0.005", "79228162514264337593543950335", "0.0000000000000000000000000001"] {
        let amount = read_amount(text);
        assert_eq!(read_amount(&rust_decimal::Decimal::from_i128_with_scale(amount.mantissa, amount.scale).to_string()), amount);
    }
}

#[test]
fn doubles_compare_as_numbers() {
    let values = [
        f64::NEG_INFINITY, -1e300, -2.5, -1.0, -f64::MIN_POSITIVE, -0.0, 0.0, f64::MIN_POSITIVE, 0.5, 1.0,
        1e300, f64::INFINITY, f64::NAN,
    ];
    for a in values {
        assert_eq!(d(a).is_nan(), a.is_nan());
        assert_eq!(f64::from_bits(d(a).abs().bits).to_bits(), a.abs().to_bits());
        if !a.is_nan() {
            assert_eq!(f64::from_bits(d(a).signum().bits), a.signum());
        }
        for b in values {
            assert_eq!(d(a).lt(d(b)), a < b, "{a} < {b}");
            assert_eq!(d(a).le(d(b)), a <= b, "{a} <= {b}");
            if !(a.is_nan() && b.is_nan()) && a != b {
                assert_eq!(f64::from_bits(d(a).max(d(b)).bits), a.max(b), "max {a} {b}");
                assert_eq!(f64::from_bits(d(a).min(d(b)).bits), a.min(b), "min {a} {b}");
            }
        }
    }
    assert_eq!(d(3.0).clamp(d(0.0), d(1.0)), d(1.0));
    assert_eq!(d(-3.0).clamp(d(0.0), d(1.0)), d(0.0));
    assert_eq!(d(0.25).clamp(d(0.0), d(1.0)), d(0.25));
}

#[test]
fn copies_of_texts() {
    let list = vec!["a".to_string(), "b".to_string()];
    assert_eq!(copy_texts(&list), list);
    assert_eq!(copy_opt_text(&Some("x".to_string())), Some("x".to_string()));
    assert_eq!(copy_opt_text(&None), None);
    assert!(list_contains(&list, &"b".to_string()));
    assert!(!list_contains(&list, &"c".to_string()));
    assert!(same_text("up", "up"));
    assert!(!same_text("up", "Up"));
}
