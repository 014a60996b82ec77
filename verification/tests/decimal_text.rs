use polybot::decimal::{read_amount, Dec};

#[test]
fn amounts_read_back() {
    assert_eq!(read_amount("12.50"), Dec { mantissa: 1250, scale: 2 });
    assert_eq!(read_amount("-0.005"), Dec { mantissa: -5, scale: 3 });
    assert_eq!(read_amount("junk"), Dec { mantissa: 0, scale: 0 });
}
