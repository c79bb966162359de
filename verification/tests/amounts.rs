use token_ledger::error::TokenError;
use token_ledger::ui::{amount_to_ui_amount, ui_amount_to_amount};

#[test]
fn renders_with_exact_fractional_digits() {
    assert_eq!(amount_to_ui_amount(1_000_000, 6), b"1.000000".to_vec());
    assert_eq!(amount_to_ui_amount(123, 2), b"1.23".to_vec());
    assert_eq!(amount_to_ui_amount(5, 3), b"0.005".to_vec());
    assert_eq!(amount_to_ui_amount(0, 2), b"0.00".to_vec());
    assert_eq!(amount_to_ui_amount(7, 0), b"7".to_vec());
    assert_eq!(amount_to_ui_amount(0, 0), b"0".to_vec());
    assert_eq!(amount_to_ui_amount(u64::MAX, 0), b"18446744073709551615".to_vec());
    assert_eq!(amount_to_ui_amount(u64::MAX, 6), b"18446744073709.551615".to_vec());
}

#[test]
fn parses_plain_and_fractional_amounts() {
    assert_eq!(ui_amount_to_amount(&b"42".to_vec(), 0), Ok(42));
    assert_eq!(ui_amount_to_amount(&b"1.23".to_vec(), 2), Ok(123));
    assert_eq!(ui_amount_to_amount(&b"0.5".to_vec(), 6), Ok(500_000));
    assert_eq!(ui_amount_to_amount(&b".5".to_vec(), 1), Ok(5));
    assert_eq!(ui_amount_to_amount(&b"5.".to_vec(), 2), Ok(500));
    assert_eq!(ui_amount_to_amount(&b"007".to_vec(), 0), Ok(7));
    assert_eq!(ui_amount_to_amount(&b"1".to_vec(), 6), Ok(1_000_000));
}

#[test]
fn parsing_truncates_extra_fractional_digits() {
    assert_eq!(ui_amount_to_amount(&b"1.234".to_vec(), 2), Ok(123));
    assert_eq!(ui_amount_to_amount(&b"0.9999".to_vec(), 1), Ok(9));
    assert_eq!(ui_amount_to_amount(&b"2.71828".to_vec(), 0), Ok(2));
}

#[test]
fn parsing_rejects_malformed_text() {
    let bad = TokenError::InvalidAccountData;
    assert_eq!(ui_amount_to_amount(&b"".to_vec(), 2), Err(bad));
    assert_eq!(ui_amount_to_amount(&b".".to_vec(), 2), Err(bad));
    assert_eq!(ui_amount_to_amount(&b"abc".to_vec(), 2), Err(bad));
    assert_eq!(ui_amount_to_amount(&b"1.2.3".to_vec(), 2), Err(bad));
    assert_eq!(ui_amount_to_amount(&b"1x".to_vec(), 2), Err(bad));
    assert_eq!(ui_amount_to_amount(&b"-1".to_vec(), 2), Err(bad));
    assert_eq!(ui_amount_to_amount(&b" 1".to_vec(), 2), Err(bad));
}

#[test]
fn parsing_rejects_overflow() {
    assert_eq!(
        ui_amount_to_amount(&b"18446744073709551616".to_vec(), 0),
        Err(TokenError::Overflow)
    );
    assert_eq!(
        ui_amount_to_amount(&b"18446744073709551615".to_vec(), 0),
        Ok(u64::MAX)
    );
    assert_eq!(
        ui_amount_to_amount(&b"99".to_vec(), 19),
        Err(TokenError::Overflow)
    );
}

#[test]
fn render_then_parse_gives_amount_back() {
    for &(amount, decimals) in
        [(0u64, 0u8), (1, 6), (999, 2), (1_000_000, 6), (u64::MAX, 9)].iter()
    {
        let ui = amount_to_ui_amount(amount, decimals);
        assert_eq!(ui_amount_to_amount(&ui, decimals), Ok(amount));
    }
}
