use kodbot::choice::{custom_id, decode_custom_id, is_button_of, Choice};
use kodbot::text::{append_decimal, append_mention, char_digit, render_decimal};

#[test]
fn decimal_of_zero_is_one_digit() {
    assert_eq!(render_decimal(0), "0");
}

#[test]
fn decimal_of_small_and_large_numbers() {
    assert_eq!(render_decimal(7), "7");
    assert_eq!(render_decimal(10), "10");
    assert_eq!(render_decimal(1000), "1000");
    assert_eq!(render_decimal(1234567890), "1234567890");
    assert_eq!(render_decimal(u64::MAX), "18446744073709551615");
}

#[test]
fn decimal_agrees_with_std() {
    let mut n: u64 = 1;
    while n < u64::MAX / 7 {
        assert_eq!(render_decimal(n), format!("{}", n));
        n = n * 7 + 3;
    }
}

#[test]
fn digits_are_told_from_other_characters() {
    assert_eq!(char_digit('0'), Some(0));
    assert_eq!(char_digit('5'), Some(5));
    assert_eq!(char_digit('9'), Some(9));
    assert_eq!(char_digit(':'), None);
    assert_eq!(char_digit('a'), None);
    assert_eq!(char_digit('٣'), None);
}

#[test]
fn mention_is_appended() {
    let mut text = String::from("to ");
    append_mention(&mut text, 42);
    assert_eq!(text, "to <@&42>");
    append_decimal(&mut text, 7);
    assert_eq!(text, "to <@&42>7");
}

#[test]
fn button_identifiers_are_written_as_expected() {
    assert_eq!(custom_id(123, Choice::Confirm), "123:member_purge_confirm");
    assert_eq!(custom_id(123, Choice::Cancel), "123:member_purge_cancel");
    assert_eq!(custom_id(0, Choice::Cancel), "0:member_purge_cancel");
    assert_eq!(
        custom_id(u64::MAX, Choice::Confirm),
        "18446744073709551615:member_purge_confirm"
    );
}

#[test]
fn button_identifiers_read_back() {
    for correlation in [0u64, 1, 9, 10, 99, 1096153401131798638, u64::MAX] {
        for choice in [Choice::Confirm, Choice::Cancel] {
            let text = custom_id(correlation, choice);
            assert_eq!(decode_custom_id(&text), Some((correlation, choice)));
        }
    }
}

#[test]
fn foreign_identifiers_are_not_read() {
    assert_eq!(decode_custom_id(""), None);
    assert_eq!(decode_custom_id(":member_purge_confirm"), None);
    assert_eq!(decode_custom_id("123"), None);
    assert_eq!(decode_custom_id("123:"), None);
    assert_eq!(decode_custom_id("123:member_purge_confirmed"), None);
    assert_eq!(decode_custom_id("123:member_purge"), None);
    assert_eq!(decode_custom_id("123;member_purge_cancel"), None);
    assert_eq!(decode_custom_id("12a:member_purge_cancel"), None);
    assert_eq!(decode_custom_id("-12:member_purge_cancel"), None);
    assert_eq!(decode_custom_id(" 12:member_purge_cancel"), None);
    assert_eq!(decode_custom_id("１２:member_purge_cancel"), None);
    assert_eq!(decode_custom_id("12:Member_purge_cancel"), None);
}

#[test]
fn leading_zeros_are_not_read() {
    assert_eq!(decode_custom_id("0123:member_purge_confirm"), None);
    assert_eq!(decode_custom_id("00:member_purge_cancel"), None);
    assert_eq!(decode_custom_id("0:member_purge_cancel"), Some((0, Choice::Cancel)));
}

#[test]
fn numbers_that_do_not_fit_are_not_read() {
    assert_eq!(decode_custom_id("18446744073709551616:member_purge_confirm"), None);
    assert_eq!(decode_custom_id("99999999999999999999999:member_purge_confirm"), None);
    assert_eq!(
        decode_custom_id("18446744073709551615:member_purge_cancel"),
        Some((u64::MAX, Choice::Cancel))
    );
}

#[test]
fn an_identifier_is_not_taken_for_one_it_starts() {
    assert_eq!(decode_custom_id("123:member_purge_confirm"), Some((123, Choice::Confirm)));
    assert_ne!(decode_custom_id("123:member_purge_confirm"), Some((12, Choice::Confirm)));
    assert_ne!(custom_id(12, Choice::Confirm), custom_id(123, Choice::Confirm));
}

#[test]
fn a_button_belongs_to_one_session() {
    assert!(is_button_of("123:member_purge_confirm", 123));
    assert!(is_button_of("123:member_purge_cancel", 123));
    assert!(!is_button_of("123:member_purge_confirm", 12));
    assert!(!is_button_of("123:member_purge_confirm", 1234));
    assert!(!is_button_of("123:member_purge_confirm", 321));
    assert!(!is_button_of("123:other", 123));
    assert!(!is_button_of("0123:member_purge_confirm", 123));
    assert!(!is_button_of("", 0));
    assert!(is_button_of(&custom_id(u64::MAX, Choice::Cancel), u64::MAX));
}
