use daedalus::text::{bool_to_text, i64_text, parse_i64, u64_text};
use daedalus::{UserId};
use daedalus::result::AppError;

#[test]
fn decimal_text_matches_to_string() {
    for n in [0u64, 7, 10, 99, 100, 12345, u64::MAX] {
        assert_eq!(u64_text(n), n.to_string());
    }
    for n in [0i64, -1, 42, -9, i64::MIN, i64::MAX] {
        assert_eq!(i64_text(n), n.to_string());
    }
    assert_eq!(bool_to_text(true), "true");
    assert_eq!(bool_to_text(false), "false");
}

#[test]
fn parse_matches_std() {
    for s in ["", "-", "+", "0", "+5", "-5", "007", "12a", " 1", "9223372036854775807",
        "9223372036854775808", "-9223372036854775808", "-9223372036854775809", "١٢", "99999999999999999999999"] {
        assert_eq!(parse_i64(s), s.parse::<i64>().ok(), "input {:?}", s);
    }
}

#[test]
fn identity_round_trip() {
    for id in [1i64, 0, -3, i64::MAX, i64::MIN] {
        assert_eq!(UserId::from_identity(Some(&i64_text(id))).unwrap(), UserId(id));
    }
}

#[test]
fn identity_without_number_is_unauthorized() {
    assert!(matches!(UserId::from_identity(None), Err(AppError::Unauthorized)));
    assert!(matches!(UserId::from_identity(Some("abc")), Err(AppError::Unauthorized)));
    assert!(matches!(UserId::from_identity(Some("")), Err(AppError::Unauthorized)));
}
