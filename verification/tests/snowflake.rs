use chorus::snowflake::{Snowflake, SNOWFLAKE_EPOCH_MS};

#[test]
fn identifier_is_offset_shifted_into_high_bits() {
    let ms = SNOWFLAKE_EPOCH_MS as i64 + 1;
    let id = Snowflake::from_unix_millis(ms);
    assert_eq!(id.0, 1 << 22);

    let ms = SNOWFLAKE_EPOCH_MS as i64 + 1000;
    let id = Snowflake::from_unix_millis(ms);
    assert_eq!(id.0, 1000u64 << 22);
}

#[test]
fn readings_before_the_epoch_yield_zero() {
    assert_eq!(Snowflake::from_unix_millis(0).0, 0);
    assert_eq!(Snowflake::from_unix_millis(-5).0, 0);
    assert_eq!(Snowflake::from_unix_millis(SNOWFLAKE_EPOCH_MS as i64).0, 0);
}

#[test]
fn decimal_text_of_identifier() {
    assert_eq!(Snowflake(0).to_string(), "0");
    assert_eq!(Snowflake(42).to_string(), "42");
    assert_eq!(Snowflake(1420070400000).to_string(), "1420070400000");
}

#[test]
fn generate_mints_nonzero_identifiers_now() {
    // The clock is well past the platform epoch, so a fresh identifier is
    // never zero and its low (worker and sequence) bits are clear.
    let id = Snowflake::generate();
    assert!(id.0 > 0);
    assert_eq!(id.0 & 0x3F_FFFF, 0);
}

#[test]
fn security_key_default_has_fresh_id() {
    let key = chorus::entities::SecurityKey::default();
    assert!(!key.id.is_empty());
    assert!(key.id.chars().all(|c| c.is_ascii_digit()));
    assert_eq!(key.user_id, "");
    assert_eq!(key.counter, 0);
    assert_eq!(key.name, "");
}
