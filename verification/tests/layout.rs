use verigrad::layout::{
    fits_text_field, DIPLOMA_SPACE, DISCRIMINATOR_SPACE, IDENTITY_SPACE, TEXT_PREFIX_SPACE,
    TEXT_SPACE, TIMESTAMP_SPACE, YEAR_SPACE,
};

#[test]
fn slot_size_is_the_sum_of_header_and_fields() {
    assert_eq!(DISCRIMINATOR_SPACE, 8);
    assert_eq!(IDENTITY_SPACE, 32);
    assert_eq!(TEXT_PREFIX_SPACE, 4);
    assert_eq!(TEXT_SPACE, 64);
    assert_eq!(YEAR_SPACE, 2);
    assert_eq!(TIMESTAMP_SPACE, 8);
    assert_eq!(DIPLOMA_SPACE, 8 + 32 + 32 + 64 + 64 + 2 + 8);
    assert_eq!(DIPLOMA_SPACE, 210);
}

#[test]
fn text_field_holds_sixty_bytes() {
    assert!(fits_text_field(""));
    assert!(fits_text_field("Ada Lovelace"));
    assert!(fits_text_field("B.Sc. Computer Science"));
    assert!(fits_text_field(&"a".repeat(59)));
    assert!(fits_text_field(&"a".repeat(60)));
    assert!(!fits_text_field(&"a".repeat(61)));
    assert!(!fits_text_field(&"a".repeat(64)));
    assert!(!fits_text_field(&"a".repeat(10_000)));
}

#[test]
fn text_field_counts_encoded_bytes() {
    // Two, three and four bytes per character.
    assert!(fits_text_field(&"\u{e9}".repeat(30)));
    assert!(!fits_text_field(&"\u{e9}".repeat(31)));
    assert!(fits_text_field(&"\u{20ac}".repeat(20)));
    assert!(!fits_text_field(&"\u{20ac}".repeat(21)));
    assert!(fits_text_field(&"\u{1f393}".repeat(15)));
    assert!(!fits_text_field(&"\u{1f393}".repeat(16)));
}
