use v12::catalog::{all_categories, Category, CATALOG_SIZE};
use v12::translate::{translate, TranslationSettings};

#[test]
fn anchor_translated_against_itself_gives_the_constant() {
    // With a catalog of 138 and a constant of 57, a derived category equal
    // to the anchor cancels the offsets: (138 + 57 + 28 - 28) % 138 == 57.
    assert_eq!(translate(Category::CoalMaking, Category::CoalMaking, 57), 57);
}

#[test]
fn anchor_identity_reduces_constant_modulo_catalog_size() {
    assert_eq!(translate(Category::Alchemy, Category::Alchemy, 200), 200 % CATALOG_SIZE);
    assert_eq!(translate(Category::Alchemy, Category::Alchemy, 138), 0);
    assert_eq!(translate(Category::Alchemy, Category::Alchemy, 0), 0);
}

#[test]
fn negative_offset_gap_wraps_into_range() {
    // Derived offset 0 against anchor offset 28: (138 + 57 + 0 - 28) % 138.
    assert_eq!(translate(Category::AggressiveFighting, Category::CoalMaking, 57), 29);
}

#[test]
fn positive_offset_gap_wraps_into_range() {
    // Derived offset 137 against anchor offset 0 and a large constant.
    assert_eq!(
        translate(Category::Yoyo, Category::AggressiveFighting, 137),
        (138 + 137 + 137) % 138
    );
}

#[test]
fn translation_is_total_and_in_range() {
    let settings = TranslationSettings::standard();
    for derived in all_categories() {
        let id = translate(derived, settings.anchor, settings.constant_offset);
        assert!(id < CATALOG_SIZE);
    }
}

#[test]
fn standard_settings_mirror_the_external_encoding() {
    let settings = TranslationSettings::standard();
    assert_eq!(settings.anchor, Category::CoalMaking);
    assert_eq!(settings.constant_offset, 57);
}
