use v12::catalog::Category;
use v12::config::{
    build, ConfigField, ConfigurationError, IdentifierInput, CATALOG_MAX_COMPONENTS, MAX_FILLER,
    MIN_FILLER,
};
use v12::translate::TranslationSettings;

#[test]
fn build_accepts_in_range_inputs() {
    let settings = TranslationSettings::standard();
    let config = build(
        Category::Beverages,
        5,
        40,
        true,
        IdentifierInput::Direct(7),
        &settings,
    )
    .unwrap();
    assert_eq!(config.desired_category, Category::Beverages);
    assert_eq!(config.max_unique_components, 5);
    assert_eq!(config.max_filler_quantity, 40);
    assert!(config.rarity_flag);
    assert_eq!(config.player_identifier, 7);
}

#[test]
fn build_accepts_range_edges() {
    let settings = TranslationSettings::standard();
    assert!(build(Category::Baking, 1, MIN_FILLER, false, IdentifierInput::Direct(0), &settings)
        .is_ok());
    assert!(build(
        Category::Baking,
        CATALOG_MAX_COMPONENTS,
        MAX_FILLER,
        false,
        IdentifierInput::Direct(0),
        &settings
    )
    .is_ok());
}

#[test]
fn build_rejects_components_below_range() {
    let settings = TranslationSettings::standard();
    let err = build(Category::Baking, 0, 40, false, IdentifierInput::Direct(0), &settings)
        .unwrap_err();
    assert_eq!(
        err,
        ConfigurationError {
            field: ConfigField::MaxUniqueComponents,
            allowed_min: 1,
            allowed_max: CATALOG_MAX_COMPONENTS,
        }
    );
}

#[test]
fn build_rejects_components_above_range() {
    let settings = TranslationSettings::standard();
    let err = build(
        Category::Baking,
        CATALOG_MAX_COMPONENTS + 1,
        40,
        false,
        IdentifierInput::Direct(0),
        &settings,
    )
    .unwrap_err();
    assert_eq!(err.field, ConfigField::MaxUniqueComponents);
}

#[test]
fn build_rejects_filler_below_range() {
    let settings = TranslationSettings::standard();
    let err = build(
        Category::Baking,
        5,
        MIN_FILLER - 1,
        false,
        IdentifierInput::Direct(0),
        &settings,
    )
    .unwrap_err();
    assert_eq!(
        err,
        ConfigurationError {
            field: ConfigField::MaxFillerQuantity,
            allowed_min: MIN_FILLER,
            allowed_max: MAX_FILLER,
        }
    );
}

#[test]
fn build_rejects_filler_above_range() {
    let settings = TranslationSettings::standard();
    let err = build(
        Category::Baking,
        5,
        MAX_FILLER + 1,
        false,
        IdentifierInput::Direct(0),
        &settings,
    )
    .unwrap_err();
    assert_eq!(err.field, ConfigField::MaxFillerQuantity);
}

#[test]
fn component_bound_is_checked_before_filler_bound() {
    let settings = TranslationSettings::standard();
    let err = build(Category::Baking, 0, MAX_FILLER + 1, false, IdentifierInput::Direct(0), &settings)
        .unwrap_err();
    assert_eq!(err.field, ConfigField::MaxUniqueComponents);
}

#[test]
fn derived_identifier_comes_from_the_translator() {
    let settings = TranslationSettings::standard();
    let config = build(
        Category::Beverages,
        12,
        50,
        false,
        IdentifierInput::Derived(Category::CoalMaking),
        &settings,
    )
    .unwrap();
    assert_eq!(config.player_identifier, 57);

    let config = build(
        Category::Beverages,
        12,
        50,
        false,
        IdentifierInput::Derived(Category::AggressiveFighting),
        &settings,
    )
    .unwrap();
    assert_eq!(config.player_identifier, 29);
}

#[test]
fn building_is_idempotent_for_identical_inputs() {
    let settings = TranslationSettings::standard();
    let a = build(Category::Fishing, 3, 10, true, IdentifierInput::Derived(Category::Mining), &settings);
    let b = build(Category::Fishing, 3, 10, true, IdentifierInput::Derived(Category::Mining), &settings);
    assert_eq!(a, b);
}
