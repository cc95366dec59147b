use vstd::prelude::*;

use crate::catalog::Category;
use crate::translate::{translate, translate_spec, TranslationSettings};

verus! {

/// Most ordered components a configuration may ask the engine for; the
/// upper bound of `max_unique_components`.
pub const CATALOG_MAX_COMPONENTS: usize = 12;

/// Least filler quantity a configuration may allow.
pub const MIN_FILLER: usize = 2;

/// Greatest filler quantity a configuration may allow.
pub const MAX_FILLER: usize = 80;

/// Which numeric field of a configuration failed validation.
#[derive(Clone, Copy, PartialEq, Eq, Structural, Debug)]
pub enum ConfigField {
    MaxUniqueComponents,
    MaxFillerQuantity,
}

/// A rejected raw input: the field at fault, together with the range the
/// field would have to lie in. Raw values outside their range are rejected,
/// never silently clamped.
#[derive(Clone, Copy, PartialEq, Eq, Structural, Debug)]
pub struct ConfigurationError {
    pub field: ConfigField,
    pub allowed_min: usize,
    pub allowed_max: usize,
}

/// One immutable snapshot of validated inputs, submitted to the search
/// engine as a whole. Built fresh on every generate action and never
/// partially mutated afterwards.
#[derive(Clone, Copy, PartialEq, Eq, Structural, Debug)]
pub struct SearchConfiguration {
    pub desired_category: Category,
    pub max_unique_components: usize,
    pub max_filler_quantity: usize,
    pub rarity_flag: bool,
    pub player_identifier: usize,
}

impl SearchConfiguration {
    /// What the builder guarantees of every snapshot it returns: both
    /// numeric fields lie inside their allowed ranges.
    pub open spec fn valid(self) -> bool {
        &&& 1 <= self.max_unique_components <= CATALOG_MAX_COMPONENTS
        &&& MIN_FILLER <= self.max_filler_quantity <= MAX_FILLER
    }
}

/// The source feeding a configuration's player identifier: a value supplied
/// directly, or a derived category handed to the translator. Exactly one
/// source feeds the field per configuration.
#[derive(Clone, Copy, PartialEq, Eq, Structural, Debug)]
pub enum IdentifierInput {
    Direct(usize),
    Derived(Category),
}

/// The identifier a given input mode must produce under the given
/// translation settings.
pub open spec fn identifier_spec(input: IdentifierInput, translation: TranslationSettings) -> int {
    match input {
        IdentifierInput::Direct(v) => v as int,
        IdentifierInput::Derived(d) => translate_spec(
            d,
            translation.anchor,
            translation.constant_offset as int,
        ),
    }
}

/// Whether both raw numeric inputs lie inside their allowed ranges.
pub open spec fn inputs_in_range(raw_max_components: usize, raw_max_filler: usize) -> bool {
    &&& 1 <= raw_max_components <= CATALOG_MAX_COMPONENTS
    &&& MIN_FILLER <= raw_max_filler <= MAX_FILLER
}

/// Validates the raw inputs and assembles one configuration snapshot.
///
/// A pure function of its inputs: identical inputs always build the
/// identical snapshot. The component bound is checked first; an
/// out-of-range value fails with the field at fault and its allowed range,
/// and only inputs with both values in range build a snapshot.
pub fn build(
    desired_category: Category,
    raw_max_components: usize,
    raw_max_filler: usize,
    rarity_flag: bool,
    identifier_input: IdentifierInput,
    translation: &TranslationSettings,
) -> (result: Result<SearchConfiguration, ConfigurationError>)
    ensures
        result is Ok <==> inputs_in_range(raw_max_components, raw_max_filler),
        result is Ok ==> {
            let c = result->Ok_0;
            &&& c.desired_category == desired_category
            &&& c.max_unique_components == raw_max_components
            &&& c.max_filler_quantity == raw_max_filler
            &&& c.rarity_flag == rarity_flag
            &&& c.player_identifier as int == identifier_spec(identifier_input, *translation)
            &&& c.valid()
        },
        !(1 <= raw_max_components <= CATALOG_MAX_COMPONENTS) ==> result == Err::<
            SearchConfiguration,
            ConfigurationError,
        >(
            ConfigurationError {
                field: ConfigField::MaxUniqueComponents,
                allowed_min: 1,
                allowed_max: CATALOG_MAX_COMPONENTS,
            },
        ),
        1 <= raw_max_components <= CATALOG_MAX_COMPONENTS && !(MIN_FILLER <= raw_max_filler
            <= MAX_FILLER) ==> result == Err::<SearchConfiguration, ConfigurationError>(
            ConfigurationError {
                field: ConfigField::MaxFillerQuantity,
                allowed_min: MIN_FILLER,
                allowed_max: MAX_FILLER,
            },
        ),
{
    if raw_max_components < 1 || raw_max_components > CATALOG_MAX_COMPONENTS {
        return Err(
            ConfigurationError {
                field: ConfigField::MaxUniqueComponents,
                allowed_min: 1,
                allowed_max: CATALOG_MAX_COMPONENTS,
            },
        );
    }
    if raw_max_filler < MIN_FILLER || raw_max_filler > MAX_FILLER {
        return Err(
            ConfigurationError {
                field: ConfigField::MaxFillerQuantity,
                allowed_min: MIN_FILLER,
                allowed_max: MAX_FILLER,
            },
        );
    }
    let player_identifier = match identifier_input {
        IdentifierInput::Direct(v) => v,
        IdentifierInput::Derived(d) => translate(
            d,
            translation.anchor,
            translation.constant_offset,
        ),
    };
    Ok(
        SearchConfiguration {
            desired_category,
            max_unique_components: raw_max_components,
            max_filler_quantity: raw_max_filler,
            rarity_flag,
            player_identifier,
        },
    )
}

} // verus!
