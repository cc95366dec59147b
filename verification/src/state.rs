use vstd::prelude::*;

use crate::catalog::{category_at, category_from_offset, Category, CATALOG_SIZE};
use crate::config::{
    build, identifier_spec, inputs_in_range, ConfigField, ConfigurationError, IdentifierInput,
    SearchConfiguration, CATALOG_MAX_COMPONENTS, MAX_FILLER, MIN_FILLER,
};
use crate::present::{present, Label, RecipeResult, ToggleBuffer, TOGGLE_CAPACITY};
use crate::translate::TranslationSettings;

verus! {

/// The whole application state: the raw inputs the user edits, the injected
/// translation settings, the toggle buffer, and the most recently completed
/// result with its presentation. One value of this type is owned by the UI
/// shell and handed to each action in turn; no global state exists.
pub struct Planner {
    /// The category the search is asked to aim for.
    pub desired_category: Category,
    /// The secondary category selection feeding the derived identifier.
    pub derived_category: Category,
    /// Raw bound on unique components, validated only when a snapshot is built.
    pub max_components_input: usize,
    /// Raw bound on filler quantity, validated only when a snapshot is built.
    pub max_filler_input: usize,
    /// Whether the rarity flag is set.
    pub rarity_flag: bool,
    /// The anchor and constant the derived identifier is translated against.
    pub translation: TranslationSettings,
    /// The fixed-capacity display flags.
    pub toggle_buffer: ToggleBuffer,
    /// The result of the most recently completed generate action, if any.
    pub latest_result: Option<RecipeResult>,
    /// The presentation of `latest_result`: labels paired with toggle slots.
    pub latest_labels: Vec<(Label, usize)>,
}

/// The category a persisted offset restores to: the catalog member at that
/// offset, or the default category where the offset lies outside the
/// catalog (corrupt persisted state falls back silently).
pub open spec fn restored_category(offset: usize) -> Category {
    if offset < CATALOG_SIZE {
        category_at(offset as int)
    } else {
        Category::AggressiveFighting
    }
}

impl Planner {
    /// What every action preserves: the buffer keeps its fixed capacity and
    /// any stored result fits it.
    pub open spec fn wf(self) -> bool {
        &&& self.toggle_buffer.wf()
        &&& self.latest_result matches Some(r) ==> r.valid()
    }

    /// The fresh state at process start: results and toggles are never
    /// persisted, so both start empty/false.
    pub fn new() -> (planner: Planner)
        ensures
            planner.wf(),
            planner.desired_category == Category::AggressiveFighting,
            planner.derived_category == Category::AggressiveFighting,
            planner.max_components_input == 12,
            planner.max_filler_input == 50,
            !planner.rarity_flag,
            planner.translation.anchor == Category::CoalMaking,
            planner.translation.constant_offset == 57,
            planner.toggle_buffer.all_clear(),
            planner.latest_result is None,
            planner.latest_labels@.len() == 0,
    {
        Planner {
            desired_category: Category::AggressiveFighting,
            derived_category: Category::AggressiveFighting,
            max_components_input: 12,
            max_filler_input: 50,
            rarity_flag: false,
            translation: TranslationSettings::standard(),
            toggle_buffer: ToggleBuffer::new(),
            latest_result: None,
            latest_labels: Vec::new(),
        }
    }

    /// Rebuilds the state from the stable configuration subset that
    /// survives across sessions: the two selected categories (stored by
    /// their stable offsets), the two raw numeric bounds, and the rarity
    /// flag. A corrupt offset falls back silently to the fresh default
    /// category, never blocking startup; results and the toggle buffer are
    /// never persisted, so they start empty/false either way.
    pub fn restore(
        rare: bool,
        max_components: usize,
        max_filler: usize,
        desired_offset: usize,
        derived_offset: usize,
    ) -> (planner: Planner)
        ensures
            planner.wf(),
            planner.desired_category == restored_category(desired_offset),
            planner.derived_category == restored_category(derived_offset),
            planner.max_components_input == max_components,
            planner.max_filler_input == max_filler,
            planner.rarity_flag == rare,
            planner.translation.anchor == Category::CoalMaking,
            planner.translation.constant_offset == 57,
            planner.toggle_buffer.all_clear(),
            planner.latest_result is None,
            planner.latest_labels@.len() == 0,
    {
        let mut planner = Planner::new();
        planner.set_rarity_flag(rare);
        planner.set_max_components(max_components);
        planner.set_max_filler(max_filler);
        if desired_offset < CATALOG_SIZE {
            planner.select_desired_category(category_from_offset(desired_offset));
        }
        if derived_offset < CATALOG_SIZE {
            planner.select_derived_category(category_from_offset(derived_offset));
        }
        planner
    }

    /// Selects the category the search aims for; nothing else changes.
    pub fn select_desired_category(&mut self, category: Category)
        ensures
            *final(self) == (Planner { desired_category: category, ..*old(self) }),
    {
        self.desired_category = category;
    }

    /// Selects the secondary category feeding the derived identifier;
    /// nothing else changes.
    pub fn select_derived_category(&mut self, category: Category)
        ensures
            *final(self) == (Planner { derived_category: category, ..*old(self) }),
    {
        self.derived_category = category;
    }

    /// Stores the raw component bound; it is validated only when a snapshot
    /// is built.
    pub fn set_max_components(&mut self, value: usize)
        ensures
            *final(self) == (Planner { max_components_input: value, ..*old(self) }),
    {
        self.max_components_input = value;
    }

    /// Stores the raw filler bound; it is validated only when a snapshot is
    /// built.
    pub fn set_max_filler(&mut self, value: usize)
        ensures
            *final(self) == (Planner { max_filler_input: value, ..*old(self) }),
    {
        self.max_filler_input = value;
    }

    /// Sets the rarity flag; nothing else changes.
    pub fn set_rarity_flag(&mut self, value: bool)
        ensures
            *final(self) == (Planner { rarity_flag: value, ..*old(self) }),
    {
        self.rarity_flag = value;
    }

    /// Starts a generate action: unconditionally resets every toggle flag,
    /// then validates the raw inputs and assembles one configuration
    /// snapshot for the engine. The flags are false before any engine call
    /// can be observed to complete, so a slow call cannot leave a previous
    /// result's toggles visible. The previously completed result stays
    /// until `complete_generate` replaces it.
    pub fn begin_generate(&mut self) -> (result: Result<SearchConfiguration, ConfigurationError>)
        requires
            old(self).wf(),
        ensures
            final(self).wf(),
            final(self).toggle_buffer.all_clear(),
            *final(self) == (Planner { toggle_buffer: final(self).toggle_buffer, ..*old(self) }),
            result is Ok <==> inputs_in_range(
                old(self).max_components_input,
                old(self).max_filler_input,
            ),
            result is Ok ==> {
                let c = result->Ok_0;
                &&& c.desired_category == old(self).desired_category
                &&& c.max_unique_components == old(self).max_components_input
                &&& c.max_filler_quantity == old(self).max_filler_input
                &&& c.rarity_flag == old(self).rarity_flag
                &&& c.player_identifier as int == identifier_spec(
                    IdentifierInput::Derived(old(self).derived_category),
                    old(self).translation,
                )
                &&& c.valid()
            },
            !(1 <= old(self).max_components_input <= CATALOG_MAX_COMPONENTS) ==> result == Err::<
                SearchConfiguration,
                ConfigurationError,
            >(
                ConfigurationError {
                    field: ConfigField::MaxUniqueComponents,
                    allowed_min: 1,
                    allowed_max: CATALOG_MAX_COMPONENTS,
                },
            ),
            1 <= old(self).max_components_input <= CATALOG_MAX_COMPONENTS
                && !(MIN_FILLER <= old(self).max_filler_input <= MAX_FILLER) ==> result == Err::<
                SearchConfiguration,
                ConfigurationError,
            >(
                ConfigurationError {
                    field: ConfigField::MaxFillerQuantity,
                    allowed_min: MIN_FILLER,
                    allowed_max: MAX_FILLER,
                },
            ),
    {
        self.toggle_buffer.clear();
        build(
            self.desired_category,
            self.max_components_input,
            self.max_filler_input,
            self.rarity_flag,
            IdentifierInput::Derived(self.derived_category),
            &self.translation,
        )
    }

    /// Finishes a generate action with what the engine handed back: stores
    /// the result and binds it onto the toggle buffer, which ends up
    /// all-false again with the fresh labels beside it. An absent result is
    /// a legitimate outcome and leaves an empty label sequence.
    pub fn complete_generate(&mut self, result: Option<RecipeResult>)
        requires
            old(self).wf(),
            result matches Some(r) ==> r.valid(),
        ensures
            final(self).wf(),
            final(self).latest_result == result,
            final(self).toggle_buffer.all_clear(),
            *final(self) == (Planner {
                toggle_buffer: final(self).toggle_buffer,
                latest_result: result,
                latest_labels: final(self).latest_labels,
                ..*old(self)
            }),
            final(self).latest_labels@.len() <= TOGGLE_CAPACITY,
            forall|i: int|
                0 <= i < final(self).latest_labels@.len()
                    ==> #[trigger] final(self).latest_labels@[i].1 == i,
            result is None ==> final(self).latest_labels@.len() == 0,
            result matches Some(r) ==> {
                let labels = final(self).latest_labels@;
                &&& labels.len() == 3 + r.ordered_components.len()
                &&& labels[0].0 == Label::Cereal(r.cereal)
                &&& labels[1].0 == Label::Water
                &&& labels[2].0 == Label::FillerQuantity(r.filler_quantity)
                &&& forall|j: int|
                    0 <= j < r.ordered_components.len() ==> #[trigger] labels[3 + j].0
                        == Label::Component(
                        r.ordered_components[j].component,
                        r.ordered_components[j].processing,
                    )
            },
    {
        let labels = present(&result, &mut self.toggle_buffer);
        self.latest_result = result;
        self.latest_labels = labels;
    }

    /// Read accessor for the latest presentation sequence.
    pub fn latest_labels(&self) -> (labels: &Vec<(Label, usize)>)
        ensures
            labels == &self.latest_labels,
    {
        &self.latest_labels
    }

    /// Read accessor for the most recently completed result.
    pub fn latest_result(&self) -> (result: &Option<RecipeResult>)
        ensures
            result == &self.latest_result,
    {
        &self.latest_result
    }
}

} // verus!
