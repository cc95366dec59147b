use v12::catalog::Category;
use v12::config::ConfigField;
use v12::present::{ComponentEntry, Label, RecipeResult, TOGGLE_CAPACITY};
use v12::state::Planner;

fn small_result() -> RecipeResult {
    RecipeResult {
        cereal: String::from("rye"),
        filler_quantity: 3,
        ordered_components: vec![ComponentEntry {
            component: String::from("carrot"),
            processing: String::from("chopped"),
        }],
    }
}

#[test]
fn fresh_state_matches_the_defaults() {
    let planner = Planner::new();
    assert_eq!(planner.desired_category, Category::AggressiveFighting);
    assert_eq!(planner.derived_category, Category::AggressiveFighting);
    assert_eq!(planner.max_components_input, 12);
    assert_eq!(planner.max_filler_input, 50);
    assert!(!planner.rarity_flag);
    assert!(planner.latest_result().is_none());
    assert!(planner.latest_labels().is_empty());
    for i in 0..TOGGLE_CAPACITY {
        assert!(!planner.toggle_buffer.get(i));
    }
}

#[test]
fn restore_rebuilds_the_stable_subset() {
    let planner = Planner::restore(true, 7, 33, 28, 0);
    assert!(planner.rarity_flag);
    assert_eq!(planner.max_components_input, 7);
    assert_eq!(planner.max_filler_input, 33);
    assert_eq!(planner.desired_category, Category::CoalMaking);
    assert_eq!(planner.derived_category, Category::AggressiveFighting);
    assert!(planner.latest_result().is_none());
    assert!(planner.latest_labels().is_empty());
    for i in 0..TOGGLE_CAPACITY {
        assert!(!planner.toggle_buffer.get(i));
    }
}

#[test]
fn restore_falls_back_on_a_corrupt_offset() {
    let planner = Planner::restore(false, 12, 50, 138, usize::MAX);
    assert_eq!(planner.desired_category, Category::AggressiveFighting);
    assert_eq!(planner.derived_category, Category::AggressiveFighting);
}

#[test]
fn write_actions_change_exactly_their_field() {
    let mut planner = Planner::new();
    planner.select_desired_category(Category::Beverages);
    planner.select_derived_category(Category::Milling);
    planner.set_max_components(7);
    planner.set_max_filler(60);
    planner.set_rarity_flag(true);
    assert_eq!(planner.desired_category, Category::Beverages);
    assert_eq!(planner.derived_category, Category::Milling);
    assert_eq!(planner.max_components_input, 7);
    assert_eq!(planner.max_filler_input, 60);
    assert!(planner.rarity_flag);
}

#[test]
fn begin_generate_snapshots_the_current_inputs() {
    let mut planner = Planner::new();
    planner.select_desired_category(Category::Beverages);
    planner.select_derived_category(Category::CoalMaking);
    planner.set_max_components(4);
    planner.set_max_filler(20);
    planner.set_rarity_flag(true);
    let config = planner.begin_generate().unwrap();
    assert_eq!(config.desired_category, Category::Beverages);
    assert_eq!(config.max_unique_components, 4);
    assert_eq!(config.max_filler_quantity, 20);
    assert!(config.rarity_flag);
    // Derived category equal to the anchor: the identifier is the constant.
    assert_eq!(config.player_identifier, 57);
}

#[test]
fn begin_generate_rejects_out_of_range_inputs() {
    let mut planner = Planner::new();
    planner.set_max_components(0);
    let err = planner.begin_generate().unwrap_err();
    assert_eq!(err.field, ConfigField::MaxUniqueComponents);

    let mut planner = Planner::new();
    planner.set_max_filler(81);
    let err = planner.begin_generate().unwrap_err();
    assert_eq!(err.field, ConfigField::MaxFillerQuantity);
}

#[test]
fn begin_generate_clears_the_buffer_before_any_completion() {
    let mut planner = Planner::new();
    planner.toggle_buffer.set(2, true);
    planner.toggle_buffer.set(14, true);
    let _ = planner.begin_generate().unwrap();
    for i in 0..TOGGLE_CAPACITY {
        assert!(!planner.toggle_buffer.get(i));
    }
}

#[test]
fn begin_generate_keeps_the_previous_result_until_completion() {
    let mut planner = Planner::new();
    let _ = planner.begin_generate().unwrap();
    planner.complete_generate(Some(small_result()));
    let _ = planner.begin_generate().unwrap();
    assert!(planner.latest_result().is_some());
}

#[test]
fn complete_generate_stores_result_and_labels() {
    let mut planner = Planner::new();
    let _ = planner.begin_generate().unwrap();
    planner.complete_generate(Some(small_result()));
    assert_eq!(planner.latest_result().as_ref().unwrap().filler_quantity, 3);
    let labels = planner.latest_labels();
    assert_eq!(labels.len(), 4);
    assert_eq!(labels[0], (Label::Cereal(String::from("rye")), 0));
    assert_eq!(labels[1], (Label::Water, 1));
    assert_eq!(labels[2], (Label::FillerQuantity(3), 2));
    assert_eq!(
        labels[3],
        (
            Label::Component(String::from("carrot"), String::from("chopped")),
            3
        )
    );
}

#[test]
fn completing_with_no_result_empties_the_presentation() {
    let mut planner = Planner::new();
    let _ = planner.begin_generate().unwrap();
    planner.complete_generate(Some(small_result()));
    let _ = planner.begin_generate().unwrap();
    planner.complete_generate(None);
    assert!(planner.latest_result().is_none());
    assert!(planner.latest_labels().is_empty());
    for i in 0..TOGGLE_CAPACITY {
        assert!(!planner.toggle_buffer.get(i));
    }
}
