use v12::present::{present, ComponentEntry, Label, RecipeResult, ToggleBuffer, TOGGLE_CAPACITY};

fn sample_result(components: usize) -> RecipeResult {
    let mut ordered_components = Vec::new();
    for i in 0..components {
        ordered_components.push(ComponentEntry {
            component: format!("component-{}", i),
            processing: format!("processing-{}", i),
        });
    }
    RecipeResult {
        cereal: String::from("barley"),
        filler_quantity: 9,
        ordered_components,
    }
}

fn flags(buffer: &ToggleBuffer) -> Vec<bool> {
    (0..TOGGLE_CAPACITY).map(|i| buffer.get(i)).collect()
}

#[test]
fn new_buffer_is_all_false() {
    let buffer = ToggleBuffer::new();
    assert!(flags(&buffer).iter().all(|&f| !f));
}

#[test]
fn set_and_get_round_trip() {
    let mut buffer = ToggleBuffer::new();
    buffer.set(4, true);
    assert!(buffer.get(4));
    assert!(!buffer.get(3));
    buffer.set(4, false);
    assert!(!buffer.get(4));
}

#[test]
fn clear_resets_every_flag() {
    let mut buffer = ToggleBuffer::new();
    for i in 0..TOGGLE_CAPACITY {
        buffer.set(i, true);
    }
    buffer.clear();
    assert!(flags(&buffer).iter().all(|&f| !f));
}

#[test]
fn absent_result_gives_no_labels_and_a_clear_buffer() {
    let mut buffer = ToggleBuffer::new();
    buffer.set(0, true);
    buffer.set(14, true);
    let labels = present(&None, &mut buffer);
    assert!(labels.is_empty());
    assert!(flags(&buffer).iter().all(|&f| !f));
}

#[test]
fn present_binds_exactly_the_result_shape() {
    let mut buffer = ToggleBuffer::new();
    let result = Some(sample_result(2));
    let labels = present(&result, &mut buffer);
    assert_eq!(labels.len(), 5);
    for (i, (_, index)) in labels.iter().enumerate() {
        assert_eq!(*index, i);
    }
    assert_eq!(labels[0].0, Label::Cereal(String::from("barley")));
    assert_eq!(labels[1].0, Label::Water);
    assert_eq!(labels[2].0, Label::FillerQuantity(9));
    assert_eq!(
        labels[3].0,
        Label::Component(String::from("component-0"), String::from("processing-0"))
    );
    assert_eq!(
        labels[4].0,
        Label::Component(String::from("component-1"), String::from("processing-1"))
    );
}

#[test]
fn present_with_no_components_still_binds_the_three_fixed_slots() {
    let mut buffer = ToggleBuffer::new();
    let labels = present(&Some(sample_result(0)), &mut buffer);
    assert_eq!(labels.len(), 3);
    assert_eq!(labels[2].0, Label::FillerQuantity(9));
}

#[test]
fn present_with_the_largest_result_fills_every_slot() {
    let mut buffer = ToggleBuffer::new();
    let labels = present(&Some(sample_result(12)), &mut buffer);
    assert_eq!(labels.len(), TOGGLE_CAPACITY);
    assert_eq!(labels.last().unwrap().1, TOGGLE_CAPACITY - 1);
}

#[test]
fn stale_flags_do_not_survive_a_differently_shaped_result() {
    let mut buffer = ToggleBuffer::new();
    // A previous, larger result left high slots toggled on.
    buffer.set(14, true);
    buffer.set(5, true);
    let labels = present(&Some(sample_result(1)), &mut buffer);
    assert_eq!(labels.len(), 4);
    assert!(flags(&buffer).iter().all(|&f| !f));
}
