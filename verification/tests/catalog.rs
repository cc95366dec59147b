use v12::catalog::{all_categories, category_from_offset, Category, CATALOG_SIZE};

#[test]
fn catalog_has_full_size() {
    assert_eq!(all_categories().len(), CATALOG_SIZE);
    assert_eq!(CATALOG_SIZE, 138);
}

#[test]
fn offsets_enumerate_in_order() {
    for (i, c) in all_categories().iter().enumerate() {
        assert_eq!(c.offset(), i);
    }
}

#[test]
fn offsets_are_injective_and_cover_range() {
    let mut seen = vec![false; CATALOG_SIZE];
    for c in all_categories() {
        let o = c.offset();
        assert!(o < CATALOG_SIZE);
        assert!(!seen[o], "duplicate offset {}", o);
        seen[o] = true;
    }
    assert!(seen.iter().all(|&s| s));
}

#[test]
fn from_offset_inverts_offset() {
    for i in 0..CATALOG_SIZE {
        assert_eq!(category_from_offset(i).offset(), i);
    }
}

#[test]
fn first_and_last_offsets() {
    assert_eq!(Category::AggressiveFighting.offset(), 0);
    assert_eq!(Category::Yoyo.offset(), 137);
    assert_eq!(Category::CoalMaking.offset(), 28);
    assert_eq!(Category::Clubs.offset(), 29);
}

#[test]
fn names_are_stable() {
    assert_eq!(Category::CoalMaking.name(), "CoalMaking");
    assert_eq!(Category::AggressiveFighting.name(), "AggressiveFighting");
    assert_eq!(Category::Yoyo.name(), "Yoyo");
}
