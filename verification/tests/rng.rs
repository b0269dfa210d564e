use sibyl::rng::{select_court_card, sub_seed};
use sibyl::FIXED_SEED;

#[test]
fn court_card_selection_is_deterministic_for_a_seed() {
    let a = select_court_card(FIXED_SEED);
    let b = select_court_card(FIXED_SEED);
    assert_eq!(a, b, "same seed must select the same court card");
}

#[test]
fn different_seeds_can_select_different_cards() {
    // Across a spread of seeds we must see more than one distinct court card.
    let mut seen = std::collections::HashSet::new();
    for s in 0..64u64 {
        seen.insert(select_court_card(s));
    }
    assert!(seen.len() > 1, "selection should vary across seeds");
}

#[test]
fn sub_seed_is_stable_and_label_sensitive() {
    assert_eq!(sub_seed(FIXED_SEED, "cups"), sub_seed(FIXED_SEED, "cups"));
    assert_ne!(sub_seed(FIXED_SEED, "cups"), sub_seed(FIXED_SEED, "wands"));
}

#[test]
fn sub_seed_is_fnv1a_mixed_with_the_seed() {
    // FNV-1a of the empty label is the offset basis; of "a" it is the published vector.
    assert_eq!(sub_seed(0, ""), 0xcbf2_9ce4_8422_2325);
    assert_eq!(sub_seed(0, "a"), 0xaf63_dc4c_8601_ec8c);
    assert_eq!(sub_seed(0xff, "a"), 0xaf63_dc4c_8601_ec8c ^ 0xff);
}

#[test]
fn selected_card_is_always_a_court_card() {
    let all = sibyl::CourtCardId::all();
    for s in 0..32u64 {
        assert!(all.contains(&select_court_card(s)));
    }
}
