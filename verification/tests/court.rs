use sibyl::court::{CourtCardId, CourtRank};
use sibyl::suit::Suit;

#[test]
fn there_are_exactly_sixteen_court_cards() {
    let all = CourtCardId::all();
    assert_eq!(all.len(), 16);

    // All unique.
    let mut seen = std::collections::HashSet::new();
    for c in &all {
        assert!(seen.insert((c.rank, c.suit)), "duplicate court card {}", c.slug());
    }
}

#[test]
fn court_card_slug_is_rank_of_suit() {
    let c = CourtCardId::new(CourtRank::Queen, Suit::Cups);
    assert_eq!(c.slug(), "queen-of-cups");
}

#[test]
fn standard_suit_set_has_four() {
    assert_eq!(Suit::STANDARD.len(), 4);
}

#[test]
fn court_cards_are_rank_major() {
    let all = CourtCardId::all();
    assert_eq!(all[0], CourtCardId::new(CourtRank::Page, Suit::Cups));
    assert_eq!(all[3], CourtCardId::new(CourtRank::Page, Suit::Pentacles));
    assert_eq!(all[4], CourtCardId::new(CourtRank::Knight, Suit::Cups));
    assert_eq!(all[15], CourtCardId::new(CourtRank::King, Suit::Pentacles));
}

#[test]
fn every_slug_names_one_card() {
    let all = CourtCardId::all();
    let slugs: std::collections::HashSet<String> = all.iter().map(|c| c.slug()).collect();
    assert_eq!(slugs.len(), 16);
    assert_eq!(
        CourtCardId::new(CourtRank::Knight, Suit::Pentacles).slug(),
        "knight-of-pentacles"
    );
    assert_eq!(CourtRank::King.as_str(), "king");
    assert_eq!(Suit::Swords.as_str(), "swords");
}
