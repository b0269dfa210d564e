//! The sixteen court (face) cards: the sample card of deck creation is always one of them.
use vstd::prelude::*;

use crate::suit::{suit_name, Suit};

verus! {

/// The four court ranks.
#[derive(Debug, Clone, Copy, PartialEq, Eq, Hash, Structural)]
pub enum CourtRank {
    Page,
    Knight,
    Queen,
    King,
}

/// The lower-case name of a rank.
pub open spec fn rank_name(r: CourtRank) -> Seq<char> {
    match r {
        CourtRank::Page => "page"@,
        CourtRank::Knight => "knight"@,
        CourtRank::Queen => "queen"@,
        CourtRank::King => "king"@,
    }
}

/// The rank in position `i` of [`CourtRank::ALL`].
pub open spec fn rank_at(i: int) -> CourtRank {
    if i == 0 {
        CourtRank::Page
    } else if i == 1 {
        CourtRank::Knight
    } else if i == 2 {
        CourtRank::Queen
    } else {
        CourtRank::King
    }
}

/// The suit in position `i` of [`Suit::STANDARD`].
pub open spec fn suit_at(i: int) -> Suit {
    if i == 0 {
        Suit::Cups
    } else if i == 1 {
        Suit::Wands
    } else if i == 2 {
        Suit::Swords
    } else {
        Suit::Pentacles
    }
}

impl CourtRank {
    /// All ranks, lowest first.
    pub const ALL: [CourtRank; 4] = [
        CourtRank::Page,
        CourtRank::Knight,
        CourtRank::Queen,
        CourtRank::King,
    ];

    pub fn as_str(&self) -> (s: &'static str)
        ensures
            s@ == rank_name(*self),
    {
        match self {
            CourtRank::Page => "page",
            CourtRank::Knight => "knight",
            CourtRank::Queen => "queen",
            CourtRank::King => "king",
        }
    }
}

/// One of the sixteen court cards, e.g. the Queen of Cups.
#[derive(Debug, Clone, Copy, PartialEq, Eq, Hash, Structural)]
pub struct CourtCardId {
    pub rank: CourtRank,
    pub suit: Suit,
}

/// All sixteen court cards, rank-major: every suit of the page, then of the knight, and so on.
pub open spec fn all_court_cards() -> Seq<CourtCardId> {
    Seq::new(16, |i: int| CourtCardId { rank: rank_at(i / 4), suit: suit_at(i % 4) })
}

/// The stable slug of a court card, e.g. `queen-of-cups`.
pub open spec fn slug_of(c: CourtCardId) -> Seq<char> {
    rank_name(c.rank) + "-of-"@ + suit_name(c.suit)
}

impl CourtCardId {
    pub fn new(rank: CourtRank, suit: Suit) -> (c: Self)
        ensures
            c.rank == rank,
            c.suit == suit,
    {
        CourtCardId { rank, suit }
    }

    /// All sixteen court cards, in a stable order (rank-major).
    pub fn all() -> (out: Vec<CourtCardId>)
        ensures
            out@ == all_court_cards(),
    {
        let mut out: Vec<CourtCardId> = Vec::with_capacity(16);
        let ranks = CourtRank::ALL;
        let suits = Suit::STANDARD;
        for r in 0..4usize
            invariant
                out@ == all_court_cards().take(4 * r as int),
                ranks@ == seq![CourtRank::Page, CourtRank::Knight, CourtRank::Queen, CourtRank::King],
                suits@ == seq![Suit::Cups, Suit::Wands, Suit::Swords, Suit::Pentacles],
        {
            for s in 0..4usize
                invariant
                    r < 4,
                    out@ == all_court_cards().take(4 * r + s as int),
                    ranks@ == seq![CourtRank::Page, CourtRank::Knight, CourtRank::Queen, CourtRank::King],
                    suits@ == seq![Suit::Cups, Suit::Wands, Suit::Swords, Suit::Pentacles],
            {
                let c = CourtCardId { rank: ranks[r], suit: suits[s] };
                assert(c == all_court_cards()[4 * r + s as int]);
                out.push(c);
                assert(all_court_cards().take(4 * r + s + 1) == all_court_cards().take(
                    4 * r + s as int,
                ).push(c));
            }
        }
        assert(all_court_cards().take(16) == all_court_cards());
        out
    }

    /// Stable slug, e.g. `queen-of-cups`.
    pub fn slug(&self) -> (s: String)
        ensures
            s@ == slug_of(*self),
    {
        let mut s = String::from_str(self.rank.as_str());
        s.append("-of-");
        s.append(self.suit.as_str());
        s
    }
}

/// Position of a card in [`all_court_cards`].
pub open spec fn court_index(c: CourtCardId) -> int {
    let r = match c.rank {
        CourtRank::Page => 0int,
        CourtRank::Knight => 1int,
        CourtRank::Queen => 2int,
        CourtRank::King => 3int,
    };
    let s = match c.suit {
        Suit::Cups => 0int,
        Suit::Wands => 1int,
        Suit::Swords => 2int,
        Suit::Pentacles => 3int,
    };
    4 * r + s
}

/// There are exactly sixteen court cards: the list holds every court card, each once.
pub proof fn lemma_court_cards_complete_and_distinct(c: CourtCardId)
    ensures
        all_court_cards().len() == 16,
        0 <= court_index(c) < 16,
        all_court_cards()[court_index(c)] == c,
        all_court_cards().contains(c),
        forall|i: int, j: int|
            0 <= i < j < 16 ==> all_court_cards()[i] != all_court_cards()[j],
{
    assert(all_court_cards()[court_index(c)] == c);
    assert forall|i: int, j: int| 0 <= i < j < 16 implies all_court_cards()[i]
        != all_court_cards()[j] by {
        if i / 4 == j / 4 {
            assert(i % 4 != j % 4);
        }
    }
}

/// Distinct court cards have distinct slugs, so a slug names exactly one card.
pub proof fn lemma_slug_injective(a: CourtCardId, b: CourtCardId)
    requires
        slug_of(a) == slug_of(b),
    ensures
        a == b,
{
    reveal_strlit("page");
    reveal_strlit("knight");
    reveal_strlit("queen");
    reveal_strlit("king");
    reveal_strlit("-of-");
    reveal_strlit("cups");
    reveal_strlit("wands");
    reveal_strlit("swords");
    reveal_strlit("pentacles");
    assert(slug_of(a)[0] == rank_name(a.rank)[0]);
    assert(slug_of(b)[0] == rank_name(b.rank)[0]);
    assert(slug_of(a)[1] == rank_name(a.rank)[1]);
    assert(slug_of(b)[1] == rank_name(b.rank)[1]);
    assert(a.rank == b.rank) by {
        match a.rank {
            CourtRank::Page => {},
            CourtRank::Knight => {},
            CourtRank::Queen => {},
            CourtRank::King => {},
        }
    }
    let k = rank_name(a.rank).len() + 4int;
    assert(slug_of(a)[k] == suit_name(a.suit)[0]);
    assert(slug_of(b)[k] == suit_name(b.suit)[0]);
    assert(a.suit == b.suit) by {
        match a.suit {
            Suit::Cups => {},
            Suit::Wands => {},
            Suit::Swords => {},
            Suit::Pentacles => {},
        }
    }
}

} // verus!
