use vstd::prelude::*;

verus! {

/// A tarot suit. The app ships with the standard four.
#[derive(Debug, Clone, Copy, PartialEq, Eq, Hash, Structural)]
pub enum Suit {
    Cups,
    Wands,
    Swords,
    Pentacles,
}

/// The lower-case name of a suit, as it appears in slugs and storage keys.
pub open spec fn suit_name(s: Suit) -> Seq<char> {
    match s {
        Suit::Cups => "cups"@,
        Suit::Wands => "wands"@,
        Suit::Swords => "swords"@,
        Suit::Pentacles => "pentacles"@,
    }
}

impl Suit {
    /// The standard four tarot suits, in canonical order.
    pub const STANDARD: [Suit; 4] = [Suit::Cups, Suit::Wands, Suit::Swords, Suit::Pentacles];

    pub fn as_str(&self) -> (s: &'static str)
        ensures
            s@ == suit_name(*self),
    {
        match self {
            Suit::Cups => "cups",
            Suit::Wands => "wands",
            Suit::Swords => "swords",
            Suit::Pentacles => "pentacles",
        }
    }
}

} // verus!
