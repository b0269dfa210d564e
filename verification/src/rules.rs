//! Authoritative, app-defined prompt rules: one per generated artifact type. Each is
//! prepended to the prompt for that artifact and takes precedence over the owner's deck
//! style.
use vstd::prelude::*;

verus! {

/// Suit icons (Cups, Wands, Swords, Pentacles).
pub const SUIT_ICONS: &'static str = "Design four suit icons for a tarot deck, one each for Cups, Wands, Swords and Pentacles. The four icons form one cohesive set: the same line weight, palette and level of detail. Each icon is a single centered emblem on a plain background, instantly recognizable as its suit (a chalice, a staff, a blade, a coin bearing a pentacle). No text, no letters, no numbers, no borders.";

/// Card border / chrome frame.
pub const CARD_BORDER: &'static str = "Design the border of a tarot card: a rectangular frame that surrounds the whole card face and leaves the interior empty for the card imagery. The frame is ornamental but restrained, symmetric left to right, and works for every card of the deck. No text, no figures inside the frame.";

/// Card back: the uniform reverse shown face down.
pub const CARD_BACK: &'static str = "Design the back of a tarot card. The back is identical for every card in the deck, so it carries no suit, number or figure. It is symmetric under a half turn so a card reads the same upside down, with a centered motif and a pattern that fills the card edge to edge. No text.";

/// Card imagery: the artwork on a card face.
pub const BACKGROUND_IMAGE: &'static str = "Paint the card imagery of a tarot card: an evocative illustration of the card's subject that fills the picture area. Keep the figure clear and central, with the traditional symbolism of the card present but never labelled. No text, no border, no frame.";

/// Decorative flourishes.
pub const FLOURISH: &'static str = "Design a decorative flourish for the corner of a tarot card: a small ornament that can be mirrored into the other corners. Fine linework on a transparent or plain background, no text.";

/// Authoritative suit-iconography rules of the DeckForge orchestrator.
pub const ICONOGRAPHY_RULES: &'static str = "Tarot decks have four suits: Cups, Wands, Swords and Pentacles. Every suit icon is a single emblem that reads at small sizes, consistent in style across the four suits, and never carries text.";

} // verus!
