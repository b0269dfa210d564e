//! Deck-creation core for a personal tarot deck: suits and court cards, seeded selection,
//! the wizard's session model, prompt composition, canonical compositing, and the decisions
//! behind each step of the deck-creation pipeline (which images to generate under which
//! prompts and seeds, where they are stored, what approval copies into the bundle).
//!
//! Generation, storage I/O and serialization are performed by the host around these
//! functions; everything here is deterministic given its inputs.

pub mod commands;
pub mod court;
pub mod debug_text;
pub mod errors;
pub mod model;
pub mod pipeline;
pub mod prompt;
pub mod providers;
pub mod render;
pub mod rng;
pub mod rules;
pub mod storage;
pub mod suit;
pub mod text;

pub use commands::{AssetResponse, CommandError};
pub use court::{CourtCardId, CourtRank};
pub use errors::{DeckForgeError, SibylError};
pub use model::{
    Approval, CardStyleGuide, Deck, DeckCreationSession, FlourishRef, FrontLayout,
    GenerationProvenance, Personal, PromptMap, Rect, SampleCard, SessionStatus, ShaderArea,
    StyleOption, SuitIcon,
};
pub use pipeline::approve::RestartInputs;
pub use pipeline::icons::IconStylesResult;
pub use pipeline::session::GenerateIconStyles;
pub use prompt::build_image_prompt;
pub use providers::cli::{AgyCliProvider, ClaudeCliProvider};
pub use providers::error::{ProviderError, ProviderErrorCode, ProviderId};
pub use providers::fake::FakeProvider;
pub use providers::types::{ImageBytes, ImageRequest, Size, TextRequest, TextResponse};
pub use render::{compose, Layer, RenderError};
pub use rng::{select_court_card, sub_seed};
pub use storage::{ActivePointer, FsStore, StoreError};
pub use suit::Suit;

use vstd::prelude::*;

verus! {

/// Fixed seed used by tests and headless runs so the whole pipeline is reproducible.
pub const FIXED_SEED: u64 = 0x5EED_C0DE_1234_5678;

} // verus!
