//! Orchestration-level errors. Each carries a `retryable` hint so the wizard can offer a
//! retry without losing the owner's inputs.
use vstd::prelude::*;

use crate::providers::error::ProviderError;
use crate::render::{render_error_text, RenderError};
use crate::storage::{store_error_text, StoreError};

verus! {

/// Errors of the deck-creation pipeline.
#[derive(Debug)]
pub enum SibylError {
    Provider { message: String, retryable: bool },
    Storage(String),
    Render(String),
    UnknownSession(String),
    UnknownOption(String),
    NoStyleSelected,
    NoStyleGuide,
    NothingToApprove,
    InvalidState(String),
}

/// The display text of a pipeline error.
pub open spec fn sibyl_error_text(e: SibylError) -> Seq<char> {
    match e {
        SibylError::Provider { message, .. } => "provider failed: "@ + message@,
        SibylError::Storage(m) => "storage error: "@ + m@,
        SibylError::Render(m) => "render error: "@ + m@,
        SibylError::UnknownSession(id) => "unknown session: "@ + id@,
        SibylError::UnknownOption(id) => "unknown style option: "@ + id@,
        SibylError::NoStyleSelected => "no style selected"@,
        SibylError::NoStyleGuide => "no style guide generated"@,
        SibylError::NothingToApprove => "nothing to approve"@,
        SibylError::InvalidState(m) => "invalid state: "@ + m@,
    }
}

/// A provider failure that says it may succeed on retry.
pub open spec fn is_retryable(e: SibylError) -> bool {
    e matches SibylError::Provider { retryable: true, .. }
}

fn prefixed(head: &str, rest: &str) -> (s: String)
    ensures
        s@ == head@ + rest@,
{
    let mut s = String::from_str(head);
    s.append(rest);
    s
}

impl SibylError {
    /// Only a provider failure marked retryable is worth retrying.
    pub fn retryable(&self) -> (b: bool)
        ensures
            b == is_retryable(*self),
    {
        match self {
            SibylError::Provider { retryable, .. } => *retryable,
            _ => false,
        }
    }

    /// The human-readable message.
    pub fn message(&self) -> (s: String)
        ensures
            s@ == sibyl_error_text(*self),
    {
        match self {
            SibylError::Provider { message, .. } => prefixed("provider failed: ", message.as_str()),
            SibylError::Storage(m) => prefixed("storage error: ", m.as_str()),
            SibylError::Render(m) => prefixed("render error: ", m.as_str()),
            SibylError::UnknownSession(id) => prefixed("unknown session: ", id.as_str()),
            SibylError::UnknownOption(id) => prefixed("unknown style option: ", id.as_str()),
            SibylError::NoStyleSelected => String::from_str("no style selected"),
            SibylError::NoStyleGuide => String::from_str("no style guide generated"),
            SibylError::NothingToApprove => String::from_str("nothing to approve"),
            SibylError::InvalidState(m) => prefixed("invalid state: ", m.as_str()),
        }
    }

    /// A provider failure keeps its message and retry hint.
    pub fn from_provider(e: ProviderError) -> (r: Self)
        ensures
            r == (SibylError::Provider { message: e.message, retryable: e.retryable }),
    {
        SibylError::Provider { message: e.message, retryable: e.retryable }
    }

    /// A storage failure becomes a storage error carrying the store's message.
    pub fn from_store(e: &StoreError) -> (r: Self)
        ensures
            r matches SibylError::Storage(m) && m@ == store_error_text(*e),
    {
        SibylError::Storage(e.message())
    }

    /// A render failure becomes a render error carrying the renderer's message.
    pub fn from_render(e: &RenderError) -> (r: Self)
        ensures
            r matches SibylError::Render(m) && m@ == render_error_text(*e),
    {
        SibylError::Render(e.message())
    }
}

impl From<ProviderError> for SibylError {
    fn from(e: ProviderError) -> (r: Self)
        ensures
            r == (SibylError::Provider { message: e.message, retryable: e.retryable }),
    {
        Self::from_provider(e)
    }
}

impl vstd::std_specs::convert::FromSpecImpl<ProviderError> for SibylError {
    open spec fn obeys_from_spec() -> bool {
        true
    }

    open spec fn from_spec(e: ProviderError) -> Self {
        SibylError::Provider { message: e.message, retryable: e.retryable }
    }
}

impl From<StoreError> for SibylError {
    fn from(e: StoreError) -> (r: Self)
        ensures
            r matches SibylError::Storage(m) && m@ == store_error_text(e),
    {
        Self::from_store(&e)
    }
}

impl vstd::std_specs::convert::FromSpecImpl<StoreError> for SibylError {
    open spec fn obeys_from_spec() -> bool {
        false
    }

    open spec fn from_spec(e: StoreError) -> Self {
        arbitrary()
    }
}

impl From<RenderError> for SibylError {
    fn from(e: RenderError) -> (r: Self)
        ensures
            r matches SibylError::Render(m) && m@ == render_error_text(e),
    {
        Self::from_render(&e)
    }
}

impl vstd::std_specs::convert::FromSpecImpl<RenderError> for SibylError {
    open spec fn obeys_from_spec() -> bool {
        false
    }

    open spec fn from_spec(e: RenderError) -> Self {
        arbitrary()
    }
}

/// A provider that is down surfaces as a retryable pipeline error, so the owner can retry
/// without losing inputs.
pub proof fn lemma_unavailable_is_retryable(e: ProviderError)
    requires
        e.retryable,
    ensures
        is_retryable(SibylError::Provider { message: e.message, retryable: e.retryable }),
{
}

/// Errors of the DeckForge orchestrator, which composes image prompts with a text
/// provider.
#[derive(Debug)]
pub enum DeckForgeError {
    Provider { message: String, retryable: bool },
    Storage(String),
    Render(String),
    UnknownSession(String),
    UnknownOption(String),
    NoStyleSelected,
}

/// The display text of an orchestration error.
pub open spec fn deckforge_error_text(e: DeckForgeError) -> Seq<char> {
    match e {
        DeckForgeError::Provider { message, .. } => "provider failed: "@ + message@,
        DeckForgeError::Storage(m) => "storage error: "@ + m@,
        DeckForgeError::Render(m) => "render error: "@ + m@,
        DeckForgeError::UnknownSession(id) => "unknown session: "@ + id@,
        DeckForgeError::UnknownOption(id) => "unknown style option: "@ + id@,
        DeckForgeError::NoStyleSelected => "no style selected"@,
    }
}

impl DeckForgeError {
    /// Only a provider failure marked retryable is worth retrying.
    pub fn retryable(&self) -> (b: bool)
        ensures
            b == (*self matches DeckForgeError::Provider { retryable: true, .. }),
    {
        match self {
            DeckForgeError::Provider { retryable, .. } => *retryable,
            _ => false,
        }
    }

    /// The human-readable message.
    pub fn message(&self) -> (s: String)
        ensures
            s@ == deckforge_error_text(*self),
    {
        match self {
            DeckForgeError::Provider { message, .. } => prefixed(
                "provider failed: ",
                message.as_str(),
            ),
            DeckForgeError::Storage(m) => prefixed("storage error: ", m.as_str()),
            DeckForgeError::Render(m) => prefixed("render error: ", m.as_str()),
            DeckForgeError::UnknownSession(id) => prefixed("unknown session: ", id.as_str()),
            DeckForgeError::UnknownOption(id) => prefixed("unknown style option: ", id.as_str()),
            DeckForgeError::NoStyleSelected => String::from_str("no style selected"),
        }
    }

    /// A provider failure keeps its message and retry hint.
    pub fn from_provider(e: ProviderError) -> (r: Self)
        ensures
            r == (DeckForgeError::Provider { message: e.message, retryable: e.retryable }),
    {
        DeckForgeError::Provider { message: e.message, retryable: e.retryable }
    }

    /// A storage failure becomes a storage error carrying the store's message.
    pub fn from_store(e: &StoreError) -> (r: Self)
        ensures
            r matches DeckForgeError::Storage(m) && m@ == store_error_text(*e),
    {
        DeckForgeError::Storage(e.message())
    }

    /// A render failure becomes a render error carrying the renderer's message.
    pub fn from_render(e: &RenderError) -> (r: Self)
        ensures
            r matches DeckForgeError::Render(m) && m@ == render_error_text(*e),
    {
        DeckForgeError::Render(e.message())
    }
}

impl From<ProviderError> for DeckForgeError {
    fn from(e: ProviderError) -> (r: Self)
        ensures
            r == (DeckForgeError::Provider { message: e.message, retryable: e.retryable }),
    {
        Self::from_provider(e)
    }
}

impl vstd::std_specs::convert::FromSpecImpl<ProviderError> for DeckForgeError {
    open spec fn obeys_from_spec() -> bool {
        true
    }

    open spec fn from_spec(e: ProviderError) -> Self {
        DeckForgeError::Provider { message: e.message, retryable: e.retryable }
    }
}

impl From<StoreError> for DeckForgeError {
    fn from(e: StoreError) -> (r: Self)
        ensures
            r matches DeckForgeError::Storage(m) && m@ == store_error_text(e),
    {
        Self::from_store(&e)
    }
}

impl vstd::std_specs::convert::FromSpecImpl<StoreError> for DeckForgeError {
    open spec fn obeys_from_spec() -> bool {
        false
    }

    open spec fn from_spec(e: StoreError) -> Self {
        arbitrary()
    }
}

impl From<RenderError> for DeckForgeError {
    fn from(e: RenderError) -> (r: Self)
        ensures
            r matches DeckForgeError::Render(m) && m@ == render_error_text(e),
    {
        Self::from_render(&e)
    }
}

impl vstd::std_specs::convert::FromSpecImpl<RenderError> for DeckForgeError {
    open spec fn obeys_from_spec() -> bool {
        false
    }

    open spec fn from_spec(e: RenderError) -> Self {
        arbitrary()
    }
}

} // verus!
