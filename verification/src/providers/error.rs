//! Provider-neutral error categories and provider identifiers.
use vstd::prelude::*;

verus! {

/// Provider-neutral error categories. Adapters map vendor failures onto these so callers can
/// decide whether to retry without seeing vendor types.
#[derive(Debug, Clone, Copy, PartialEq, Eq, Structural)]
pub enum ProviderErrorCode {
    Unavailable,
    RateLimited,
    Timeout,
    BadResponse,
    Auth,
}

/// A provider failure: its category, a message and whether retrying may help.
#[derive(Debug, Clone, PartialEq, Eq)]
pub struct ProviderError {
    pub code: ProviderErrorCode,
    pub message: String,
    pub retryable: bool,
}

/// The debug name of an error category.
pub open spec fn code_name(c: ProviderErrorCode) -> Seq<char> {
    match c {
        ProviderErrorCode::Unavailable => "Unavailable"@,
        ProviderErrorCode::RateLimited => "RateLimited"@,
        ProviderErrorCode::Timeout => "Timeout"@,
        ProviderErrorCode::BadResponse => "BadResponse"@,
        ProviderErrorCode::Auth => "Auth"@,
    }
}

/// The display text of a provider failure: `provider error [Code]: message`.
pub open spec fn provider_error_text(e: ProviderError) -> Seq<char> {
    "provider error ["@ + code_name(e.code) + "]: "@ + e.message@
}

impl ProviderError {
    /// The human-readable message.
    pub fn display_text(&self) -> (s: String)
        ensures
            s@ == provider_error_text(*self),
    {
        let name = match self.code {
            ProviderErrorCode::Unavailable => "Unavailable",
            ProviderErrorCode::RateLimited => "RateLimited",
            ProviderErrorCode::Timeout => "Timeout",
            ProviderErrorCode::BadResponse => "BadResponse",
            ProviderErrorCode::Auth => "Auth",
        };
        let mut s = String::from_str("provider error [");
        s.append(name);
        s.append("]: ");
        s.append(self.message.as_str());
        s
    }

    pub fn new(code: ProviderErrorCode, message: String, retryable: bool) -> (e: Self)
        ensures
            e.code == code,
            e.message == message,
            e.retryable == retryable,
    {
        ProviderError { code, message, retryable }
    }

    /// The backend could not be reached; always retryable.
    pub fn unavailable(message: String) -> (e: Self)
        ensures
            e.code == ProviderErrorCode::Unavailable,
            e.message == message,
            e.retryable,
    {
        Self::new(ProviderErrorCode::Unavailable, message, true)
    }
}

/// Stable, non-secret identifier of a provider and model, recorded in provenance.
#[derive(Debug, Clone, PartialEq, Eq)]
pub struct ProviderId {
    pub provider: String,
    pub model: String,
}

impl ProviderId {
    pub fn new(provider: String, model: String) -> (id: Self)
        ensures
            id.provider == provider,
            id.model == model,
    {
        ProviderId { provider, model }
    }
}

} // verus!
