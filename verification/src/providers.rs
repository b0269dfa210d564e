//! The provider seam: provider-neutral requests, responses and errors, the deterministic
//! offline provider, and the pure parts of the command-line adapters.
pub mod cli;
pub mod error;
pub mod fake;
pub mod svg;
pub mod types;
