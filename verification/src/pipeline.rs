//! The decisions of each deck-creation step, as functions from the stored session (and what
//! the providers returned) to the next session and the work to perform: which images to
//! generate under which prompts and seeds, which storage keys to write, what to copy on
//! approval. The host performs that work in the order given and persists the session.
pub mod approve;
pub mod icons;
pub mod sample;
pub mod session;
pub mod style_guide;
