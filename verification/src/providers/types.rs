//! Provider-neutral requests and responses.
use vstd::prelude::*;

verus! {

/// Requested image size in pixels.
#[derive(Debug, Clone, Copy, PartialEq, Eq, Structural)]
pub struct Size {
    pub width: u32,
    pub height: u32,
}

impl Default for Size {
    fn default() -> (s: Self)
        ensures
            s.width == 512,
            s.height == 512,
    {
        Size { width: 512, height: 512 }
    }
}

/// A text-generation request: the authoritative system instruction and the prompt.
#[derive(Debug, Clone)]
pub struct TextRequest {
    /// System-level, authoritative instruction (e.g. the iconography rules).
    pub system: String,
    pub prompt: String,
    pub seed: u64,
}

#[derive(Debug, Clone)]
pub struct TextResponse {
    pub text: String,
}

/// An image-generation request.
#[derive(Debug, Clone)]
pub struct ImageRequest {
    pub prompt: String,
    pub seed: u64,
    pub size: Size,
}

/// Encoded image bytes and their MIME type.
#[derive(Debug, Clone, PartialEq, Eq)]
pub struct ImageBytes {
    pub mime: String,
    pub bytes: Vec<u8>,
}

} // verus!
