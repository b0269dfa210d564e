//! The deterministic, offline provider for tests and local development: its output is a pure
//! function of the request, so the whole pipeline reproduces with no network.
use vstd::prelude::*;
use vstd::utf8::encode_utf8;

use crate::providers::error::{ProviderError, ProviderErrorCode, ProviderId};
use crate::providers::types::{ImageBytes, ImageRequest, TextRequest, TextResponse};
use crate::render::{encode_png, png_encoding, solid, solid_canvas};
use crate::rng::{fnv_extend, fnv_fold, fnv_step, FNV_OFFSET, FNV_PRIME};
use crate::text::{trim, trim_str};

verus! {

/// Deterministic, offline provider.
#[derive(Debug, Clone, Copy, Default)]
pub struct FakeProvider;

/// FNV-1a over the parts, each followed by a `,` separator byte, starting from the seed.
pub open spec fn fnv_parts(seed: u64, parts: Seq<Seq<u8>>) -> u64
    decreases parts.len(),
{
    if parts.len() == 0 {
        FNV_OFFSET ^ seed
    } else {
        fnv_step(fnv_fold(fnv_parts(seed, parts.drop_last()), parts.last()), 0x2c)
    }
}

/// The UTF-8 bytes of each part.
pub open spec fn part_bytes(parts: Seq<&str>) -> Seq<Seq<u8>> {
    parts.map_values(|p: &str| encode_utf8(p@))
}

/// Stable FNV-1a hash over the parts, used to derive deterministic output.
pub fn fnv1a(seed: u64, parts: &[&str]) -> (h: u64)
    ensures
        h == fnv_parts(seed, part_bytes(parts@)),
{
    let mut hash: u64 = FNV_OFFSET ^ seed;
    let n = parts.len();
    for i in 0..n
        invariant
            n == parts@.len(),
            hash == fnv_parts(seed, part_bytes(parts@).take(i as int)),
    {
        assert(part_bytes(parts@).take(i + 1).drop_last() == part_bytes(parts@).take(i as int));
        hash = fnv_extend(hash, parts[i].as_bytes());
        hash = (hash ^ 0x2c).wrapping_mul(FNV_PRIME);
    }
    assert(part_bytes(parts@).take(n as int) == part_bytes(parts@));
    hash
}

/// `v` limited to `lo..=hi` (`clamp`).
pub open spec fn clamped(v: u32, lo: u32, hi: u32) -> u32 {
    if v < lo {
        lo
    } else if v > hi {
        hi
    } else {
        v
    }
}

/// The colour of the fake image for a request: the low three bytes of the hash, opaque.
pub open spec fn fake_color(req: ImageRequest) -> Seq<u8> {
    let h = fnv_parts(req.seed, seq![encode_utf8(req.prompt@)]);
    seq![(h & 0xff) as u8, ((h >> 8) & 0xff) as u8, ((h >> 16) & 0xff) as u8, 255u8]
}

/// The fake text completion: system then prompt, each trimmed, joined by ` || `.
pub open spec fn fake_completion(req: TextRequest) -> Seq<char> {
    trim(trim(req.system@) + " || "@ + trim(req.prompt@))
}

impl FakeProvider {
    pub fn new() -> (p: Self) {
        FakeProvider
    }

    /// Echo the composition deterministically, preserving the system-then-prompt order.
    pub fn complete(&self, req: &TextRequest) -> (r: TextResponse)
        ensures
            r.text@ == fake_completion(*req),
    {
        let mut text = trim_str(req.system.as_str());
        text.append(" || ");
        let p = trim_str(req.prompt.as_str());
        text.append(p.as_str());
        TextResponse { text: trim_str(text.as_str()) }
    }

    /// A tiny solid-colour PNG whose colour is a hash of the prompt and seed; the size is
    /// the requested one limited to `8..=64` pixels on each side. It always succeeds.
    pub fn generate(&self, req: &ImageRequest) -> (r: Result<ImageBytes, ProviderError>)
        ensures
            r is Ok,
            ({
                let w = clamped(req.size.width, 8, 64);
                let h = clamped(req.size.height, 8, 64);
                let enc = png_encoding(w, h, solid(w as nat, h as nat, fake_color(*req)));
                match r {
                    Ok(img) => img.mime@ == "image/png"@ && enc == Ok::<Seq<u8>, Seq<char>>(
                        img.bytes@,
                    ),
                    Err(e) => e.code == ProviderErrorCode::BadResponse && !e.retryable && enc
                        == Err::<Seq<u8>, Seq<char>>(e.message@),
                }
            }),
    {
        let parts = [req.prompt.as_str()];
        let h = fnv1a(req.seed, &parts);
        assert(part_bytes(parts@) == seq![encode_utf8(req.prompt@)]);
        let r = (h & 0xff) as u8;
        let g = ((h >> 8) & 0xff) as u8;
        let b = ((h >> 16) & 0xff) as u8;
        let w = if req.size.width < 8 {
            8
        } else if req.size.width > 64 {
            64
        } else {
            req.size.width
        };
        let hp = if req.size.height < 8 {
            8
        } else if req.size.height > 64 {
            64
        } else {
            req.size.height
        };
        let color = [r, g, b, 255u8];
        assert(color@ == fake_color(*req));
        assert(4 * w * hp <= 4 * 64 * 64) by (nonlinear_arith)
            requires
                w <= 64,
                hp <= 64,
        ;
        let pixels = solid_canvas(w, hp, color);
        match encode_png(w, hp, pixels) {
            Ok(bytes) => Ok(ImageBytes { mime: String::from_str("image/png"), bytes }),
            Err(e) => Err(ProviderError::new(ProviderErrorCode::BadResponse, e, false)),
        }
    }

    /// Identity of the text side.
    pub fn text_id(&self) -> (id: ProviderId)
        ensures
            id.provider@ == "fake"@,
            id.model@ == "fake-text-1"@,
    {
        ProviderId::new(String::from_str("fake"), String::from_str("fake-text-1"))
    }

    /// Identity of the image side.
    pub fn image_id(&self) -> (id: ProviderId)
        ensures
            id.provider@ == "fake"@,
            id.model@ == "fake-image-1"@,
    {
        ProviderId::new(String::from_str("fake"), String::from_str("fake-image-1"))
    }
}

} // verus!
