//! The command layer's pure mapping: pipeline errors to `{ code, message, retryable }` and
//! stored assets to a `{ key, mime, base64 }` payload.
use base64::Engine;
use vstd::prelude::*;

use crate::errors::{is_retryable, sibyl_error_text, SibylError};
use crate::text::{ends_with, has_suffix};

verus! {

/// Structured command error: a stable code, the message, and whether to offer a retry.
#[derive(Debug, Clone, PartialEq, Eq)]
pub struct CommandError {
    pub code: String,
    pub message: String,
    pub retryable: bool,
}

/// The stable code of each pipeline error.
pub open spec fn error_code(e: SibylError) -> Seq<char> {
    match e {
        SibylError::Provider { .. } => "provider_failed"@,
        SibylError::Storage(_) => "storage_error"@,
        SibylError::Render(_) => "render_error"@,
        SibylError::UnknownSession(_) => "unknown_session"@,
        SibylError::UnknownOption(_) => "unknown_option"@,
        SibylError::NoStyleSelected => "no_style_selected"@,
        SibylError::NoStyleGuide => "no_style_guide"@,
        SibylError::NothingToApprove => "nothing_to_approve"@,
        SibylError::InvalidState(_) => "invalid_state"@,
    }
}

impl CommandError {
    /// Map a pipeline error to its code, its message and its retry hint.
    pub fn from_error(e: &SibylError) -> (c: Self)
        ensures
            c.code@ == error_code(*e),
            c.message@ == sibyl_error_text(*e),
            c.retryable == is_retryable(*e),
    {
        let code = match e {
            SibylError::Provider { .. } => "provider_failed",
            SibylError::Storage(_) => "storage_error",
            SibylError::Render(_) => "render_error",
            SibylError::UnknownSession(_) => "unknown_session",
            SibylError::UnknownOption(_) => "unknown_option",
            SibylError::NoStyleSelected => "no_style_selected",
            SibylError::NoStyleGuide => "no_style_guide",
            SibylError::NothingToApprove => "nothing_to_approve",
            SibylError::InvalidState(_) => "invalid_state",
        };
        CommandError {
            code: String::from_str(code),
            retryable: e.retryable(),
            message: e.message(),
        }
    }
}

impl From<SibylError> for CommandError {
    fn from(e: SibylError) -> (c: Self)
        ensures
            c.code@ == error_code(e),
            c.message@ == sibyl_error_text(e),
            c.retryable == is_retryable(e),
    {
        Self::from_error(&e)
    }
}

impl vstd::std_specs::convert::FromSpecImpl<SibylError> for CommandError {
    open spec fn obeys_from_spec() -> bool {
        false
    }

    open spec fn from_spec(e: SibylError) -> Self {
        arbitrary()
    }
}

/// A stored asset as the frontend receives it.
#[derive(Debug, Clone, PartialEq, Eq)]
pub struct AssetResponse {
    pub key: String,
    pub mime: String,
    pub base64: String,
}

/// The base64 digit of a six-bit value: `A`-`Z`, `a`-`z`, `0`-`9`, `+`, `/`.
pub open spec fn b64_digit(v: u32) -> char {
    if v < 26 {
        ((65 + v) as u32) as char
    } else if v < 52 {
        ((71 + v) as u32) as char
    } else if v < 62 {
        ((v - 4) as u32) as char
    } else if v == 62 {
        '+'
    } else {
        '/'
    }
}

/// The six-bit value of a base64 digit (padding and other characters count as zero).
pub open spec fn b64_value(c: char) -> u32 {
    let u = c as u32;
    if 65 <= u <= 90 {
        (u - 65) as u32
    } else if 97 <= u <= 122 {
        (u - 71) as u32
    } else if 48 <= u <= 57 {
        (u + 4) as u32
    } else if u == 43 {
        62
    } else if u == 47 {
        63
    } else {
        0
    }
}

/// Three bytes as one 24-bit group, most significant first.
pub open spec fn b64_group(b0: u8, b1: u8, b2: u8) -> u32 {
    ((b0 as u32) << 16u32) | ((b1 as u32) << 8u32) | (b2 as u32)
}

/// The six bits of a group starting at bit `shift`.
pub open spec fn b64_sextet(n: u32, shift: u32) -> u32 {
    (n >> shift) & 63u32
}

/// The standard base64 encoding of `bytes` (RFC 4648 alphabet, padded with `=`): each group
/// of three bytes becomes four digits; a last group of one or two bytes becomes two or three
/// digits and `==` or `=`.
pub open spec fn base64_encode(bytes: Seq<u8>) -> Seq<char>
    decreases bytes.len(),
{
    if bytes.len() == 0 {
        Seq::empty()
    } else if bytes.len() == 1 {
        let n = b64_group(bytes[0], 0, 0);
        seq![b64_digit(b64_sextet(n, 18)), b64_digit(b64_sextet(n, 12)), '=', '=']
    } else if bytes.len() == 2 {
        let n = b64_group(bytes[0], bytes[1], 0);
        seq![
            b64_digit(b64_sextet(n, 18)),
            b64_digit(b64_sextet(n, 12)),
            b64_digit(b64_sextet(n, 6)),
            '=',
        ]
    } else {
        let n = b64_group(bytes[0], bytes[1], bytes[2]);
        seq![
            b64_digit(b64_sextet(n, 18)),
            b64_digit(b64_sextet(n, 12)),
            b64_digit(b64_sextet(n, 6)),
            b64_digit(b64_sextet(n, 0)),
        ] + base64_encode(bytes.skip(3))
    }
}

/// Decoding of padded base64: each four digits give three bytes, or two before one `=`, or
/// one before `==`.
pub open spec fn base64_decode(s: Seq<char>) -> Seq<u8>
    decreases s.len(),
{
    if s.len() < 4 {
        Seq::empty()
    } else {
        let m = (b64_value(s[0]) << 18u32) | (b64_value(s[1]) << 12u32) | (b64_value(s[2])
            << 6u32) | b64_value(s[3]);
        let b0 = ((m >> 16u32) & 255u32) as u8;
        let b1 = ((m >> 8u32) & 255u32) as u8;
        let b2 = (m & 255u32) as u8;
        let head = if s[2] == '=' {
            seq![b0]
        } else if s[3] == '=' {
            seq![b0, b1]
        } else {
            seq![b0, b1, b2]
        };
        head + base64_decode(s.skip(4))
    }
}

proof fn lemma_b64_digit_value(v: u32)
    requires
        v < 64,
    ensures
        b64_value(b64_digit(v)) == v,
        b64_digit(v) != '=',
{
    assert(('=' as u32) == 61);
}

proof fn lemma_b64_group_bits(b0: u32, b1: u32, b2: u32)
    by (bit_vector)
    requires
        b0 < 256,
        b1 < 256,
        b2 < 256,
    ensures
        ({
            let n = (b0 << 16u32) | (b1 << 8u32) | b2;
            let m = ((((n >> 18u32) & 63u32) << 18u32) | (((n >> 12u32) & 63u32) << 12u32) | (((n
                >> 6u32) & 63u32) << 6u32) | ((n >> 0u32) & 63u32));
            &&& m == n
            &&& ((n >> 16u32) & 255u32) == b0
            &&& ((n >> 8u32) & 255u32) == b1
            &&& (n & 255u32) == b2
            &&& (n >> 18u32) & 63u32 < 64
            &&& (n >> 12u32) & 63u32 < 64
            &&& (n >> 6u32) & 63u32 < 64
            &&& (n >> 0u32) & 63u32 < 64
            &&& (b2 == 0 ==> (n >> 0u32) & 63u32 == 0)
            &&& (b1 == 0 && b2 == 0 ==> (n >> 6u32) & 63u32 == 0)
        }),
{
}

/// Base64 loses nothing: decoding the encoding of any bytes gives those bytes back.
pub proof fn lemma_base64_round_trip(bytes: Seq<u8>)
    ensures
        base64_decode(base64_encode(bytes)) == bytes,
    decreases bytes.len(),
{
    if bytes.len() == 0 {
        return;
    }
    let b0 = bytes[0];
    let b1: u8 = if bytes.len() >= 2 { bytes[1] } else { 0 };
    let b2: u8 = if bytes.len() >= 3 { bytes[2] } else { 0 };
    let n = b64_group(b0, b1, b2);
    lemma_b64_group_bits(b0 as u32, b1 as u32, b2 as u32);
    let v0 = b64_sextet(n, 18);
    let v1 = b64_sextet(n, 12);
    let v2 = b64_sextet(n, 6);
    let v3 = b64_sextet(n, 0);
    lemma_b64_digit_value(v0);
    lemma_b64_digit_value(v1);
    lemma_b64_digit_value(v2);
    lemma_b64_digit_value(v3);
    let e = base64_encode(bytes);
    assert(('=' as u32) == 61);
    assert(b64_value('=') == 0);
    assert(base64_decode(Seq::<char>::empty()) == Seq::<u8>::empty());
    if bytes.len() == 1 {
        assert(b64_group(bytes[0], 0, 0) == n);
        assert(e.skip(4) =~= Seq::<char>::empty());
        assert(e[2] == '=' && e[3] == '=');
        assert(base64_decode(e) =~= seq![b0] + base64_decode(e.skip(4)));
        assert(bytes =~= seq![b0]);
    } else if bytes.len() == 2 {
        assert(b64_group(bytes[0], bytes[1], 0) == n);
        assert(e.skip(4) =~= Seq::<char>::empty());
        assert(e[2] != '=' && e[3] == '=');
        assert(base64_decode(e) =~= seq![b0, b1] + base64_decode(e.skip(4)));
        assert(bytes =~= seq![b0, b1]);
    } else {
        let rest = bytes.skip(3);
        lemma_base64_round_trip(rest);
        assert(e.skip(4) =~= base64_encode(rest));
        assert(bytes =~= seq![b0, b1, b2] + rest);
        assert(base64_decode(e) =~= seq![b0, b1, b2] + base64_decode(base64_encode(rest)));
    }
}

/// Encodes with base64's `general_purpose::STANDARD` engine: the standard alphabet, padded.
#[verifier::external_body]
fn encode_base64(bytes: &[u8]) -> (s: String)
    ensures
        s@ == base64_encode(bytes@),
{
    base64::engine::general_purpose::STANDARD.encode(bytes)
}

/// The MIME type of a stored key: PNG for `.png` keys, otherwise opaque bytes.
pub open spec fn mime_of(key: Seq<char>) -> Seq<char> {
    if has_suffix(key, ".png"@) {
        "image/png"@
    } else {
        "application/octet-stream"@
    }
}

/// The MIME type of a stored key.
pub fn asset_mime(key: &str) -> (m: &'static str)
    ensures
        m@ == mime_of(key@),
{
    if ends_with(key, ".png") {
        "image/png"
    } else {
        "application/octet-stream"
    }
}

impl AssetResponse {
    /// The payload for the bytes stored under `key`.
    pub fn new(key: &str, bytes: &[u8]) -> (a: Self)
        ensures
            a.key@ == key@,
            a.mime@ == mime_of(key@),
            a.base64@ == base64_encode(bytes@),
    {
        AssetResponse {
            key: String::from_str(key),
            mime: String::from_str(asset_mime(key)),
            base64: encode_base64(bytes),
        }
    }
}

} // verus!
