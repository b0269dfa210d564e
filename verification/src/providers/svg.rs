//! Shared SVG handling for the command-line providers that emit vector art: the "give me one
//! SVG" prompt, and extraction of the `<svg>` document from a noisy response.
use vstd::prelude::*;

use crate::providers::error::{ProviderError, ProviderErrorCode};
use crate::text::{
    chars_of, decimal, find_first, find_last, first_occurrence, has_prefix, has_suffix,
    last_occurrence, lemma_first_occurrence, lemma_last_occurrence, occurs_at, push_decimal,
    string_of, trim, trim_str,
};

verus! {

/// Text of the SVG prompt before the size.
pub open spec fn svg_prompt_head() -> Seq<char> {
    "You are generating vector art for a tarot deck. Output ONLY a single, self-contained, valid SVG document: begin with `<svg` and end with `</svg>`, include a viewBox, and size it "@
}

/// Text of the SVG prompt between the size and the subject.
pub open spec fn svg_prompt_tail() -> Seq<char> {
    ". No prose, no markdown code fences, no explanation. The SVG must be fully self-contained: no external references, no <image>, and no <text> elements.\n\nDepict: "@
}

/// The prompt asking for one self-contained SVG of `w` x `h` depicting `subject`.
pub open spec fn svg_prompt(subject: Seq<char>, w: u32, h: u32) -> Seq<char> {
    svg_prompt_head() + decimal(w as nat) + "x"@ + decimal(h as nat) + svg_prompt_tail() + trim(
        subject,
    )
}

/// Wrap a user image prompt with instructions to return a single self-contained SVG.
pub fn image_prompt(user_prompt: &str, w: u32, h: u32) -> (s: String)
    ensures
        s@ == svg_prompt(user_prompt@, w, h),
{
    let mut s = String::from_str(
        "You are generating vector art for a tarot deck. Output ONLY a single, self-contained, valid SVG document: begin with `<svg` and end with `</svg>`, include a viewBox, and size it ",
    );
    push_decimal(&mut s, w as u64);
    s.append("x");
    push_decimal(&mut s, h as u64);
    s.append(
        ". No prose, no markdown code fences, no explanation. The SVG must be fully self-contained: no external references, no <image>, and no <text> elements.\n\nDepict: ",
    );
    let subject = trim_str(user_prompt);
    s.append(subject.as_str());
    s
}

/// The `<svg>...</svg>` span of a response: from the first `<svg` to the end of the last
/// `</svg>`, when that end lies after the start.
pub open spec fn svg_span(s: Seq<char>) -> Option<Seq<char>> {
    match (first_occurrence(s, "<svg"@), last_occurrence(s, "</svg>"@)) {
        (Some(start), Some(close)) => if close + "</svg>"@.len() > start {
            Some(s.subrange(start, close + "</svg>"@.len()))
        } else {
            None
        },
        _ => None,
    }
}

/// Extract the `<svg>...</svg>` document from a response that may include code fences or
/// prose.
pub fn extract_svg(s: &str) -> (r: Option<String>)
    ensures
        match r {
            Some(t) => svg_span(s@) == Some(t@),
            None => svg_span(s@) is None,
        },
{
    let cs = chars_of(s);
    let open = chars_of("<svg");
    let close = chars_of("</svg>");
    let start = match find_first(&cs, &open) {
        Some(i) => i,
        None => return None,
    };
    let last = match find_last(&cs, &close) {
        Some(i) => i,
        None => return None,
    };
    proof {
        lemma_last_occurrence(cs@, close@);
    }
    assert(cs@.len() == cs.len());
    let end = last + close.len();
    if end > start {
        let span = string_of(&cs.as_slice()[start..end]);
        Some(span)
    } else {
        None
    }
}

/// An extracted document starts with `<svg` and ends with `</svg>`.
pub proof fn lemma_svg_span_is_a_document(s: Seq<char>)
    requires
        svg_span(s) is Some,
    ensures
        has_prefix(svg_span(s)->Some_0, "<svg"@),
        has_suffix(svg_span(s)->Some_0, "</svg>"@),
{
    lemma_first_occurrence(s, "<svg"@);
    lemma_last_occurrence(s, "</svg>"@);
    reveal_strlit("<svg");
    reveal_strlit("</svg>");
    let start = first_occurrence(s, "<svg"@)->Some_0;
    let close = last_occurrence(s, "</svg>"@)->Some_0;
    let t = svg_span(s)->Some_0;
    assert(occurs_at(s, "<svg"@, start));
    assert(occurs_at(s, "</svg>"@, close));
    assert(s[start] == '<') by {
        assert(s.subrange(start, start + 4)[0] == s[start]);
    }
    if close < start {
        assert(s.subrange(close, close + 6)[start - close] == s[start]);
        assert(false);
    }
    assert(t.subrange(0, 4) =~= s.subrange(start, start + 4));
    assert(t.subrange(t.len() - 6, t.len() as int) =~= s.subrange(close, close + 6));
}

/// The SVG document of a command-line response, or a retryable bad-response error when it
/// holds none.
pub fn svg_from_response(raw: &str) -> (r: Result<String, ProviderError>)
    ensures
        match r {
            Ok(t) => svg_span(raw@) == Some(t@),
            Err(e) => svg_span(raw@) is None && e.code == ProviderErrorCode::BadResponse
                && e.retryable && e.message@ == "response did not contain an <svg> document"@,
        },
{
    match extract_svg(raw) {
        Some(t) => Ok(t),
        None => Err(
            ProviderError::new(
                ProviderErrorCode::BadResponse,
                String::from_str("response did not contain an <svg> document"),
                true,
            ),
        ),
    }
}

} // verus!
