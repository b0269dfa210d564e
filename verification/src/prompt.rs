//! The prompt sent for a generated artifact: the artifact's authoritative rules first, then
//! the owner's deck style as subordinate direction, then the specific subject. The composed
//! prompt is what gets recorded in provenance.
use vstd::prelude::*;

use crate::providers::types::TextRequest;
use crate::text::{contains, is_blank, occurs_at, trim, trim_str};

verus! {

/// What stands in for the style line when the owner gave no style.
pub open spec fn no_style_line() -> Seq<char> {
    "(no explicit style given; choose something evocative within the rules)"@
}

/// The style line of a prompt: the trimmed style, or the placeholder when it is blank.
pub open spec fn style_line(style: Seq<char>) -> Seq<char> {
    if trim(style).len() == 0 {
        no_style_line()
    } else {
        trim(style)
    }
}

/// Opening of every image prompt, before the rules.
pub open spec fn rules_heading() -> Seq<char> {
    "AUTHORITATIVE RULES (override all style direction):\n"@
}

/// Text between the rules and the style line.
pub open spec fn style_heading() -> Seq<char> {
    "\n\nDeck style (subordinate to the rules): "@
}

/// Text between the style line and the subject.
pub open spec fn subject_heading() -> Seq<char> {
    "\n\nSubject: "@
}

/// The image prompt: rules heading, trimmed rules, style heading, style line, subject
/// heading, subject.
pub open spec fn image_prompt_text(rules: Seq<char>, style: Seq<char>, subject: Seq<char>) -> Seq<
    char,
> {
    rules_heading() + trim(rules) + style_heading() + style_line(style) + subject_heading()
        + subject
}

/// Compose an image-generation prompt by prepending the artifact `rules` to the owner's
/// `style` and the specific `subject`. Pure: the only model call per artifact is the image
/// generation itself.
pub fn build_image_prompt(rules: &str, style: &str, subject: &str) -> (p: String)
    ensures
        p@ == image_prompt_text(rules@, style@, subject@),
{
    let rules_t = trim_str(rules);
    let style_t = trim_str(style);
    let mut p = String::from_str("AUTHORITATIVE RULES (override all style direction):\n");
    p.append(rules_t.as_str());
    p.append("\n\nDeck style (subordinate to the rules): ");
    if is_blank(style) {
        p.append("(no explicit style given; choose something evocative within the rules)");
    } else {
        p.append(style_t.as_str());
    }
    p.append("\n\nSubject: ");
    p.append(subject);
    p
}

/// Rules come first and outrank the style: the prompt opens with the authoritative
/// heading, the trimmed rules follow it, the style line comes strictly after the rules, and
/// the subject closes the prompt.
pub proof fn lemma_rules_precede_style(rules: Seq<char>, style: Seq<char>, subject: Seq<char>)
    ensures
        ({
            let p = image_prompt_text(rules, style, subject);
            let r_at = rules_heading().len() as int;
            let s_at = r_at + trim(rules).len() + style_heading().len();
            &&& occurs_at(p, "AUTHORITATIVE"@, 0)
            &&& occurs_at(p, trim(rules), r_at)
            &&& occurs_at(p, style_line(style), s_at)
            &&& r_at + trim(rules).len() < s_at
            &&& occurs_at(p, subject, p.len() - subject.len())
            &&& contains(p, trim(rules)) && contains(p, style_line(style)) && contains(p, subject)
        }),
{
    reveal_strlit("AUTHORITATIVE");
    reveal_strlit("AUTHORITATIVE RULES (override all style direction):\n");
    reveal_strlit("\n\nDeck style (subordinate to the rules): ");
    let p = image_prompt_text(rules, style, subject);
    let h = rules_heading();
    let r = trim(rules);
    let m = style_heading();
    let l = style_line(style);
    let t = subject_heading();
    let r_at = h.len() as int;
    let s_at = r_at + r.len() + m.len();
    assert(p == h + r + m + l + t + subject);
    assert(p.subrange(0, 13) =~= "AUTHORITATIVE"@);
    assert(p.subrange(r_at, r_at + r.len()) =~= r);
    assert(p.subrange(s_at, s_at + l.len()) =~= l);
    assert(p.subrange(p.len() - subject.len(), p.len() as int) =~= subject);
}

/// The request the DeckForge orchestrator sends to a text provider to compose an image prompt:
/// the authoritative iconography rules as the system instruction (a default when blank), and
/// the style direction with the context as the prompt.
pub open spec fn iconography_system(rules: Seq<char>) -> Seq<char> {
    if trim(rules).len() == 0 {
        "AUTHORITATIVE ICONOGRAPHY RULES (override all style direction): follow tasteful, coherent tarot iconography conventions."@
    } else {
        "AUTHORITATIVE ICONOGRAPHY RULES (override all style direction): "@ + trim(rules)
    }
}

/// The style-direction prompt of the DeckForge orchestrator.
pub open spec fn style_direction(style: Seq<char>, context: Seq<char>) -> Seq<char> {
    "Style direction (subordinate to the rules): "@ + style_line(style) + ". Context: "@
        + context + "."@
}

/// The text request that composes an image prompt from the authoritative rules and the
/// subordinate deck style; the provider's reply is the prompt.
pub fn image_prompt_request(rules: &str, style: &str, context: &str, seed: u64) -> (req:
    TextRequest)
    ensures
        req.system@ == iconography_system(rules@),
        req.prompt@ == style_direction(style@, context@),
        req.seed == seed,
{
    let system = if is_blank(rules) {
        String::from_str(
            "AUTHORITATIVE ICONOGRAPHY RULES (override all style direction): follow tasteful, coherent tarot iconography conventions.",
        )
    } else {
        let mut s = String::from_str(
            "AUTHORITATIVE ICONOGRAPHY RULES (override all style direction): ",
        );
        let r = trim_str(rules);
        s.append(r.as_str());
        s
    };
    let mut prompt = String::from_str("Style direction (subordinate to the rules): ");
    if is_blank(style) {
        prompt.append("(no explicit style given; choose something evocative within the rules)");
    } else {
        let st = trim_str(style);
        prompt.append(st.as_str());
    }
    prompt.append(". Context: ");
    prompt.append(context);
    prompt.append(".");
    TextRequest { system, prompt, seed }
}

} // verus!
