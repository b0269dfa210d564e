use sibyl::prompt::{build_image_prompt, image_prompt_request};
use sibyl::FakeProvider;

#[test]
fn rules_are_prepended_and_authoritative_over_style() {
    let p = build_image_prompt(
        "only line art, no color, sacred geometry",
        "warm watercolor with lots of color",
        "the cups suit emblem",
    );
    assert!(p.contains("AUTHORITATIVE"));
    let rules_pos = p.find("sacred geometry").expect("rules present");
    let style_pos = p.find("warm watercolor").expect("style present");
    assert!(
        rules_pos < style_pos,
        "rules must precede (outrank) style:\n{p}"
    );
    assert!(p.contains("the cups suit emblem"));
}

#[test]
fn empty_style_still_keeps_rules() {
    let p = build_image_prompt("four suits only", "", "a card back");
    assert!(p.contains("AUTHORITATIVE"));
    assert!(p.contains("four suits only"));
    assert!(p.contains("a card back"));
}

#[test]
fn image_prompt_has_exact_layout() {
    let p = build_image_prompt("  R  ", "\tS\n", "subj");
    assert_eq!(
        p,
        "AUTHORITATIVE RULES (override all style direction):\nR\n\n\
         Deck style (subordinate to the rules): S\n\nSubject: subj"
    );
    let q = build_image_prompt("R", "   ", "subj");
    assert!(q.contains(
        "Deck style (subordinate to the rules): \
         (no explicit style given; choose something evocative within the rules)"
    ));
}

#[test]
fn rules_are_authoritative_over_style() {
    let text = FakeProvider::new();
    let req = image_prompt_request(
        "only line art, no color, sacred geometry",
        "warm watercolor with lots of color",
        "suit-set option 0",
        7,
    );
    let composed = text.complete(&req).text;

    // The authoritative rules framing must be present and precede the style direction.
    assert!(composed.contains("AUTHORITATIVE"));
    let rules_pos = composed
        .find("sacred geometry")
        .expect("rules text present");
    let style_pos = composed
        .find("warm watercolor")
        .expect("style text present");
    assert!(
        rules_pos < style_pos,
        "rules must appear before (outrank) style: {composed}"
    );
}

#[test]
fn empty_rules_still_produce_authoritative_framing() {
    let text = FakeProvider::new();
    let req = image_prompt_request("", "dreamy pastels", "ctx", 1);
    let composed = text.complete(&req).text;
    assert!(composed.contains("AUTHORITATIVE"));
    assert!(composed.contains("dreamy pastels"));
    assert_eq!(req.seed, 1);
    assert_eq!(
        req.prompt,
        "Style direction (subordinate to the rules): dreamy pastels. Context: ctx."
    );
}
