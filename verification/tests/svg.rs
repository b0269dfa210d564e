use sibyl::providers::svg::{extract_svg, image_prompt, svg_from_response};
use sibyl::ProviderErrorCode;

#[test]
fn extract_strips_fences_and_prose() {
    let raw = "Here you go:\n```svg\n<svg xmlns='http://www.w3.org/2000/svg' \
               width='8' height='8'><rect width='8' height='8'/></svg>\n```\nDone.";
    let svg = extract_svg(raw).unwrap();
    assert!(svg.starts_with("<svg") && svg.ends_with("</svg>"));
    assert!(!svg.contains("```"));
}

#[test]
fn missing_svg_is_none() {
    assert!(extract_svg("no svg here, sorry").is_none());
}

#[test]
fn extract_spans_first_open_to_last_close() {
    let raw = "x <svg a></svg> y <svg b></svg> z";
    assert_eq!(extract_svg(raw).unwrap(), "<svg a></svg> y <svg b></svg>");
    // A closing tag before any opening one yields nothing.
    assert!(extract_svg("</svg> then <svg").is_none());
}

#[test]
fn missing_svg_is_a_retryable_bad_response() {
    let e = svg_from_response("sorry").unwrap_err();
    assert_eq!(e.code, ProviderErrorCode::BadResponse);
    assert!(e.retryable);
    assert_eq!(e.message, "response did not contain an <svg> document");
}

#[test]
fn svg_prompt_states_size_and_subject() {
    let p = image_prompt("  a chalice  ", 96, 64);
    assert!(p.contains("size it 96x64."));
    assert!(p.ends_with("\n\nDepict: a chalice"));
    assert!(p.starts_with("You are generating vector art for a tarot deck."));
}
