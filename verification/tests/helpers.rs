//! Exact values of the small helpers: hashes, keys, geometry, text and the command-line
//! adapters' decisions.

use sibyl::commands::asset_mime;
use sibyl::pipeline::approve::{relocate, replace_first_str};
use sibyl::pipeline::sample::{card_height, offset};
use sibyl::pipeline::session::{asset_job, draft_key, drafts_prefix};
use sibyl::providers::cli::{image_size, svg_request_prompt, text_prompt, text_response};
use sibyl::providers::fake::fnv1a;
use sibyl::providers::svg::image_prompt;
use sibyl::rng::fnv_extend;
use sibyl::storage::{active_key, manifest_key};
use sibyl::text::{
    chars_of, ends_with, find_first, find_last, is_blank, is_whitespace, owned, push_decimal,
    push_hex, same_text, starts_with, string_of, trim_str,
};
use sibyl::{
    ActivePointer, AssetResponse, AgyCliProvider, ClaudeCliProvider, FsStore, ImageRequest, Size, TextRequest,
};

#[test]
fn fnv_hashes_have_their_known_values() {
    assert_eq!(sibyl::sub_seed(0, ""), 0xcbf2_9ce4_8422_2325);
    assert_eq!(sibyl::sub_seed(7, "court"), 0xb1a1_e28e_443f_d5af);
    assert_eq!(fnv1a(0, &["a"]), 0x089b_f607_b545_13e0);
    assert_eq!(fnv1a(3, &["ab", "c"]), 0xe040_ca98_b315_ef3c);
    assert_eq!(fnv_extend(0xcbf2_9ce4_8422_2325, b"court") ^ 7, 0xb1a1_e28e_443f_d5af);
}

#[test]
fn storage_keys_are_laid_out_per_deck() {
    assert_eq!(active_key(), "decks/active.json");
    assert_eq!(manifest_key("deck-s1"), "decks/deck-s1/deck.json");
    assert_eq!(drafts_prefix("s1"), "decks/_drafts/s1");
    assert_eq!(draft_key("s1", "sample/front.png"), "decks/_drafts/s1/sample/front.png");
    assert_eq!(ActivePointer::to("d".into()).active_deck_id.as_deref(), Some("d"));
    assert_eq!(ActivePointer::default().active_deck_id, None);
    let job = asset_job("k".into(), "p".into(), 9);
    assert_eq!((job.key.as_str(), job.request.seed), ("k", 9));
    assert_eq!((job.request.size.width, job.request.size.height), (64, 64));
}

#[test]
fn key_segments_drop_traversal_and_empty_pieces() {
    assert_eq!(FsStore::key_segments("../escape.txt"), vec!["escape.txt"]);
    assert_eq!(
        FsStore::key_segments("decks//x/./icons/../cups.png"),
        vec!["decks", "x", "icons", "cups.png"]
    );
    assert!(FsStore::key_segments("").is_empty());
    assert!(FsStore::key_segments("/./..//").is_empty());
    assert_eq!(FsStore::new("/data".into()).base_dir(), "/data");
}

#[test]
fn relocation_replaces_only_the_first_draft_prefix() {
    assert_eq!(
        relocate("decks/_drafts/s1/icons/r0-opt0/cups.png", "s1", "deck-s1"),
        "decks/deck-s1/icons/r0-opt0/cups.png"
    );
    assert_eq!(relocate("elsewhere/a.png", "s1", "deck-s1"), "elsewhere/a.png");
    assert_eq!(replace_first_str("a-b-a-b", "a-", "X"), "Xb-a-b");
    assert_eq!(replace_first_str("abc", "", "X"), "Xabc");
}

#[test]
fn sample_geometry_rounds_height_and_truncates_offsets() {
    assert_eq!(card_height(660), 388);
    assert_eq!(card_height(1000), 256);
    assert_eq!(card_height(1), 256000);
    assert_eq!(offset(100, 256), 25);
    assert_eq!(offset(180, 388), 69);
    assert_eq!(offset(0, 388), 0);
}

#[test]
fn text_helpers_follow_str() {
    assert_eq!(trim_str("  a b \n"), "a b");
    assert!(is_blank(" \t\n"));
    assert!(!is_blank(" x "));
    assert!(is_whitespace('\u{3000}'));
    assert!(!is_whitespace('x'));
    assert!(same_text("abc", "abc"));
    assert!(!same_text("abc", "abd"));
    assert!(starts_with("decks/x", "decks/"));
    assert!(ends_with("a.png", ".png"));
    assert!(!ends_with("png", ".png"));
    let hay = chars_of("<svg><svg>");
    let needle = chars_of("<svg");
    assert_eq!(find_first(&hay, &needle), Some(0));
    assert_eq!(find_last(&hay, &needle), Some(5));
    assert_eq!(find_first(&hay, &chars_of("zz")), None);
    assert_eq!(string_of(&['h', 'i']), "hi");
    assert_eq!(owned("x"), "x");
    let mut s = String::from("n=");
    push_decimal(&mut s, 1203);
    s.push(' ');
    push_hex(&mut s, 0xbeef, 6);
    assert_eq!(s, "n=1203 00beef");
    assert_eq!(asset_mime("a/b.png"), "image/png");
    assert_eq!(asset_mime("a/b.json"), "application/octet-stream");
}

#[test]
fn command_line_adapters_shape_prompts_and_identities() {
    let req = TextRequest { system: "  sys ".into(), prompt: "\tdo it\n".into(), seed: 1 };
    assert_eq!(text_prompt(&req), "sys\n\ndo it");
    assert_eq!(text_response("  out \n").text, "out");
    let img = ImageRequest { prompt: "a cup".into(), seed: 2, size: Size { width: 0, height: 48 } };
    assert_eq!(image_size(&img), (1, 48));
    assert_eq!(svg_request_prompt(&img), image_prompt("a cup", 1, 48));

    let pinned = ClaudeCliProvider::new("bin".into(), Some("m1".into()));
    assert_eq!(pinned.binary_name(), "bin");
    assert_eq!(pinned.model_name().as_deref(), Some("m1"));
    assert_eq!(pinned.id().model, "m1");
    let default_model = ClaudeCliProvider::new("bin".into(), None);
    assert_eq!(default_model.id().provider, "assistant-cli");
    assert_eq!(default_model.id().model, "assistant-code");

    let agy = AgyCliProvider::new("agy".into(), "5m".into());
    assert_eq!(agy.binary_name(), "agy");
    assert_eq!(agy.timeout_value(), "5m");
    assert_eq!(agy.id().provider, "antigravity");
    assert_eq!(agy.id().model, "agy");
}

#[test]
fn key_traversal_is_neutralized() {
    // ".." segments are stripped, so this stays inside the base dir: it names the same path
    // as the plain key.
    assert_eq!(
        FsStore::key_segments("../escape.txt"),
        FsStore::key_segments("escape.txt")
    );
    assert_eq!(FsStore::key_segments("../../a/../b"), vec!["a", "b"]);
}

#[test]
fn asset_payload_is_standard_padded_base64() {
    assert_eq!(AssetResponse::new("a.png", b"Man").base64, "TWFu");
    assert_eq!(AssetResponse::new("a.png", b"Ma").base64, "TWE=");
    assert_eq!(AssetResponse::new("a.png", b"M").base64, "TQ==");
    assert_eq!(AssetResponse::new("a.png", b"").base64, "");
    assert_eq!(AssetResponse::new("a.png", &[0xfb, 0xff, 0xbf]).base64, "+/+/");
}

#[test]
fn command_line_adapters_build_their_argument_lists() {
    let pinned = ClaudeCliProvider::new("bin".into(), Some("m1".into()));
    assert_eq!(
        pinned.print_args("go"),
        vec!["-p", "go", "--output-format", "text", "--model", "m1"]
    );
    let plain = ClaudeCliProvider::new("bin".into(), None);
    assert_eq!(plain.print_args("go"), vec!["-p", "go", "--output-format", "text"]);
    let agy = AgyCliProvider::new("agy".into(), "5m".into());
    assert_eq!(agy.print_args("go"), vec!["-p", "go", "--print-timeout", "5m"]);
}
