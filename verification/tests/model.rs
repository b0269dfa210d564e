use sibyl::model::{Personal, PromptMap, StyleOption, SuitIcon};
use sibyl::suit::Suit;

#[test]
fn personal_debug_is_redacted() {
    let secret = Personal::from("my mother's garden and the number 7");
    let rendered = secret.debug_text();
    assert!(
        !rendered.contains("garden"),
        "personal data leaked: {rendered}"
    );
    assert!(rendered.contains("redacted"));
}

#[test]
fn personal_empty_debug_is_marked_empty_not_redacted() {
    let empty = Personal::default();
    assert_eq!(empty.debug_text(), "Personal(<empty>)");
}

#[test]
fn style_option_requires_every_suit() {
    let full = StyleOption {
        id: "a".into(),
        label: "Option A".into(),
        suit_icons: Suit::STANDARD
            .iter()
            .map(|s| SuitIcon {
                suit: *s,
                image_key: format!("k/{}", s.as_str()),
            })
            .collect(),
        prompt_used: "p".into(),
    };
    assert!(full.covers_all_suits(&Suit::STANDARD));

    let missing = StyleOption {
        suit_icons: vec![SuitIcon {
            suit: Suit::Cups,
            image_key: "k".into(),
        }],
        ..full.clone()
    };
    assert!(!missing.covers_all_suits(&Suit::STANDARD));
}

#[test]
fn personal_blank_text_counts_as_empty() {
    assert!(Personal::from("  \t\n ").is_empty());
    assert!(Personal::from("").is_empty());
    assert!(!Personal::from("  gold ").is_empty());
    assert_eq!(Personal::from("  gold ").as_str(), "  gold ");
}

#[test]
fn prompt_map_reads_back_what_was_written() {
    let mut m = PromptMap::new();
    assert!(!m.contains_key("cardBorder"));
    m.insert("cardBorder".into(), "first".into());
    m.insert("cardBack".into(), "back".into());
    assert_eq!(m.get("cardBorder").map(|s| s.as_str()), Some("first"));
    // Writing the same key again replaces the prompt and keeps one entry per key.
    m.insert("cardBorder".into(), "second".into());
    assert_eq!(m.get("cardBorder").map(|s| s.as_str()), Some("second"));
    assert_eq!(m.get("cardBack").map(|s| s.as_str()), Some("back"));
    assert_eq!(m.pairs().len(), 2);
    assert!(m.get("flourish").is_none());
}

#[test]
fn prompts_are_kept_in_key_order_and_replaced_in_place() {
    let mut m = PromptMap::new();
    m.insert("sampleImagery".into(), "s".into());
    m.insert("cardBorder".into(), "b".into());
    m.insert("flourish".into(), "f".into());
    m.insert("cardBack".into(), "k".into());
    m.insert("cardBorder".into(), "b2".into());
    let keys: Vec<&str> = m.pairs().iter().map(|(k, _)| k.as_str()).collect();
    assert_eq!(keys, vec!["cardBack", "cardBorder", "flourish", "sampleImagery"]);
    assert_eq!(m.get("cardBorder").map(String::as_str), Some("b2"));
    assert!(m.contains_key("flourish"));
    assert!(!m.contains_key("card"));
    assert_eq!(m.get("missing"), None);
    let mut n = PromptMap::new();
    n.insert("b".into(), "1".into());
    n.insert("a".into(), "2".into());
    n.insert("ab".into(), "3".into());
    n.insert("".into(), "4".into());
    let keys: Vec<&str> = n.pairs().iter().map(|(k, _)| k.as_str()).collect();
    assert_eq!(keys, vec!["", "a", "ab", "b"]);
}
