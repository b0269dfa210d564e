//! Personal data must never appear in debug output.

use sibyl::{
    Approval, CardStyleGuide, CourtCardId, CourtRank, DeckCreationSession, FlourishRef,
    FrontLayout, GenerationProvenance, Personal, Rect, SampleCard, ShaderArea, Suit,
};

#[test]
fn provenance_debug_redacts_personal_fields() {
    let prov = GenerationProvenance {
        seed: 1,
        iconography_rules: Personal::from("secret iconography rules"),
        deck_style_text: Personal::from("secret personal style"),
        ..Default::default()
    };
    let dbg = prov.debug_text();
    assert!(
        !dbg.contains("secret"),
        "provenance leaked personal data: {dbg}"
    );
}

#[test]
fn provenance_debug_names_every_field() {
    let mut prov = GenerationProvenance {
        seed: 42,
        iconography_rules: Personal::from("rules"),
        deck_style_text: Personal::default(),
        chosen_style_option_id: Some("r0-opt1".into()),
        court_card_shown: Some(CourtCardId::new(CourtRank::Queen, Suit::Cups)),
        provider_id: "fake".into(),
        model_id: "fake-image-1".into(),
        ..Default::default()
    };
    prov.prompts.insert("cardBack".into(), "p".into());
    assert_eq!(
        prov.debug_text(),
        "GenerationProvenance { seed: 42, iconography_rules: Personal(<redacted>), \
         deck_style_text: Personal(<empty>), chosen_style_option_id: Some(\"r0-opt1\"), \
         court_card_shown: Some(CourtCardId { rank: Queen, suit: Cups }), provider_id: \"fake\", \
         model_id: \"fake-image-1\", prompts: {\"cardBack\": \"p\"} }"
    );
}

#[test]
fn session_debug_does_not_leak_personal_inputs() {
    let session = DeckCreationSession::new(
        "sess-1".into(),
        7,
        Personal::from("my mother's maiden name is Aldridge"),
        Personal::from("the lake house in Vermont, summer 1998"),
    );
    let dbg = session.debug_text();
    assert!(!dbg.contains("Aldridge"), "rules leaked: {dbg}");
    assert!(!dbg.contains("Vermont"), "style leaked: {dbg}");
    assert!(dbg.contains("redacted"));
}

#[test]
fn fresh_session_debug_names_every_field() {
    let session = DeckCreationSession::new(
        "sess-1".into(),
        7,
        Personal::from("rules"),
        Personal::default(),
    );
    assert_eq!(
        session.debug_text(),
        "DeckCreationSession { id: \"sess-1\", seed: 7, iconography_rules: Personal(<redacted>), \
         deck_style_text: Personal(<empty>), style_options: [], chosen_style_option_id: None, \
         style_guide: None, sample_card: None, status: Inputs, round: 0, provenance: \
         GenerationProvenance { seed: 7, iconography_rules: Personal(<redacted>), \
         deck_style_text: Personal(<empty>), chosen_style_option_id: None, court_card_shown: None, \
         provider_id: \"\", model_id: \"\", prompts: {} } }"
    );
}

#[test]
fn session_debug_shows_geometry_as_decimals_and_escapes_strings() {
    let mut session = DeckCreationSession::new(
        "s".into(),
        1,
        Personal::default(),
        Personal::from("private"),
    );
    let rect = Rect::new(250, 0, 1000, 125);
    session.style_guide = Some(CardStyleGuide {
        id: "g".into(),
        version: 2,
        derived_from_style_option_id: "r0-opt0".into(),
        prompt_used: "line one\nsaid \"hi\"".into(),
        border_chrome_key: "b".into(),
        card_back_key: "k".into(),
        card_front_layout: FrontLayout {
            aspect: 700,
            suit_icon: rect,
            card_imagery: rect,
            title: rect,
        },
        shader_areas: vec![ShaderArea { id: "a".into(), rect, kind: "foil".into() }],
        flourishes: vec![FlourishRef { asset_key: "f".into(), rect, rotation: -1500 }],
    });
    session.sample_card = Some(SampleCard {
        court_card: CourtCardId::new(CourtRank::King, Suit::Swords),
        card_imagery_key: "i".into(),
        front_key: "fr".into(),
        back_key: "bk".into(),
        approval: Approval::Pending,
    });
    let dbg = session.debug_text();
    assert!(dbg.contains("aspect: 0.7, suit_icon: Rect { x: 0.25, y: 0.0, w: 1.0, h: 0.125 }"));
    assert!(dbg.contains("shader_areas: [ShaderArea { id: \"a\", rect: Rect { x: 0.25, "));
    assert!(dbg.contains("rotation: -1.5 }]"));
    assert!(dbg.contains("prompt_used: \"line one\\nsaid \\\"hi\\\"\""));
    assert!(dbg.contains(
        "sample_card: Some(SampleCard { court_card: CourtCardId { rank: King, suit: Swords }, \
         card_imagery_key: \"i\", front_key: \"fr\", back_key: \"bk\", approval: Pending })"
    ));
    assert!(!dbg.contains("private"));
}

#[test]
fn provenance_debug_lists_prompts_in_key_order() {
    let mut prov = GenerationProvenance::default();
    prov.prompts.insert("flourish".into(), "f".into());
    prov.prompts.insert("cardBorder".into(), "b".into());
    prov.prompts.insert("cardBack".into(), "k".into());
    assert!(prov
        .debug_text()
        .ends_with("prompts: {\"cardBack\": \"k\", \"cardBorder\": \"b\", \"flourish\": \"f\"} }"));
}

#[test]
fn debug_strings_escape_control_characters() {
    let mut prov = GenerationProvenance::default();
    prov.provider_id = "a\u{1}b\u{1b}c\u{7f}\t\\".into();
    assert!(prov
        .debug_text()
        .contains("provider_id: \"a\\u{1}b\\u{1b}c\\u{7f}\\t\\\\\""));
}
