//! Error messages, retry hints and the command-layer codes, one variant at a time.

use sibyl::{
    CommandError, DeckForgeError, ProviderError, ProviderErrorCode, RenderError, SibylError,
    StoreError,
};

fn all_sibyl_errors() -> Vec<SibylError> {
    vec![
        SibylError::Provider { message: "down".into(), retryable: true },
        SibylError::Storage("disk".into()),
        SibylError::Render("bad png".into()),
        SibylError::UnknownSession("s1".into()),
        SibylError::UnknownOption("o1".into()),
        SibylError::NoStyleSelected,
        SibylError::NoStyleGuide,
        SibylError::NothingToApprove,
        SibylError::InvalidState("x".into()),
    ]
}

#[test]
fn sibyl_error_messages_match_each_variant() {
    let msgs: Vec<String> = all_sibyl_errors().iter().map(|e| e.message()).collect();
    assert_eq!(
        msgs,
        vec![
            "provider failed: down",
            "storage error: disk",
            "render error: bad png",
            "unknown session: s1",
            "unknown style option: o1",
            "no style selected",
            "no style guide generated",
            "nothing to approve",
            "invalid state: x",
        ]
    );
}

#[test]
fn only_retryable_provider_failures_are_retryable() {
    let flags: Vec<bool> = all_sibyl_errors().iter().map(|e| e.retryable()).collect();
    assert_eq!(flags, vec![true, false, false, false, false, false, false, false, false]);
    let not_retryable = SibylError::Provider { message: "auth".into(), retryable: false };
    assert!(!not_retryable.retryable());
}

#[test]
fn every_variant_has_its_command_code() {
    let codes: Vec<String> = all_sibyl_errors()
        .iter()
        .map(|e| CommandError::from_error(e).code)
        .collect();
    assert_eq!(
        codes,
        vec![
            "provider_failed",
            "storage_error",
            "render_error",
            "unknown_session",
            "unknown_option",
            "no_style_selected",
            "no_style_guide",
            "nothing_to_approve",
            "invalid_state",
        ]
    );
    let c: CommandError = SibylError::Storage("disk".into()).into();
    assert_eq!(c.code, "storage_error");
    assert_eq!(c.message, "storage error: disk");
    assert!(!c.retryable);
}

#[test]
fn conversions_keep_message_and_retry_hint() {
    let p = ProviderError::new(ProviderErrorCode::RateLimited, "slow down".into(), true);
    let e: SibylError = p.into();
    assert!(e.retryable());
    assert_eq!(e.message(), "provider failed: slow down");
    let e: SibylError = StoreError::NotFound("k".into()).into();
    assert_eq!(e.message(), "storage error: key not found: k");
    let e: SibylError = RenderError::Encode("oops".into()).into();
    assert_eq!(e.message(), "render error: encode error: oops");
}

#[test]
fn deckforge_errors_mirror_the_pipeline_errors() {
    let e: DeckForgeError = ProviderError::unavailable("gone".into()).into();
    assert!(e.retryable());
    assert_eq!(e.message(), "provider failed: gone");
    let e: DeckForgeError = StoreError::Io("denied".into()).into();
    assert!(!e.retryable());
    assert_eq!(e.message(), "storage error: io error: denied");
    let e: DeckForgeError = RenderError::Decode("bad".into()).into();
    assert_eq!(e.message(), "render error: decode error: bad");
    assert_eq!(DeckForgeError::UnknownSession("s".into()).message(), "unknown session: s");
    assert_eq!(DeckForgeError::UnknownOption("o".into()).message(), "unknown style option: o");
    assert_eq!(DeckForgeError::NoStyleSelected.message(), "no style selected");
    assert!(!DeckForgeError::NoStyleSelected.retryable());
}

#[test]
fn provider_error_display_names_the_category() {
    let e = ProviderError::new(ProviderErrorCode::BadResponse, "no svg".into(), false);
    assert_eq!(e.display_text(), "provider error [BadResponse]: no svg");
    assert_eq!(
        ProviderError::unavailable("x".into()).display_text(),
        "provider error [Unavailable]: x"
    );
    assert_eq!(
        StoreError::Serde("eof".into()).message(),
        "serialization error: eof"
    );
}
