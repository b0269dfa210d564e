//! Storage keys of drafts, and how a style round starts: a new session from the owner's
//! inputs, or the next round of an existing one.
use vstd::prelude::*;

use crate::model::{DeckCreationSession, Personal, SessionStatus};
use crate::providers::types::{ImageRequest, Size};
use crate::rng::{sub_seed, sub_seed_of};
use crate::text::{hex_digits, push_hex};

verus! {

/// Storage prefix of a session's draft: `decks/_drafts/{sid}`.
pub open spec fn drafts_prefix_of(sid: Seq<char>) -> Seq<char> {
    "decks/_drafts/"@ + sid
}

/// Storage prefix of a session's draft.
pub fn drafts_prefix(sid: &str) -> (k: String)
    ensures
        k@ == drafts_prefix_of(sid@),
{
    let mut k = String::from_str("decks/_drafts/");
    k.append(sid);
    k
}

/// Storage key of a session: `decks/_drafts/{sid}/session.json`.
pub open spec fn session_key_of(sid: Seq<char>) -> Seq<char> {
    drafts_prefix_of(sid) + "/session.json"@
}

/// Storage key of a session.
pub fn session_key(sid: &str) -> (k: String)
    ensures
        k@ == session_key_of(sid@),
{
    let mut k = drafts_prefix(sid);
    k.append("/session.json");
    k
}

/// Key under a session's draft: `decks/_drafts/{sid}/{suffix}`.
pub open spec fn draft_key_of(sid: Seq<char>, suffix: Seq<char>) -> Seq<char> {
    drafts_prefix_of(sid) + "/"@ + suffix
}

/// Key under a session's draft.
pub fn draft_key(sid: &str, suffix: &str) -> (k: String)
    ensures
        k@ == draft_key_of(sid@, suffix@),
{
    let mut k = drafts_prefix(sid);
    k.append("/");
    k.append(suffix);
    k
}

/// One image to generate and the storage key its bytes go to.
#[derive(Debug, Clone)]
pub struct ImageJob {
    pub key: String,
    pub request: ImageRequest,
}

/// Every generated asset is requested at 64 x 64 pixels.
pub open spec fn asset_size() -> Size {
    Size { width: 64, height: 64 }
}

/// An image job for `key`, `prompt` and `seed` at the asset size.
pub fn asset_job(key: String, prompt: String, seed: u64) -> (j: ImageJob)
    ensures
        j.key == key,
        j.request.prompt == prompt,
        j.request.seed == seed,
        j.request.size == asset_size(),
{
    ImageJob { key, request: ImageRequest { prompt, seed, size: Size { width: 64, height: 64 } } }
}

/// Input for generating (or regenerating) a round of suit-icon style options.
#[derive(Debug, Clone, Default)]
pub struct GenerateIconStyles {
    /// Existing session to regenerate within; `None` starts a new session.
    pub session_id: Option<String>,
    /// Explicit seed for a new session (reproducibility); derived from the inputs if absent.
    pub seed: Option<u64>,
    pub style: String,
    /// Desired option count; at least three are generated.
    pub count: usize,
}

/// The seed of a new session started without an explicit one: a sub-seed of zero labelled by
/// the session's rules and the style (`{rules}|{style}`).
pub open spec fn derived_seed(rules: Seq<char>, style: Seq<char>) -> u64 {
    sub_seed_of(0, rules + "|"@ + style)
}

/// The id of a session: `sess-` and the seed as sixteen hex digits.
pub open spec fn session_id_of(seed: u64) -> Seq<char> {
    "sess-"@ + hex_digits(seed as nat, 16)
}

/// The seed a new session with authoritative `rules` starts from.
pub open spec fn new_session_seed(input: GenerateIconStyles, rules: Seq<char>) -> u64 {
    match input.seed {
        Some(s) => s,
        None => derived_seed(rules, input.style@),
    }
}

/// A fresh session for the inputs under the authoritative `rules` (the orchestrator's own
/// iconography rules): its seed (given or derived), its id from the seed, the rules and the
/// owner's style.
pub fn new_icon_session(input: &GenerateIconStyles, rules: &str) -> (s: DeckCreationSession)
    ensures
        s.seed == new_session_seed(*input, rules@),
        s.id@ == session_id_of(s.seed),
        s.iconography_rules.0@ == rules@,
        s.deck_style_text.0@ == input.style@,
        s.style_options@.len() == 0,
        s.chosen_style_option_id is None,
        s.style_guide is None,
        s.sample_card is None,
        s.status == SessionStatus::Inputs,
        s.round == 0,
        s.provenance.seed == s.seed,
        s.provenance.iconography_rules == s.iconography_rules,
        s.provenance.deck_style_text == s.deck_style_text,
{
    let seed = match input.seed {
        Some(s) => s,
        None => {
            let mut label = String::from_str(rules);
            label.append("|");
            label.append(input.style.as_str());
            sub_seed(0, label.as_str())
        },
    };
    let mut id = String::from_str("sess-");
    push_hex(&mut id, seed, 16);
    DeckCreationSession::new(
        id,
        seed,
        Personal(String::from_str(rules)),
        Personal(input.style.clone()),
    )
}

/// The session a round of style options is generated in: a new one under `rules` when the
/// input names no session, otherwise the loaded session advanced by one round, its inputs
/// preserved.
pub fn start_icon_round(
    input: &GenerateIconStyles,
    rules: &str,
    loaded: Option<DeckCreationSession>,
) -> (s: DeckCreationSession)
    requires
        loaded is Some == input.session_id is Some,
        loaded matches Some(l) ==> l.round < u32::MAX,
    ensures
        match loaded {
            Some(l) => s.id == l.id && s.seed == l.seed && s.iconography_rules
                == l.iconography_rules && s.deck_style_text == l.deck_style_text && s.round
                == l.round + 1 && s.style_options@ == l.style_options@
                && s.chosen_style_option_id == l.chosen_style_option_id && s.style_guide
                == l.style_guide && s.sample_card == l.sample_card && s.status == l.status
                && s.provenance == l.provenance,
            None => s.seed == new_session_seed(*input, rules@) && s.id@ == session_id_of(s.seed)
                && s.iconography_rules.0@ == rules@ && s.deck_style_text.0@ == input.style@
                && s.round == 0 && s.style_options@.len() == 0 && s.chosen_style_option_id is None
                && s.style_guide is None && s.sample_card is None && s.status
                == SessionStatus::Inputs,
        },
{
    match loaded {
        Some(l) => {
            let round = l.round + 1;
            DeckCreationSession { round, ..l }
        },
        None => new_icon_session(input, rules),
    }
}

} // verus!
