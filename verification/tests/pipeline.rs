//! The deck-creation steps driven end to end on the offline provider with an in-memory
//! store, the way the host drives them: each step's plan is performed in order.

use std::collections::HashMap;

use base64::Engine;
use sibyl::rules::{ICONOGRAPHY_RULES, SUIT_ICONS};

use sibyl::pipeline::approve::{approved_deck_id, plan_approval, reapprove, restart_inputs};
use sibyl::pipeline::icons::{option_seed, option_subject, plan_icon_round, plan_icon_round_from};
use sibyl::pipeline::sample::{compose_sample_front, finish_sample, plan_sample};
use sibyl::pipeline::session::{new_icon_session, session_key, start_icon_round, ImageJob};
use sibyl::pipeline::style_guide::{plan_style_guide, select_icon_style};
use sibyl::{
    AssetResponse, CardStyleGuide, CommandError, CourtCardId, Deck, DeckCreationSession, FakeProvider,
    GenerateIconStyles, IconStylesResult, ProviderError, RestartInputs, SampleCard, SibylError,
    Suit, FIXED_SEED,
};

#[derive(Default)]
struct Host {
    blobs: HashMap<String, Vec<u8>>,
    sessions: HashMap<String, DeckCreationSession>,
    decks: HashMap<String, Deck>,
    active: Option<String>,
    image_down: bool,
}

impl Host {
    fn has_key(&self, key: &str) -> bool {
        self.blobs.contains_key(key) || self.sessions.keys().any(|id| session_key(id) == key)
    }

    fn take_session(&mut self, id: &str) -> Result<DeckCreationSession, SibylError> {
        self.sessions
            .remove(id)
            .ok_or_else(|| SibylError::UnknownSession(id.to_string()))
    }

    fn run_job(&mut self, job: ImageJob) -> Result<Vec<u8>, SibylError> {
        if self.image_down {
            return Err(ProviderError::unavailable("image backend is down".into()).into());
        }
        let img = FakeProvider::new().generate(&job.request)?;
        self.blobs.insert(job.key, img.bytes.clone());
        Ok(img.bytes)
    }

    fn generate_icon_styles(
        &mut self,
        input: GenerateIconStyles,
    ) -> Result<IconStylesResult, SibylError> {
        let loaded = match &input.session_id {
            Some(id) => Some(self.take_session(id)?),
            None => None,
        };
        let session = start_icon_round(&input, SUIT_ICONS, loaded);
        let plan = plan_icon_round(session, input.count);
        for job in plan.jobs {
            self.run_job(job)?;
        }
        self.sessions.insert(plan.session.id.clone(), plan.session);
        Ok(plan.result)
    }

    fn select_icon_style(&mut self, sid: &str, option: &str) -> Result<(), SibylError> {
        let session = self.take_session(sid)?;
        let keep = session_copy(&session);
        match select_icon_style(session, option) {
            Ok(s) => {
                self.sessions.insert(sid.to_string(), s);
                Ok(())
            }
            Err(e) => {
                self.sessions.insert(sid.to_string(), keep);
                Err(e)
            }
        }
    }

    fn generate_style_guide(&mut self, sid: &str) -> Result<CardStyleGuide, SibylError> {
        let session = self.take_session(sid)?;
        let keep = session_copy(&session);
        let plan = match plan_style_guide(sid, session) {
            Ok(p) => p,
            Err(e) => {
                self.sessions.insert(sid.to_string(), keep);
                return Err(e);
            }
        };
        for job in plan.jobs {
            self.run_job(job)?;
        }
        self.sessions.insert(sid.to_string(), plan.session);
        Ok(plan.guide)
    }

    fn compose_sample_card(&mut self, sid: &str) -> Result<SampleCard, SibylError> {
        let session = self.take_session(sid)?;
        let plan = plan_sample(sid, &session)?;
        let imagery = self.run_job(plan.imagery.clone())?;
        let (icon_key, chrome_key) = plan.layer_keys()?;
        let icon = self.blobs[&icon_key].clone();
        let chrome = self.blobs[&chrome_key].clone();
        let front = compose_sample_front(plan.layout, &imagery, &icon, &chrome)?;
        self.blobs.insert(plan.front_key.clone(), front);
        let (session, sample) = finish_sample(session, plan, FakeProvider::new().image_id());
        self.sessions.insert(sid.to_string(), session);
        Ok(sample)
    }

    fn discard(&mut self, prefix: &str, sid: &str) {
        let p = format!("{prefix}/");
        self.blobs.retain(|k, _| !k.starts_with(&p));
        self.sessions.remove(sid);
    }

    fn approve_deck(&mut self, sid: &str) -> Result<Deck, SibylError> {
        let session = match self.take_session(sid) {
            Ok(s) => s,
            Err(SibylError::UnknownSession(id)) => {
                let Some(stored) = self.decks.get(&approved_deck_id(sid)) else {
                    return Err(SibylError::UnknownSession(id));
                };
                let deck = reapprove(sid, deck_copy(stored))?;
                self.active = Some(deck.id.clone());
                self.decks.insert(deck.id.clone(), deck_copy(&deck));
                return Ok(deck);
            }
            Err(e) => return Err(e),
        };
        let plan = plan_approval(&session)?;
        for (from, to) in &plan.copies {
            let bytes = self.blobs[from].clone();
            self.blobs.insert(to.clone(), bytes);
        }
        let id = plan.deck.id.clone();
        self.active = Some(id.clone());
        self.discard(&plan.drafts_prefix, sid);
        let summary = deck_copy(&plan.deck);
        self.decks.insert(id, plan.deck);
        Ok(summary)
    }

    fn reject_and_restart(&mut self, sid: &str) -> Result<RestartInputs, SibylError> {
        let session = self.take_session(sid)?;
        let (inputs, drafts) = restart_inputs(&session);
        self.discard(&drafts, sid);
        Ok(inputs)
    }

    fn active_deck_id(&self) -> Option<String> {
        self.active.clone()
    }
}

fn session_copy(s: &DeckCreationSession) -> DeckCreationSession {
    DeckCreationSession {
        id: s.id.clone(),
        seed: s.seed,
        iconography_rules: s.iconography_rules.duplicate(),
        deck_style_text: s.deck_style_text.duplicate(),
        style_options: s.style_options.clone(),
        chosen_style_option_id: s.chosen_style_option_id.clone(),
        style_guide: s.style_guide.clone(),
        sample_card: s.sample_card.clone(),
        status: s.status,
        round: s.round,
        provenance: s.provenance.duplicate(),
    }
}

fn deck_copy(d: &Deck) -> Deck {
    Deck {
        id: d.id.clone(),
        active: d.active,
        suit_icons: d.suit_icons.clone(),
        style_guide: d.style_guide.clone(),
        provenance: d.provenance.duplicate(),
    }
}

fn input() -> GenerateIconStyles {
    GenerateIconStyles {
        session_id: None,
        seed: Some(FIXED_SEED),
        style: "midnight indigo and gold".into(),
        count: 3,
    }
}

fn drive_to_sample(host: &mut Host, seed: u64) -> (String, SampleCard) {
    let out = host
        .generate_icon_styles(GenerateIconStyles {
            seed: Some(seed),
            ..input()
        })
        .unwrap();
    host.select_icon_style(&out.session_id, &out.style_options[0].id)
        .unwrap();
    host.generate_style_guide(&out.session_id).unwrap();
    let sample = host.compose_sample_card(&out.session_id).unwrap();
    (out.session_id, sample)
}

#[test]
fn generates_at_least_three_options_covering_all_suits() {
    let mut host = Host::default();
    let out = host.generate_icon_styles(input()).unwrap();
    assert!(out.style_options.len() >= 3, "SC-002: at least three options");
    for opt in &out.style_options {
        assert!(
            opt.covers_all_suits(&Suit::STANDARD),
            "every option must cover all suits"
        );
        for icon in &opt.suit_icons {
            assert!(host.has_key(&icon.image_key), "icon not stored: {}", icon.image_key);
        }
    }
}

#[test]
fn generation_is_deterministic_for_a_seed() {
    let a = Host::default().generate_icon_styles(input()).unwrap();
    let b = Host::default().generate_icon_styles(input()).unwrap();
    let a_prompts: Vec<_> = a.style_options.iter().map(|o| &o.prompt_used).collect();
    let b_prompts: Vec<_> = b.style_options.iter().map(|o| &o.prompt_used).collect();
    assert_eq!(a_prompts, b_prompts, "same seed → same options");
}

#[test]
fn regenerate_preserves_inputs_but_changes_round() {
    let mut host = Host::default();
    let first = host.generate_icon_styles(input()).unwrap();
    let again = host
        .generate_icon_styles(GenerateIconStyles {
            session_id: Some(first.session_id.clone()),
            ..input()
        })
        .unwrap();
    assert_eq!(first.session_id, again.session_id);
    assert!(again.style_options[0].id.starts_with("r1-"));
    assert!(first.style_options[0].id.starts_with("r0-"));
}

#[test]
fn select_icon_style_records_choice_and_rejects_unknown() {
    let mut host = Host::default();
    let out = host.generate_icon_styles(input()).unwrap();
    let chosen = out.style_options[1].id.clone();
    host.select_icon_style(&out.session_id, &chosen).unwrap();
    let session = &host.sessions[&out.session_id];
    assert_eq!(
        session.chosen_style_option_id.as_deref(),
        Some(chosen.as_str())
    );
    assert!(host.select_icon_style(&out.session_id, "nope").is_err());
}

#[test]
fn style_guide_has_all_required_elements() {
    let mut host = Host::default();
    let out = host.generate_icon_styles(input()).unwrap();
    host.select_icon_style(&out.session_id, &out.style_options[0].id)
        .unwrap();
    let guide = host.generate_style_guide(&out.session_id).unwrap();
    assert!(host.has_key(&guide.border_chrome_key), "border/chrome asset");
    assert!(host.has_key(&guide.card_back_key), "card back asset");
    assert!(!guide.shader_areas.is_empty(), "at least one shader/UV area");
    assert!(!guide.flourishes.is_empty(), "flourishes present");
    assert!(!guide.prompt_used.trim().is_empty(), "prompt derived");
    assert_eq!(guide.version, 1);
    assert!(guide.derived_from_style_option_id.starts_with("r0-opt"));
}

#[test]
fn style_guide_requires_a_selected_style() {
    let mut host = Host::default();
    let out = host
        .generate_icon_styles(GenerateIconStyles {
            style: "s".into(),
            ..input()
        })
        .unwrap();
    let err = host.generate_style_guide(&out.session_id);
    assert!(err.is_err(), "must require a selected style");
}

#[test]
fn sample_is_always_a_court_card_with_stored_front_and_back() {
    let mut host = Host::default();
    let (_sid, sample) = drive_to_sample(&mut host, FIXED_SEED);
    assert!(CourtCardId::all().contains(&sample.court_card));
    assert!(host.has_key(&sample.front_key), "front composited & stored");
    assert!(host.has_key(&sample.back_key), "back present");
    assert_eq!(sample.approval, sibyl::Approval::Pending);
}

#[test]
fn sample_front_is_byte_stable_for_a_seed() {
    let mut h1 = Host::default();
    let mut h2 = Host::default();
    let (_s1, a) = drive_to_sample(&mut h1, FIXED_SEED);
    let (_s2, b) = drive_to_sample(&mut h2, FIXED_SEED);
    assert_eq!(a.court_card, b.court_card, "seed → same court card");
    assert_eq!(
        h1.blobs[&a.front_key], h2.blobs[&b.front_key],
        "canonical front render is reproducible (SC-007)"
    );
}

#[test]
fn approve_promotes_bundle_sets_active_and_records_provenance() {
    let mut host = Host::default();
    let (sid, _) = drive_to_sample(&mut host, FIXED_SEED);
    let deck = host.approve_deck(&sid).unwrap();
    assert!(deck.active);
    for icon in &deck.suit_icons {
        assert!(icon.image_key.starts_with("decks/deck-"), "relocated key");
        assert!(host.has_key(&icon.image_key), "icon present in bundle");
    }
    assert!(host.has_key(&deck.style_guide.border_chrome_key));
    assert!(host.has_key(&deck.style_guide.card_back_key));
    assert!(!host.has_key(&format!("decks/_drafts/{sid}/session.json")));
    assert_eq!(host.active_deck_id(), Some(deck.id.clone()));
    let p = &deck.provenance;
    assert_eq!(p.seed, FIXED_SEED);
    assert!(p.chosen_style_option_id.is_some());
    assert!(p.court_card_shown.is_some());
    assert!(p.prompts.contains_key("cardBorder"));
    assert!(p.prompts.contains_key("cardBack"));
    assert!(p.prompts.contains_key("flourish"));
    assert!(p.prompts.contains_key("sampleImagery"));
}

#[test]
fn reject_leaves_no_active_deck_and_returns_inputs() {
    let mut host = Host::default();
    let (sid, _) = drive_to_sample(&mut host, FIXED_SEED);
    let inputs = host.reject_and_restart(&sid).unwrap();
    assert_eq!(inputs.style, "midnight indigo and gold");
    assert!(host.active_deck_id().is_none(), "no active deck after reject");
    assert!(!host.has_key(&format!("decks/_drafts/{sid}/session.json")));
}

#[test]
fn second_approval_reassigns_the_single_active_deck() {
    let mut host = Host::default();
    let (s1, _) = drive_to_sample(&mut host, 111);
    let d1 = host.approve_deck(&s1).unwrap();
    let (s2, _) = drive_to_sample(&mut host, 222);
    let d2 = host.approve_deck(&s2).unwrap();
    assert_ne!(d1.id, d2.id);
    assert_eq!(host.active_deck_id(), Some(d2.id));
}

#[test]
fn provider_failure_surfaces_as_retryable() {
    let mut host = Host {
        image_down: true,
        ..Host::default()
    };
    let err = host
        .generate_icon_styles(GenerateIconStyles {
            seed: Some(7),
            style: "s".into(),
            ..input()
        })
        .expect_err("generation should fail when the image provider is down");
    assert!(err.retryable(), "failure must be retryable so the owner can retry");
}

#[test]
fn pipeline_full_pipeline_produces_an_active_self_contained_bundle() {
    let mut host = Host::default();
    let out = host.generate_icon_styles(input()).unwrap();
    host.select_icon_style(&out.session_id, &out.style_options[0].id)
        .unwrap();
    host.generate_style_guide(&out.session_id).unwrap();
    host.compose_sample_card(&out.session_id).unwrap();
    let deck = host.approve_deck(&out.session_id).unwrap();

    for icon in &deck.suit_icons {
        assert!(host.has_key(&icon.image_key), "missing {}", icon.image_key);
    }
    assert!(host.has_key(&deck.style_guide.border_chrome_key));
    assert!(host.has_key(&deck.style_guide.card_back_key));
    for f in &deck.style_guide.flourishes {
        assert!(host.has_key(&f.asset_key), "missing flourish {}", f.asset_key);
    }
    assert!(deck.active);
    assert_eq!(deck.provenance.seed, FIXED_SEED);
    assert!(deck.provenance.chosen_style_option_id.is_some());
    assert!(deck.provenance.court_card_shown.is_some());
    let p = &deck.provenance.prompts;
    assert!(out.style_options[0].prompt_used.contains("four suit icons"));
    assert!(p.get("cardBorder").unwrap().contains("rectangular frame"));
    assert!(p.get("cardBack").unwrap().contains("identical for every card"));
    assert!(p.get("flourish").unwrap().contains("small ornament"));
    assert!(p.get("sampleImagery").unwrap().contains("evocative illustration"));
    for key in ["cardBorder", "cardBack", "flourish", "sampleImagery"] {
        let prompt = p.get(key).unwrap();
        assert!(prompt.contains("midnight indigo and gold"), "style missing from {key}");
        assert!(prompt.contains("AUTHORITATIVE"), "rules framing missing from {key}");
    }
    assert!(!host.has_key(&format!("decks/_drafts/{}/session.json", out.session_id)));
    assert_eq!(host.active_deck_id(), Some(deck.id));
}

#[test]
fn full_command_flow_produces_active_deck_and_decodable_assets() {
    let mut host = Host::default();
    let out = host
        .generate_icon_styles(GenerateIconStyles {
            style: "indigo and gold".into(),
            count: 3,
            ..input()
        })
        .unwrap();
    assert!(out.style_options.len() >= 3);

    // The asset payload for a real icon key is valid, decodable base64.
    let key = out.style_options[0].suit_icons[0].image_key.clone();
    let asset = AssetResponse::new(&key, &host.blobs[&key]);
    assert_eq!(asset.mime, "image/png");
    let decoded = base64::engine::general_purpose::STANDARD.decode(&asset.base64);
    assert!(decoded.is_ok());
    assert_eq!(decoded.unwrap(), host.blobs[&key]);

    host.select_icon_style(&out.session_id, &out.style_options[0].id)
        .unwrap();
    host.generate_style_guide(&out.session_id).unwrap();
    host.compose_sample_card(&out.session_id).unwrap();
    let deck = host.approve_deck(&out.session_id).unwrap();
    assert!(deck.active);
    assert_eq!(host.active_deck_id().unwrap(), deck.id);
}

#[test]
fn errors_map_to_contract_codes() {
    let mut host = Host::default();
    let e = CommandError::from_error(&host.generate_style_guide("nope").unwrap_err());
    assert_eq!(e.code, "unknown_session");
    assert!(!e.retryable);

    let out = host
        .generate_icon_styles(GenerateIconStyles {
            style: "s".into(),
            ..input()
        })
        .unwrap();
    let e = CommandError::from_error(&host.select_icon_style(&out.session_id, "bad").unwrap_err());
    assert_eq!(e.code, "unknown_option");
    let e = CommandError::from_error(&host.generate_style_guide(&out.session_id).unwrap_err());
    assert_eq!(e.code, "no_style_selected");
}

#[test]
fn new_session_ids_come_from_the_seed() {
    let mut host = Host::default();
    let out = host
        .generate_icon_styles(GenerateIconStyles {
            seed: Some(0x1234),
            ..input()
        })
        .unwrap();
    assert_eq!(out.session_id, "sess-0000000000001234");
    let opt = &out.style_options[2];
    assert_eq!(opt.id, "r0-opt2");
    assert_eq!(opt.label, "Option C");
    assert_eq!(
        opt.suit_icons[3].image_key,
        "decks/_drafts/sess-0000000000001234/icons/r0-opt2/pentacles.png"
    );
    let more = Host::default()
        .generate_icon_styles(GenerateIconStyles {
            count: 5,
            ..input()
        })
        .unwrap();
    assert_eq!(more.style_options.len(), 5);
}

#[test]
fn given_prompts_drive_the_round_and_seeds_stay_put() {
    let session = new_icon_session(&input(), SUIT_ICONS);
    let base = plan_icon_round(session_copy(&session), 3);
    let given = plan_icon_round_from(
        session_copy(&session),
        2,
        vec!["alpha".into(), "beta".into(), "gamma".into()],
    );
    assert_eq!(given.session.style_options.len(), 3);
    assert_eq!(given.session.style_options[1].prompt_used, "beta");
    assert_eq!(given.jobs[5].request.prompt, "beta | suit: wands");
    for (a, b) in base.jobs.iter().zip(given.jobs.iter()) {
        assert_eq!(a.key, b.key);
        assert_eq!(a.request.seed, b.request.seed);
    }
    assert_eq!(
        given.jobs[4].request.seed,
        sibyl::sub_seed(option_seed(session.seed, 0, 1), "cups")
    );
    assert_eq!(option_subject(12), "suit-set option 12");
}

#[test]
fn approving_twice_returns_the_same_deck_and_keeps_it_active() {
    let mut host = Host::default();
    let (s1, _) = drive_to_sample(&mut host, 111);
    let d1 = host.approve_deck(&s1).unwrap();
    let (s2, _) = drive_to_sample(&mut host, 222);
    let d2 = host.approve_deck(&s2).unwrap();
    assert_eq!(host.active_deck_id().unwrap(), d2.id);
    let again = host.approve_deck(&s1).unwrap();
    assert_eq!(again.id, d1.id);
    assert!(again.active);
    assert_eq!(host.active_deck_id().unwrap(), d1.id);
    let once_more = host.approve_deck(&s1).unwrap();
    assert_eq!(once_more.id, d1.id);
    assert!(matches!(
        host.approve_deck("sess-none"),
        Err(SibylError::UnknownSession(_))
    ));
}

#[test]
fn reapproval_refuses_a_deck_of_another_session() {
    let mut host = Host::default();
    let (s1, _) = drive_to_sample(&mut host, 111);
    let d1 = host.approve_deck(&s1).unwrap();
    match reapprove("other", deck_copy(&d1)) {
        Err(SibylError::UnknownSession(id)) => assert_eq!(id, "other"),
        _ => panic!("a deck of another session must be refused"),
    }
    assert_eq!(approved_deck_id(&s1), d1.id);
}

#[test]
fn deckforge_sessions_carry_the_iconography_rules() {
    let s = new_icon_session(
        &GenerateIconStyles { seed: None, style: "s".into(), ..input() },
        ICONOGRAPHY_RULES,
    );
    assert_eq!(s.iconography_rules.as_str(), ICONOGRAPHY_RULES);
    assert_eq!(s.seed, sibyl::sub_seed(0, &format!("{ICONOGRAPHY_RULES}|s")));
    assert_eq!(s.id, format!("sess-{:016x}", s.seed));
}
