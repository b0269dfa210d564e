//! Choosing a style option, and the card style guide derived from the chosen option: border
//! chrome, card back and a flourish, each generated from its own rules and the owner's style,
//! with a fixed front layout, one shader area and one flourish placement.
use vstd::prelude::*;

use crate::errors::SibylError;
use crate::model::{
    chosen_position, find_option, option_position, same_guide, CardStyleGuide,
    DeckCreationSession, FlourishRef, FrontLayout, Rect, SessionStatus, ShaderArea,
};
use crate::pipeline::session::{asset_job, asset_size, draft_key, draft_key_of, ImageJob};
use crate::prompt::{build_image_prompt, image_prompt_text};
use crate::rng::{sub_seed, sub_seed_of};
use crate::rules::{CARD_BACK, CARD_BORDER, FLOURISH};

verus! {

/// Record the owner's chosen style option. An id that names none of the session's options
/// is refused; otherwise the choice is recorded and the wizard moves to the style guide.
pub fn select_icon_style(session: DeckCreationSession, option_id: &str) -> (r: Result<
    DeckCreationSession,
    SibylError,
>)
    ensures
        match r {
            Ok(s) => {
                &&& option_position(session.style_options@, option_id@) is Some
                &&& s.id == session.id && s.seed == session.seed
                &&& s.iconography_rules == session.iconography_rules
                &&& s.deck_style_text == session.deck_style_text
                &&& s.style_options@ == session.style_options@
                &&& s.style_guide == session.style_guide && s.sample_card == session.sample_card
                &&& s.status == SessionStatus::StyleGuide && s.round == session.round
                &&& s.provenance == session.provenance
                &&& (s.chosen_style_option_id matches Some(id) && id@ == option_id@)
            },
            Err(e) => {
                &&& option_position(session.style_options@, option_id@) is None
                &&& (e matches SibylError::UnknownOption(id) && id@ == option_id@)
            },
        },
{
    let exists = find_option(&session.style_options, option_id).is_some();
    if !exists {
        return Err(SibylError::UnknownOption(String::from_str(option_id)));
    }
    Ok(
        DeckCreationSession {
            chosen_style_option_id: Some(String::from_str(option_id)),
            status: SessionStatus::StyleGuide,
            ..session
        },
    )
}

/// The style guide's front layout: aspect 0.66, suit icon, card imagery and title areas.
pub open spec fn guide_layout() -> FrontLayout {
    FrontLayout {
        aspect: 660,
        suit_icon: Rect { x: 50, y: 50, w: 180, h: 180 },
        card_imagery: Rect { x: 100, y: 180, w: 800, h: 620 },
        title: Rect { x: 0, y: 860, w: 1000, h: 100 },
    }
}

/// Seed of the style guide of a session.
pub open spec fn guide_seed_of(seed: u64) -> u64 {
    sub_seed_of(seed, "style-guide"@)
}

/// Prompt of the border chrome.
pub open spec fn border_prompt_of(style: Seq<char>) -> Seq<char> {
    image_prompt_text(CARD_BORDER@, style, "the card border and chrome frame"@)
}

/// Prompt of the card back.
pub open spec fn back_prompt_of(style: Seq<char>) -> Seq<char> {
    image_prompt_text(CARD_BACK@, style, "the card back design"@)
}

/// Prompt of the corner flourish.
pub open spec fn flourish_prompt_of(style: Seq<char>) -> Seq<char> {
    image_prompt_text(FLOURISH@, style, "a single decorative corner flourish"@)
}

/// The style guide and the images it needs, plus the session that records it.
pub struct StyleGuidePlan {
    /// Border chrome, card back, flourish: in that order.
    pub jobs: Vec<ImageJob>,
    pub guide: CardStyleGuide,
    pub session: DeckCreationSession,
}

/// The guide planned for session `s` (stored under `sid`) from option `chosen_id`.
pub open spec fn planned_guide(
    g: CardStyleGuide,
    sid: Seq<char>,
    s: DeckCreationSession,
    chosen_id: Seq<char>,
) -> bool {
    &&& g.id@ == "sg-"@ + s.id@
    &&& g.version == 1
    &&& g.derived_from_style_option_id@ == chosen_id
    &&& g.prompt_used@ == border_prompt_of(s.deck_style_text.0@)
    &&& g.border_chrome_key@ == draft_key_of(sid, "style-guide/border-chrome.png"@)
    &&& g.card_back_key@ == draft_key_of(sid, "style-guide/card-back.png"@)
    &&& g.card_front_layout == guide_layout()
    &&& g.shader_areas@.len() == 1
    &&& g.shader_areas@[0].id@ == "uv-frame"@
    &&& g.shader_areas@[0].rect == (Rect { x: 0, y: 0, w: 1000, h: 1000 })
    &&& g.shader_areas@[0].kind@ == "foil"@
    &&& g.flourishes@.len() == 1
    &&& g.flourishes@[0].asset_key@ == draft_key_of(sid, "style-guide/flourish-1.png"@)
    &&& g.flourishes@[0].rect == (Rect { x: 0, y: 0, w: 150, h: 150 })
    &&& g.flourishes@[0].rotation == 0
}

/// Auto-derive the card style guide from the chosen style option. Without a chosen option
/// nothing is planned. The session records the three composed prompts (`cardBorder`,
/// `cardBack`, `flourish`) and the guide, and moves to the style-guide step.
pub fn plan_style_guide(session_id: &str, session: DeckCreationSession) -> (r: Result<
    StyleGuidePlan,
    SibylError,
>)
    ensures
        match r {
            Err(e) => chosen_position(session) is None && e matches SibylError::NoStyleSelected,
            Ok(plan) => chosen_position(session) matches Some(i) && {
                let style = session.deck_style_text.0@;
                let gs = guide_seed_of(session.seed);
                &&& planned_guide(plan.guide, session_id@, session, session.style_options@[i].id@)
                &&& plan.guide.card_front_layout.aspect == 660
                &&& plan.guide.card_front_layout.suit_icon == (Rect { x: 50, y: 50, w: 180, h: 180 })
                &&& plan.guide.card_front_layout.card_imagery == (Rect {
                    x: 100,
                    y: 180,
                    w: 800,
                    h: 620,
                })
                &&& plan.guide.card_front_layout.title == (Rect { x: 0, y: 860, w: 1000, h: 100 })
                &&& plan.jobs@.len() == 3
                &&& plan.jobs@[0].key == plan.guide.border_chrome_key
                &&& plan.jobs@[0].request.prompt@ == border_prompt_of(style)
                &&& plan.jobs@[0].request.seed == sub_seed_of(gs, "chrome"@)
                &&& plan.jobs@[1].key == plan.guide.card_back_key
                &&& plan.jobs@[1].request.prompt@ == back_prompt_of(style)
                &&& plan.jobs@[1].request.seed == sub_seed_of(gs, "back"@)
                &&& plan.jobs@[2].key == plan.guide.flourishes@[0].asset_key
                &&& plan.jobs@[2].request.prompt@ == flourish_prompt_of(style)
                &&& plan.jobs@[2].request.seed == sub_seed_of(gs, "flourish"@)
                &&& forall|j: int| 0 <= j < 3 ==> (#[trigger] plan.jobs@[j]).request.size == asset_size()
                &&& plan.session.id == session.id && plan.session.seed == session.seed
                &&& plan.session.iconography_rules == session.iconography_rules
                &&& plan.session.deck_style_text == session.deck_style_text
                &&& plan.session.style_options@ == session.style_options@
                &&& plan.session.chosen_style_option_id == session.chosen_style_option_id
                &&& plan.session.sample_card == session.sample_card
                &&& plan.session.round == session.round
                &&& plan.session.status == SessionStatus::StyleGuide
                &&& plan.session.style_guide matches Some(g) && same_guide(g, plan.guide)
                &&& plan.session.provenance.seed == session.provenance.seed
                &&& plan.session.provenance.iconography_rules == session.provenance.iconography_rules
                &&& plan.session.provenance.deck_style_text == session.provenance.deck_style_text
                &&& plan.session.provenance.chosen_style_option_id
                    == session.provenance.chosen_style_option_id
                &&& plan.session.provenance.court_card_shown == session.provenance.court_card_shown
                &&& plan.session.provenance.provider_id == session.provenance.provider_id
                &&& plan.session.provenance.model_id == session.provenance.model_id
                &&& plan.session.provenance.prompts@ == session.provenance.prompts@.insert(
                    "cardBorder"@,
                    border_prompt_of(style),
                ).insert("cardBack"@, back_prompt_of(style)).insert(
                    "flourish"@,
                    flourish_prompt_of(style),
                )
            },
        },
{
    let chosen_id = match session.chosen_option() {
        Some(o) => o.id.clone(),
        None => return Err(SibylError::NoStyleSelected),
    };
    let style = session.deck_style_text.as_str();
    let sg_seed = sub_seed(session.seed, "style-guide");
    let border_prompt = build_image_prompt(CARD_BORDER, style, "the card border and chrome frame");
    let back_prompt = build_image_prompt(CARD_BACK, style, "the card back design");
    let flourish_prompt = build_image_prompt(
        FLOURISH,
        style,
        "a single decorative corner flourish",
    );
    let border_chrome_key = draft_key(session_id, "style-guide/border-chrome.png");
    let card_back_key = draft_key(session_id, "style-guide/card-back.png");
    let flourish_key = draft_key(session_id, "style-guide/flourish-1.png");
    let mut jobs: Vec<ImageJob> = Vec::new();
    jobs.push(
        asset_job(border_chrome_key.clone(), border_prompt.clone(), sub_seed(sg_seed, "chrome")),
    );
    jobs.push(asset_job(card_back_key.clone(), back_prompt.clone(), sub_seed(sg_seed, "back")));
    jobs.push(
        asset_job(flourish_key.clone(), flourish_prompt.clone(), sub_seed(sg_seed, "flourish")),
    );
    let mut guide_id = String::from_str("sg-");
    guide_id.append(session.id.as_str());
    let mut shader_areas: Vec<ShaderArea> = Vec::new();
    shader_areas.push(
        ShaderArea {
            id: String::from_str("uv-frame"),
            rect: Rect::new(0, 0, 1000, 1000),
            kind: String::from_str("foil"),
        },
    );
    let mut flourishes: Vec<FlourishRef> = Vec::new();
    flourishes.push(
        FlourishRef { asset_key: flourish_key, rect: Rect::new(0, 0, 150, 150), rotation: 0 },
    );
    let guide = CardStyleGuide {
        id: guide_id,
        version: 1,
        derived_from_style_option_id: chosen_id,
        prompt_used: border_prompt.clone(),
        border_chrome_key,
        card_back_key,
        card_front_layout: FrontLayout {
            aspect: 660,
            suit_icon: Rect::new(50, 50, 180, 180),
            card_imagery: Rect::new(100, 180, 800, 620),
            title: Rect::new(0, 860, 1000, 100),
        },
        shader_areas,
        flourishes,
    };
    let mut session = session;
    session.provenance.prompts.insert(String::from_str("cardBorder"), border_prompt);
    session.provenance.prompts.insert(String::from_str("cardBack"), back_prompt);
    session.provenance.prompts.insert(String::from_str("flourish"), flourish_prompt);
    session.style_guide = Some(guide.duplicate());
    session.status = SessionStatus::StyleGuide;
    Ok(StyleGuidePlan { jobs, guide, session })
}

} // verus!
