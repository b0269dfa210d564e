//! The single court-card sample: a seeded court-card pick, just-in-time imagery from the
//! background rules, and the canonical composite of the front (imagery, suit icon, border
//! chrome) over a parchment canvas. Deterministic given the session seed.
use vstd::prelude::*;

use crate::court::{all_court_cards, slug_of, CourtCardId};
use crate::errors::SibylError;
use crate::model::{
    chosen_position, Approval, CardStyleGuide, DeckCreationSession, FrontLayout, SampleCard, SessionStatus,
    StyleOption, SuitIcon,
};
use crate::pipeline::session::{asset_job, asset_size, draft_key, draft_key_of, ImageJob};
use crate::pipeline::style_guide::planned_guide;
use crate::prompt::{build_image_prompt, image_prompt_text};
use crate::providers::error::ProviderId;
use crate::render::{canvas_after, compose, png_encoding, Layer, RenderError};
use crate::rng::{court_card_for, select_court_card, sub_seed, sub_seed_of};
use crate::rules::BACKGROUND_IMAGE;
use crate::suit::Suit;

verus! {

/// Canvas width of the canonical sample render, in pixels.
pub const CARD_W: u32 = 256;

/// Background of the sample front: warm parchment, opaque.
pub open spec fn parchment() -> Seq<u8> {
    seq![245u8, 240u8, 230u8, 255u8]
}

/// Height of the sample canvas for a layout: the width over the aspect, rounded to the
/// nearest pixel (`aspect` in thousandths).
pub open spec fn card_height_of(aspect: u32) -> u32 {
    ((512000 + aspect) / (2 * aspect)) as u32
}

/// Pixel offset of a coordinate in thousandths along an extent of `extent` pixels.
pub open spec fn offset_of(milli: u32, extent: u32) -> i64 {
    ((milli as int * extent as int) / 1000) as i64
}

/// Subject of the sample imagery for a court card.
pub open spec fn imagery_subject_of(c: CourtCardId) -> Seq<char> {
    "card imagery for the "@ + slug_of(c) + ": depict the "@ + slug_of(c)
}

/// The court card a session shows: the pick of the session's `court` sub-seed.
pub open spec fn session_court_card(s: DeckCreationSession) -> CourtCardId {
    court_card_for(sub_seed_of(s.seed, "court"@))
}

/// The first icon of `suit`, if any.
pub open spec fn icon_position(icons: Seq<SuitIcon>, suit: Suit) -> Option<int> {
    if exists|i: int| 0 <= i < icons.len() && (#[trigger] icons[i]).suit == suit {
        Some(
            choose|i: int|
                0 <= i < icons.len() && icons[i].suit == suit && forall|j: int|
                    0 <= j < i ==> (#[trigger] icons[j]).suit != suit,
        )
    } else {
        None
    }
}

/// The style guide's card is a portrait tarot card: its aspect (width over height) is 0.66,
/// so the sample front drawn from it is 256 pixels wide and 388 tall, taller than wide.
pub proof fn lemma_planned_guide_is_portrait(
    g: CardStyleGuide,
    sid: Seq<char>,
    s: DeckCreationSession,
    chosen_id: Seq<char>,
)
    requires
        planned_guide(g, sid, s, chosen_id),
    ensures
        g.card_front_layout.aspect == 660,
        g.card_front_layout.aspect < 1000,
        card_height_of(g.card_front_layout.aspect) == 388,
        card_height_of(g.card_front_layout.aspect) > CARD_W,
{
    assert((512000 + 660int) / (2 * 660int) == 388);
}

/// What the sample needs before any layer is read.
pub struct SamplePlan {
    pub court: CourtCardId,
    pub imagery_prompt: String,
    /// The imagery to generate; its key is `sample/imagery.png` in the draft.
    pub imagery: ImageJob,
    pub front_key: String,
    pub back_key: String,
    pub chrome_key: String,
    /// Key of the chosen option's icon for the court card's suit, when it has one.
    pub icon_key: Option<String>,
    pub layout: FrontLayout,
}

fn find_icon(icons: &Vec<SuitIcon>, suit: Suit) -> (r: Option<String>)
    ensures
        match r {
            Some(k) => icon_position(icons@, suit) matches Some(i) && k == icons@[i].image_key,
            None => icon_position(icons@, suit) is None,
        },
{
    let n = icons.len();
    for i in 0..n
        invariant
            n == icons@.len(),
            forall|j: int| 0 <= j < i ==> (#[trigger] icons@[j]).suit != suit,
    {
        if icons[i].suit == suit {
            proof {
                let w = choose|w: int|
                    0 <= w < icons@.len() && icons@[w].suit == suit && forall|j: int|
                        0 <= j < w ==> (#[trigger] icons@[j]).suit != suit;
                assert(icons@[i as int].suit == suit);
                if w < i {
                } else if w > i {
                }
            }
            return Some(icons[i].image_key.clone());
        }
    }
    None
}

/// Plan the sample for a session stored under `session_id`: it needs a style guide (checked
/// first) and a chosen option.
pub fn plan_sample(session_id: &str, session: &DeckCreationSession) -> (r: Result<
    SamplePlan,
    SibylError,
>)
    ensures
        match r {
            Err(e) => (session.style_guide is None && e matches SibylError::NoStyleGuide) || (
            session.style_guide is Some && chosen_position(*session) is None
                && e matches SibylError::NoStyleSelected),
            Ok(p) => session.style_guide matches Some(g) && chosen_position(*session) matches Some(
                ci,
            ) && {
                let c = session_court_card(*session);
                let prompt = image_prompt_text(
                    BACKGROUND_IMAGE@,
                    session.deck_style_text.0@,
                    imagery_subject_of(c),
                );
                let icons = session.style_options@[ci].suit_icons@;
                &&& p.court == c
                &&& all_court_cards().contains(p.court)
                &&& p.imagery_prompt@ == prompt
                &&& p.imagery.key@ == draft_key_of(session_id@, "sample/imagery.png"@)
                &&& p.imagery.request.prompt@ == prompt
                &&& p.imagery.request.seed == sub_seed_of(session.seed, "imagery-"@ + slug_of(c))
                &&& p.imagery.request.size == asset_size()
                &&& p.front_key@ == draft_key_of(session_id@, "sample/front.png"@)
                &&& p.back_key == g.card_back_key
                &&& p.chrome_key == g.border_chrome_key
                &&& p.layout == g.card_front_layout
                &&& match p.icon_key {
                    Some(k) => icon_position(icons, c.suit) matches Some(ii) && k
                        == icons[ii].image_key,
                    None => icon_position(icons, c.suit) is None,
                }
            },
        },
{
    let guide = match &session.style_guide {
        Some(g) => g,
        None => return Err(SibylError::NoStyleGuide),
    };
    let chosen: &StyleOption = match session.chosen_option() {
        Some(o) => o,
        None => return Err(SibylError::NoStyleSelected),
    };
    let court = select_court_card(sub_seed(session.seed, "court"));
    let slug = court.slug();
    let mut subject = String::from_str("card imagery for the ");
    subject.append(slug.as_str());
    subject.append(": depict the ");
    subject.append(slug.as_str());
    let imagery_prompt = build_image_prompt(
        BACKGROUND_IMAGE,
        session.deck_style_text.as_str(),
        subject.as_str(),
    );
    let mut seed_label = String::from_str("imagery-");
    seed_label.append(slug.as_str());
    let imagery = asset_job(
        draft_key(session_id, "sample/imagery.png"),
        imagery_prompt.clone(),
        sub_seed(session.seed, seed_label.as_str()),
    );
    Ok(
        SamplePlan {
            court,
            imagery_prompt,
            imagery,
            front_key: draft_key(session_id, "sample/front.png"),
            back_key: guide.card_back_key.clone(),
            chrome_key: guide.border_chrome_key.clone(),
            icon_key: find_icon(&chosen.suit_icons, court.suit),
            layout: guide.card_front_layout,
        },
    )
}

impl SamplePlan {
    /// The storage keys of the suit icon and the border chrome to lay over the imagery;
    /// refused when the chosen option has no icon for the court card's suit.
    pub fn layer_keys(&self) -> (r: Result<(String, String), SibylError>)
        ensures
            match r {
                Ok((icon, chrome)) => self.icon_key == Some(icon) && chrome == self.chrome_key,
                Err(e) => self.icon_key is None && (e matches SibylError::InvalidState(m) && m@
                    == "chosen style missing suit"@),
            },
    {
        match &self.icon_key {
            Some(k) => Ok((k.clone(), self.chrome_key.clone())),
            None => Err(SibylError::InvalidState(String::from_str("chosen style missing suit"))),
        }
    }
}

/// Height of the sample canvas for a layout.
pub fn card_height(aspect: u32) -> (h: u32)
    requires
        aspect > 0,
    ensures
        h == card_height_of(aspect),
        h <= 256000,
{
    let a = aspect as u64;
    let h = (512000 + a) / (2 * a);
    assert(h <= 256000) by (nonlinear_arith)
        requires
            a >= 1,
            h == (512000 + a) / (2 * a),
    ;
    h as u32
}

/// Pixel offset of a coordinate in thousandths along `extent` pixels.
pub fn offset(milli: u32, extent: u32) -> (o: i64)
    requires
        extent <= 256000,
    ensures
        o == offset_of(milli, extent),
{
    assert((milli as int) * (extent as int) <= 0xffff_ffff * 256000) by (nonlinear_arith)
        requires
            0 <= milli <= 0xffff_ffff,
            0 <= extent <= 256000,
    ;
    let p = (milli as u64) * (extent as u64);
    (p / 1000) as i64
}

/// The layers of the sample front, bottom first: the imagery in its area, the suit icon in
/// its area, the border chrome over the whole card.
pub open spec fn front_layers(
    layout: FrontLayout,
    imagery: Seq<u8>,
    icon: Seq<u8>,
    chrome: Seq<u8>,
) -> Seq<(Seq<u8>, i64, i64)> {
    let h = card_height_of(layout.aspect);
    seq![
        (imagery, offset_of(layout.card_imagery.x, CARD_W), offset_of(layout.card_imagery.y, h)),
        (icon, offset_of(layout.suit_icon.x, CARD_W), offset_of(layout.suit_icon.y, h)),
        (chrome, 0i64, 0i64),
    ]
}

/// Where the sample front's layers go, bottom first: the imagery at the top-left corner of
/// the layout's imagery area, the suit icon at the top-left corner of the layout's suit-icon
/// area, and the border chrome over the whole card. Each corner is the area's coordinates
/// (in thousandths) scaled to the 256 pixel wide card and to its height, rounded down.
pub proof fn lemma_front_layers_follow_the_layout(
    layout: FrontLayout,
    imagery: Seq<u8>,
    icon: Seq<u8>,
    chrome: Seq<u8>,
)
    ensures
        ({
            let h = card_height_of(layout.aspect) as int;
            let layers = front_layers(layout, imagery, icon, chrome);
            &&& layers.len() == 3
            &&& layers[0].0 == imagery
            &&& layers[0].1 == ((layout.card_imagery.x as int * 256) / 1000) as i64
            &&& layers[0].2 == ((layout.card_imagery.y as int * h) / 1000) as i64
            &&& layers[1].0 == icon
            &&& layers[1].1 == ((layout.suit_icon.x as int * 256) / 1000) as i64
            &&& layers[1].2 == ((layout.suit_icon.y as int * h) / 1000) as i64
            &&& layers[2] == (chrome, 0i64, 0i64)
        }),
{
}

/// Composite the sample front: a `256` x `256 / aspect` parchment canvas with the imagery,
/// the suit icon and the border chrome laid over it.
pub fn compose_sample_front(layout: FrontLayout, imagery: &[u8], icon: &[u8], chrome: &[u8]) -> (r:
    Result<Vec<u8>, SibylError>)
    requires
        layout.aspect > 0,
    ensures
        ({
            let h = card_height_of(layout.aspect);
            let canvas = canvas_after(
                CARD_W,
                h,
                parchment(),
                front_layers(layout, imagery@, icon@, chrome@),
            );
            match r {
                Ok(bytes) => canvas matches Ok(c) && png_encoding(CARD_W, h, c) == Ok::<
                    Seq<u8>,
                    Seq<char>,
                >(bytes@),
                Err(e) => e matches SibylError::Render(m) && (match canvas {
                    Err(d) => m@ == "decode error: "@ + d,
                    Ok(c) => png_encoding(CARD_W, h, c) matches Err(x) && m@ == "encode error: "@
                        + x,
                }),
            }
        }),
{
    let h = card_height(layout.aspect);
    let ix = offset(layout.card_imagery.x, CARD_W);
    let iy = offset(layout.card_imagery.y, h);
    let sx = offset(layout.suit_icon.x, CARD_W);
    let sy = offset(layout.suit_icon.y, h);
    let layers = [
        Layer { png: imagery, x: ix, y: iy },
        Layer { png: icon, x: sx, y: sy },
        Layer { png: chrome, x: 0, y: 0 },
    ];
    assert(4 * CARD_W * h <= 4 * 256 * 256000) by (nonlinear_arith)
        requires
            h <= 256000,
    ;
    proof {
        let lv = crate::render::layer_views(layers@);
        assert(lv =~= front_layers(layout, imagery@, icon@, chrome@));
    }
    match compose(CARD_W, h, [245u8, 240u8, 230u8, 255u8], &layers) {
        Ok(bytes) => Ok(bytes),
        Err(e) => Err(SibylError::from_render(&e)),
    }
}

/// Record the composed sample in the session: the sample card (pending approval, back from
/// the style guide), the imagery prompt under `sampleImagery`, the court card shown and the
/// image provider's identity; the wizard moves to review.
pub fn finish_sample(session: DeckCreationSession, plan: SamplePlan, image_id: ProviderId) -> (r: (
    DeckCreationSession,
    SampleCard,
))
    ensures
        ({
            let (s, card) = r;
            &&& card.court_card == plan.court
            &&& card.card_imagery_key == plan.imagery.key
            &&& card.front_key == plan.front_key
            &&& card.back_key == plan.back_key
            &&& card.approval == Approval::Pending
            &&& s.sample_card == Some(card)
            &&& s.status == SessionStatus::Review
            &&& s.id == session.id && s.seed == session.seed
            &&& s.iconography_rules == session.iconography_rules
            &&& s.deck_style_text == session.deck_style_text
            &&& s.style_options@ == session.style_options@
            &&& s.chosen_style_option_id == session.chosen_style_option_id
            &&& s.style_guide == session.style_guide && s.round == session.round
            &&& s.provenance.seed == session.provenance.seed
            &&& s.provenance.iconography_rules == session.provenance.iconography_rules
            &&& s.provenance.deck_style_text == session.provenance.deck_style_text
            &&& s.provenance.chosen_style_option_id == session.provenance.chosen_style_option_id
            &&& s.provenance.court_card_shown == Some(plan.court)
            &&& s.provenance.provider_id == image_id.provider
            &&& s.provenance.model_id == image_id.model
            &&& s.provenance.prompts@ == session.provenance.prompts@.insert(
                "sampleImagery"@,
                plan.imagery_prompt@,
            )
        }),
{
    let sample = SampleCard {
        court_card: plan.court,
        card_imagery_key: plan.imagery.key,
        front_key: plan.front_key,
        back_key: plan.back_key,
        approval: Approval::Pending,
    };
    let mut session = session;
    session.provenance.prompts.insert(String::from_str("sampleImagery"), plan.imagery_prompt);
    session.provenance.court_card_shown = Some(plan.court);
    session.provenance.provider_id = image_id.provider;
    session.provenance.model_id = image_id.model;
    session.sample_card = Some(sample.duplicate());
    session.status = SessionStatus::Review;
    (session, sample)
}

} // verus!
