//! Approval and rejection of the sample. Approval promotes the draft into a permanent,
//! self-contained bundle (every referenced asset is copied under the deck's own prefix) and
//! finalizes provenance; rejection returns the inputs for editing. Either way the draft is
//! discarded.
use vstd::prelude::*;

use crate::errors::SibylError;
use crate::model::{
    chosen_position, CardStyleGuide, Deck, DeckCreationSession, FlourishRef, GenerationProvenance,
    SuitIcon,
};
use crate::pipeline::session::{drafts_prefix, drafts_prefix_of, session_id_of};
use crate::text::{
    chars_of, find_first, first_occurrence, has_prefix, lemma_first_occurrence, occurs_at,
    same_text, string_of, hex_digits, lemma_hex16_injective,
};

verus! {

/// Inputs returned to the wizard after a rejection so they can be edited and retried.
#[derive(Debug, Clone)]
pub struct RestartInputs {
    pub rules: String,
    pub style: String,
}

/// `s` with the first occurrence of `from` replaced by `to` (`str::replacen(from, to, 1)`).
pub open spec fn replace_first(s: Seq<char>, from: Seq<char>, to: Seq<char>) -> Seq<char> {
    match first_occurrence(s, from) {
        Some(i) => s.subrange(0, i) + to + s.subrange(i + from.len(), s.len() as int),
        None => s,
    }
}

/// The id of the deck a session is approved into: `deck-{sid}`.
pub open spec fn deck_id_of(sid: Seq<char>) -> Seq<char> {
    "deck-"@ + sid
}

/// Prefix of a deck's bundle: `decks/{deck_id}/`.
pub open spec fn deck_prefix_of(deck_id: Seq<char>) -> Seq<char> {
    "decks/"@ + deck_id + "/"@
}

/// Where a draft key of session `sid` lives in deck `deck_id`: the draft prefix
/// `decks/_drafts/{sid}/` is replaced, once, by `decks/{deck_id}/`.
pub open spec fn relocated_of(key: Seq<char>, sid: Seq<char>, deck_id: Seq<char>) -> Seq<char> {
    replace_first(key, drafts_prefix_of(sid) + "/"@, deck_prefix_of(deck_id))
}

/// `s` with the first occurrence of `from` replaced by `to`.
pub fn replace_first_str(s: &str, from: &str, to: &str) -> (r: String)
    ensures
        r@ == replace_first(s@, from@, to@),
{
    let cs = chars_of(s);
    let fs = chars_of(from);
    match find_first(&cs, &fs) {
        Some(i) => {
            proof {
                lemma_first_occurrence(cs@, fs@);
            }
            assert(cs@.len() == cs.len());
            let mut out = string_of(&cs.as_slice()[0..i]);
            out.append(to);
            let tail = string_of(&cs.as_slice()[i + fs.len()..cs.len()]);
            out.append(tail.as_str());
            out
        },
        None => String::from_str(s),
    }
}

/// Move a draft key of session `sid` under deck `deck_id`.
pub fn relocate(key: &str, sid: &str, deck_id: &str) -> (r: String)
    ensures
        r@ == relocated_of(key@, sid@, deck_id@),
{
    let mut from = drafts_prefix(sid);
    from.append("/");
    let mut to = String::from_str("decks/");
    to.append(deck_id);
    to.append("/");
    replace_first_str(key, from.as_str(), to.as_str())
}

/// A key under the draft of `sid` moves under the deck's own prefix.
pub proof fn lemma_relocated_under_deck(key: Seq<char>, sid: Seq<char>, deck_id: Seq<char>)
    requires
        has_prefix(key, drafts_prefix_of(sid) + "/"@),
    ensures
        has_prefix(relocated_of(key, sid, deck_id), deck_prefix_of(deck_id)),
{
    let from = drafts_prefix_of(sid) + "/"@;
    lemma_first_occurrence(key, from);
    assert(occurs_at(key, from, 0));
    let r = relocated_of(key, sid, deck_id);
    let to = deck_prefix_of(deck_id);
    assert(first_occurrence(key, from) == Some(0int));
    assert(r.subrange(0, to.len() as int) =~= to);
}

/// What approval does: the copies into the bundle (from draft key to deck key, in order),
/// the deck manifest to write and activate, and the draft prefix to discard.
pub struct ApprovalPlan {
    pub copies: Vec<(String, String)>,
    pub deck: Deck,
    pub drafts_prefix: String,
}

/// `(from, to)` copies `key` to its place in the deck.
pub open spec fn copies_to_deck(c: (String, String), key: Seq<char>, sid: Seq<char>, deck_id: Seq<
    char,
>) -> bool {
    c.0@ == key && c.1@ == relocated_of(key, sid, deck_id)
}

/// The approved deck's style guide: the guide with its chrome, back and flourish assets
/// moved into the deck.
pub open spec fn promoted_guide(
    g: CardStyleGuide,
    old: CardStyleGuide,
    sid: Seq<char>,
    deck_id: Seq<char>,
) -> bool {
    &&& g.id == old.id && g.version == old.version
    &&& g.derived_from_style_option_id == old.derived_from_style_option_id
    &&& g.prompt_used == old.prompt_used && g.card_front_layout == old.card_front_layout
    &&& g.shader_areas@ == old.shader_areas@
    &&& g.border_chrome_key@ == relocated_of(old.border_chrome_key@, sid, deck_id)
    &&& g.card_back_key@ == relocated_of(old.card_back_key@, sid, deck_id)
    &&& g.flourishes@.len() == old.flourishes@.len()
    &&& forall|i: int|
        0 <= i < g.flourishes@.len() ==> {
            &&& (#[trigger] g.flourishes@[i]).asset_key@ == relocated_of(
                old.flourishes@[i].asset_key@,
                sid,
                deck_id,
            )
            &&& g.flourishes@[i].rect == old.flourishes@[i].rect
            &&& g.flourishes@[i].rotation == old.flourishes@[i].rotation
        }
}

/// Approve the sample: promote the draft into a permanent bundle and mark it the single
/// active deck. Refused without a sample, a style guide or a chosen option, checked in that
/// order. The provenance is finalized with the chosen option.
pub fn plan_approval(session: &DeckCreationSession) -> (r: Result<ApprovalPlan, SibylError>)
    ensures
        match r {
            Err(e) => {
                ||| (session.sample_card is None && e matches SibylError::NothingToApprove)
                ||| (session.sample_card is Some && session.style_guide is None
                    && e matches SibylError::NoStyleGuide)
                ||| (session.sample_card is Some && session.style_guide is Some && chosen_position(
                    *session,
                ) is None && e matches SibylError::NoStyleSelected)
            },
            Ok(p) => session.sample_card is Some && (session.style_guide matches Some(g)
                && chosen_position(*session) matches Some(ci) && {
                let sid = session.id@;
                let did = deck_id_of(sid);
                let icons = session.style_options@[ci].suit_icons@;
                let ni = icons.len();
                let nf = g.flourishes@.len();
                &&& p.deck.id@ == did
                &&& p.deck.active
                &&& p.deck.suit_icons@.len() == ni
                &&& forall|i: int|
                    0 <= i < ni ==> (#[trigger] p.deck.suit_icons@[i]).suit == icons[i].suit
                        && p.deck.suit_icons@[i].image_key@ == relocated_of(
                        icons[i].image_key@,
                        sid,
                        did,
                    )
                &&& promoted_guide(p.deck.style_guide, g, sid, did)
                &&& p.deck.provenance.seed == session.provenance.seed
                &&& p.deck.provenance.iconography_rules == session.provenance.iconography_rules
                &&& p.deck.provenance.deck_style_text == session.provenance.deck_style_text
                &&& p.deck.provenance.chosen_style_option_id == Some(
                    session.style_options@[ci].id,
                )
                &&& p.deck.provenance.court_card_shown == session.provenance.court_card_shown
                &&& p.deck.provenance.provider_id == session.provenance.provider_id
                &&& p.deck.provenance.model_id == session.provenance.model_id
                &&& p.deck.provenance.prompts@ == session.provenance.prompts@
                &&& p.copies@.len() == ni + 2 + nf
                &&& forall|i: int|
                    0 <= i < ni ==> copies_to_deck(#[trigger] p.copies@[i], icons[i].image_key@, sid, did)
                &&& copies_to_deck(p.copies@[ni as int], g.border_chrome_key@, sid, did)
                &&& copies_to_deck(p.copies@[ni + 1int], g.card_back_key@, sid, did)
                &&& forall|j: int|
                    0 <= j < nf ==> copies_to_deck(
                        #[trigger] p.copies@[ni + 2 + j],
                        g.flourishes@[j].asset_key@,
                        sid,
                        did,
                    )
                &&& p.drafts_prefix@ == drafts_prefix_of(sid)
            }),
        },
{
    if session.sample_card.is_none() {
        return Err(SibylError::NothingToApprove);
    }
    let guide = match &session.style_guide {
        Some(g) => g,
        None => return Err(SibylError::NoStyleGuide),
    };
    let chosen = match session.chosen_option() {
        Some(o) => o,
        None => return Err(SibylError::NoStyleSelected),
    };
    let sid = session.id.as_str();
    let mut deck_id = String::from_str("deck-");
    deck_id.append(sid);
    let ghost did = deck_id@;
    let mut copies: Vec<(String, String)> = Vec::new();
    let mut suit_icons: Vec<SuitIcon> = Vec::new();
    let ni = chosen.suit_icons.len();
    for i in 0..ni
        invariant
            ni == chosen.suit_icons@.len(),
            deck_id@ == did,
            sid@ == session.id@,
            copies@.len() == i,
            suit_icons@.len() == i,
            forall|k: int|
                0 <= k < i ==> copies_to_deck(
                    #[trigger] copies@[k],
                    chosen.suit_icons@[k].image_key@,
                    sid@,
                    did,
                ),
            forall|k: int|
                0 <= k < i ==> (#[trigger] suit_icons@[k]).suit == chosen.suit_icons@[k].suit
                    && suit_icons@[k].image_key@ == relocated_of(
                    chosen.suit_icons@[k].image_key@,
                    sid@,
                    did,
                ),
    {
        let icon = &chosen.suit_icons[i];
        let new_key = relocate(icon.image_key.as_str(), sid, deck_id.as_str());
        copies.push((icon.image_key.clone(), new_key.clone()));
        suit_icons.push(SuitIcon { suit: icon.suit, image_key: new_key });
    }
    let border_chrome_key = relocate(guide.border_chrome_key.as_str(), sid, deck_id.as_str());
    copies.push((guide.border_chrome_key.clone(), border_chrome_key.clone()));
    let card_back_key = relocate(guide.card_back_key.as_str(), sid, deck_id.as_str());
    copies.push((guide.card_back_key.clone(), card_back_key.clone()));
    let mut flourishes: Vec<FlourishRef> = Vec::new();
    let nf = guide.flourishes.len();
    for j in 0..nf
        invariant
            nf == guide.flourishes@.len(),
            deck_id@ == did,
            sid@ == session.id@,
            copies@.len() == ni + 2 + j,
            flourishes@.len() == j,
            forall|k: int|
                0 <= k < ni ==> copies_to_deck(
                    #[trigger] copies@[k],
                    chosen.suit_icons@[k].image_key@,
                    sid@,
                    did,
                ),
            copies_to_deck(copies@[ni as int], guide.border_chrome_key@, sid@, did),
            copies_to_deck(copies@[ni + 1], guide.card_back_key@, sid@, did),
            forall|k: int|
                0 <= k < j ==> copies_to_deck(
                    #[trigger] copies@[ni + 2 + k],
                    guide.flourishes@[k].asset_key@,
                    sid@,
                    did,
                ),
            forall|k: int|
                0 <= k < j ==> {
                    &&& (#[trigger] flourishes@[k]).asset_key@ == relocated_of(
                        guide.flourishes@[k].asset_key@,
                        sid@,
                        did,
                    )
                    &&& flourishes@[k].rect == guide.flourishes@[k].rect
                    &&& flourishes@[k].rotation == guide.flourishes@[k].rotation
                },
    {
        let f = &guide.flourishes[j];
        let new_key = relocate(f.asset_key.as_str(), sid, deck_id.as_str());
        copies.push((f.asset_key.clone(), new_key.clone()));
        flourishes.push(FlourishRef { asset_key: new_key, rect: f.rect, rotation: f.rotation });
    }
    let guide_copy = guide.duplicate();
    let style_guide = CardStyleGuide {
        border_chrome_key,
        card_back_key,
        flourishes,
        ..guide_copy
    };
    let base = session.provenance.duplicate();
    let provenance = GenerationProvenance {
        chosen_style_option_id: Some(chosen.id.clone()),
        ..base
    };
    let deck = Deck { id: deck_id, active: true, suit_icons, style_guide, provenance };
    Ok(ApprovalPlan { copies, deck, drafts_prefix: drafts_prefix(sid) })
}

/// The id of the deck a session is approved into.
pub fn approved_deck_id(sid: &str) -> (id: String)
    ensures
        id@ == deck_id_of(sid@),
{
    let mut id = String::from_str("deck-");
    id.append(sid);
    id
}

/// What approving a session again yields once its draft is gone: the deck stored under the
/// session's deck id, active; nothing when the stored deck belongs to another session.
pub open spec fn reapproved(sid: Seq<char>, deck: Deck) -> Option<Deck> {
    if deck.id@ == deck_id_of(sid) {
        Some(Deck { active: true, ..deck })
    } else {
        None
    }
}

/// Approval asked again for a session already approved (its draft discarded): the deck it
/// was approved into, marked active again, so approving is idempotent per session. A deck
/// of another session answers as an unknown session.
pub fn reapprove(session_id: &str, deck: Deck) -> (r: Result<Deck, SibylError>)
    ensures
        match r {
            Ok(d) => reapproved(session_id@, deck) == Some(d),
            Err(e) => reapproved(session_id@, deck) is None && (e matches SibylError::UnknownSession(
                id,
            ) && id@ == session_id@),
        },
{
    let expected = approved_deck_id(session_id);
    if same_text(deck.id.as_str(), expected.as_str()) {
        Ok(Deck { active: true, ..deck })
    } else {
        Err(SibylError::UnknownSession(String::from_str(session_id)))
    }
}

/// Approval is idempotent per session: once a session's approval planned `deck` (its id is
/// the session's deck id and it is active), approving the same session again yields that
/// very deck.
pub proof fn lemma_approval_idempotent(session: DeckCreationSession, deck: Deck)
    requires
        deck.id@ == deck_id_of(session.id@),
        deck.active,
    ensures
        reapproved(session.id@, deck) == Some(deck),
{
    assert(Deck { active: true, ..deck } == deck);
}

/// Sessions started from different seeds are approved into different decks: their ids, and
/// so their deck ids, differ. Approving a second such session therefore moves the single
/// active deck to a deck other than the first.
pub proof fn lemma_distinct_seeds_give_distinct_decks(a: u64, b: u64)
    requires
        a != b,
    ensures
        session_id_of(a) != session_id_of(b),
        deck_id_of(session_id_of(a)) != deck_id_of(session_id_of(b)),
{
    reveal_strlit("sess-");
    reveal_strlit("deck-");
    let ha = hex_digits(a as nat, 16);
    let hb = hex_digits(b as nat, 16);
    if session_id_of(a) == session_id_of(b) || deck_id_of(session_id_of(a)) == deck_id_of(
        session_id_of(b),
    ) {
        if deck_id_of(session_id_of(a)) == deck_id_of(session_id_of(b)) {
            assert(session_id_of(a) =~= deck_id_of(session_id_of(a)).skip(5));
            assert(session_id_of(b) =~= deck_id_of(session_id_of(b)).skip(5));
        }
        assert(ha =~= session_id_of(a).skip(5));
        assert(hb =~= session_id_of(b).skip(5));
        lemma_hex16_injective(a, b);
    }
}

/// Every key the approved deck references is the destination of one of the plan's copies,
/// so once the copies are made the bundle is self-contained.
pub proof fn lemma_approved_deck_is_self_contained(session: DeckCreationSession, p: ApprovalPlan)
    requires
        session.style_guide is Some,
        chosen_position(session) is Some,
        ({
            let g = session.style_guide->Some_0;
            let ci = chosen_position(session)->Some_0;
            let icons = session.style_options@[ci].suit_icons@;
            let sid = session.id@;
            let did = deck_id_of(sid);
            let ni = icons.len();
            let nf = g.flourishes@.len();
            &&& p.deck.suit_icons@.len() == ni
            &&& forall|i: int|
                0 <= i < ni ==> (#[trigger] p.deck.suit_icons@[i]).image_key@ == relocated_of(
                    icons[i].image_key@,
                    sid,
                    did,
                )
            &&& promoted_guide(p.deck.style_guide, g, sid, did)
            &&& p.copies@.len() == ni + 2 + nf
            &&& forall|i: int|
                0 <= i < ni ==> copies_to_deck(#[trigger] p.copies@[i], icons[i].image_key@, sid, did)
            &&& copies_to_deck(p.copies@[ni as int], g.border_chrome_key@, sid, did)
            &&& copies_to_deck(p.copies@[ni + 1int], g.card_back_key@, sid, did)
            &&& forall|j: int|
                0 <= j < nf ==> copies_to_deck(
                    #[trigger] p.copies@[ni + 2 + j],
                    g.flourishes@[j].asset_key@,
                    sid,
                    did,
                )
        }),
    ensures
        forall|i: int|
            0 <= i < p.deck.suit_icons@.len() ==> exists|c: int|
                0 <= c < p.copies@.len() && (#[trigger] p.copies@[c]).1@ == (
                #[trigger] p.deck.suit_icons@[i]).image_key@,
        exists|c: int|
            0 <= c < p.copies@.len() && (#[trigger] p.copies@[c]).1@
                == p.deck.style_guide.border_chrome_key@,
        exists|c: int|
            0 <= c < p.copies@.len() && (#[trigger] p.copies@[c]).1@
                == p.deck.style_guide.card_back_key@,
        forall|j: int|
            0 <= j < p.deck.style_guide.flourishes@.len() ==> exists|c: int|
                0 <= c < p.copies@.len() && (#[trigger] p.copies@[c]).1@ == (
                #[trigger] p.deck.style_guide.flourishes@[j]).asset_key@,
{
    let g = session.style_guide->Some_0;
    let ci = chosen_position(session)->Some_0;
    let icons = session.style_options@[ci].suit_icons@;
    let ni = icons.len();
    assert forall|i: int| 0 <= i < p.deck.suit_icons@.len() implies exists|c: int|
        0 <= c < p.copies@.len() && (#[trigger] p.copies@[c]).1@ == (
        #[trigger] p.deck.suit_icons@[i]).image_key@ by {
        assert(copies_to_deck(p.copies@[i], icons[i].image_key@, session.id@, deck_id_of(session.id@)));
    }
    assert(copies_to_deck(p.copies@[ni as int], g.border_chrome_key@, session.id@, deck_id_of(session.id@)));
    assert(copies_to_deck(p.copies@[ni + 1int], g.card_back_key@, session.id@, deck_id_of(session.id@)));
    assert forall|j: int| 0 <= j < p.deck.style_guide.flourishes@.len() implies exists|c: int|
        0 <= c < p.copies@.len() && (#[trigger] p.copies@[c]).1@ == (
        #[trigger] p.deck.style_guide.flourishes@[j]).asset_key@ by {
        assert(copies_to_deck(
            p.copies@[ni + 2 + j],
            g.flourishes@[j].asset_key@,
            session.id@,
            deck_id_of(session.id@),
        ));
    }
}

/// Reject the sample: the inputs to edit and retry, and the draft prefix to discard. Any
/// active deck is left untouched.
pub fn restart_inputs(session: &DeckCreationSession) -> (r: (RestartInputs, String))
    ensures
        r.0.rules@ == session.iconography_rules.0@,
        r.0.style@ == session.deck_style_text.0@,
        r.1@ == drafts_prefix_of(session.id@),
{
    let inputs = RestartInputs {
        rules: String::from_str(session.iconography_rules.as_str()),
        style: String::from_str(session.deck_style_text.as_str()),
    };
    (inputs, drafts_prefix(session.id.as_str()))
}

} // verus!
