//! The debug rendering of the wizard session and of everything it holds: each value shown
//! by type and field name, strings quoted, thousandths shown as decimal fractions, and the
//! personal fields redacted.
use vstd::prelude::*;

use crate::court::CourtCardId;
use crate::model::{
    opt_string_debug, personal_debug, provenance_debug, push_opt_string, push_quoted, quoted, rank_debug, rank_debug_str, suit_debug, suit_debug_str,
    Approval, CardStyleGuide, DeckCreationSession, FlourishRef, FrontLayout, Rect, SampleCard,
    SessionStatus, ShaderArea, StyleOption, SuitIcon,
};
use crate::text::{decimal, digit, push_char, push_decimal};

verus! {

// ---------------------------------------------------------------------------------------
// Lists
// ---------------------------------------------------------------------------------------

/// Renderings separated by `, `.
pub open spec fn joined(parts: Seq<Seq<char>>) -> Seq<char>
    decreases parts.len(),
{
    if parts.len() == 0 {
        Seq::empty()
    } else if parts.len() == 1 {
        parts[0]
    } else {
        joined(parts.drop_last()) + ", "@ + parts.last()
    }
}

/// A list as its debug rendering shows it: `[a, b, c]`.
pub open spec fn list_debug(parts: Seq<Seq<char>>) -> Seq<char> {
    "["@ + joined(parts) + "]"@
}

proof fn lemma_joined_push(parts: Seq<Seq<char>>, e: Seq<char>)
    ensures
        joined(parts.push(e)) == if parts.len() == 0 {
            e
        } else {
            joined(parts) + ", "@ + e
        },
{
    assert(parts.push(e).drop_last() == parts);
}

// ---------------------------------------------------------------------------------------
// Numbers in thousandths
// ---------------------------------------------------------------------------------------

/// The fractional digits of `f` thousandths (`f < 1000`), trailing zeros dropped, at least one.
pub open spec fn fraction_digits(f: nat) -> Seq<char> {
    if f % 100 == 0 {
        seq![digit(f / 100)]
    } else if f % 10 == 0 {
        seq![digit(f / 100), digit((f / 10) % 10)]
    } else {
        seq![digit(f / 100), digit((f / 10) % 10), digit(f % 10)]
    }
}

/// `k` thousandths as a decimal fraction: `250` is `0.25`, `1000` is `1.0`.
pub open spec fn thousandths_debug(k: nat) -> Seq<char> {
    decimal(k / 1000) + "."@ + fraction_digits(k % 1000)
}

/// A signed number of thousandths as a decimal fraction, with a leading `-` when negative.
pub open spec fn signed_thousandths_debug(v: int) -> Seq<char> {
    if v < 0 {
        "-"@ + thousandths_debug((-v) as nat)
    } else {
        thousandths_debug(v as nat)
    }
}

fn digit_of(d: u32) -> (c: char)
    requires
        d < 10,
    ensures
        c == digit(d as nat),
{
    if d == 0 {
        '0'
    } else if d == 1 {
        '1'
    } else if d == 2 {
        '2'
    } else if d == 3 {
        '3'
    } else if d == 4 {
        '4'
    } else if d == 5 {
        '5'
    } else if d == 6 {
        '6'
    } else if d == 7 {
        '7'
    } else if d == 8 {
        '8'
    } else {
        '9'
    }
}

fn push_thousandths(out: &mut String, k: u32)
    ensures
        final(out)@ == old(out)@ + thousandths_debug(k as nat),
{
    push_decimal(out, (k / 1000) as u64);
    out.append(".");
    let f = k % 1000;
    push_char(out, digit_of(f / 100));
    if f % 100 != 0 {
        push_char(out, digit_of((f / 10) % 10));
        if f % 10 != 0 {
            push_char(out, digit_of(f % 10));
        }
    }
    assert(out@ == old(out)@ + thousandths_debug(k as nat));
}

fn push_signed_thousandths(out: &mut String, v: i32)
    ensures
        final(out)@ == old(out)@ + signed_thousandths_debug(v as int),
{
    if v < 0 {
        out.append("-");
        let m: u32 = if v == i32::MIN {
            2147483648u32
        } else {
            (-v) as u32
        };
        push_thousandths(out, m);
    } else {
        push_thousandths(out, v as u32);
    }
}

// ---------------------------------------------------------------------------------------
// Geometry and the style guide
// ---------------------------------------------------------------------------------------

pub open spec fn rect_debug(r: Rect) -> Seq<char> {
    "Rect { x: "@ + thousandths_debug(r.x as nat) + ", y: "@ + thousandths_debug(r.y as nat)
        + ", w: "@ + thousandths_debug(r.w as nat) + ", h: "@ + thousandths_debug(r.h as nat)
        + " }"@
}

pub open spec fn layout_debug(l: FrontLayout) -> Seq<char> {
    "FrontLayout { aspect: "@ + thousandths_debug(l.aspect as nat) + ", suit_icon: "@
        + rect_debug(l.suit_icon) + ", card_imagery: "@ + rect_debug(l.card_imagery)
        + ", title: "@ + rect_debug(l.title) + " }"@
}

pub open spec fn shader_debug(a: ShaderArea) -> Seq<char> {
    "ShaderArea { id: "@ + quoted(a.id@) + ", rect: "@ + rect_debug(a.rect) + ", kind: "@
        + quoted(a.kind@) + " }"@
}

pub open spec fn flourish_debug(f: FlourishRef) -> Seq<char> {
    "FlourishRef { asset_key: "@ + quoted(f.asset_key@) + ", rect: "@ + rect_debug(f.rect)
        + ", rotation: "@ + signed_thousandths_debug(f.rotation as int) + " }"@
}

pub open spec fn guide_debug(g: CardStyleGuide) -> Seq<char> {
    "CardStyleGuide { id: "@ + quoted(g.id@) + ", version: "@ + decimal(g.version as nat)
        + ", derived_from_style_option_id: "@ + quoted(g.derived_from_style_option_id@)
        + ", prompt_used: "@ + quoted(g.prompt_used@) + ", border_chrome_key: "@ + quoted(
        g.border_chrome_key@,
    ) + ", card_back_key: "@ + quoted(g.card_back_key@) + ", card_front_layout: "@
        + layout_debug(g.card_front_layout) + ", shader_areas: "@ + list_debug(
        g.shader_areas@.map_values(|a: ShaderArea| shader_debug(a)),
    ) + ", flourishes: "@ + list_debug(g.flourishes@.map_values(|f: FlourishRef| flourish_debug(f)))
        + " }"@
}

fn rect_text(r: Rect) -> (s: String)
    ensures
        s@ == rect_debug(r),
{
    let mut s = String::from_str("Rect { x: ");
    push_thousandths(&mut s, r.x);
    s.append(", y: ");
    push_thousandths(&mut s, r.y);
    s.append(", w: ");
    push_thousandths(&mut s, r.w);
    s.append(", h: ");
    push_thousandths(&mut s, r.h);
    s.append(" }");
    s
}

fn layout_text(l: FrontLayout) -> (s: String)
    ensures
        s@ == layout_debug(l),
{
    let mut s = String::from_str("FrontLayout { aspect: ");
    push_thousandths(&mut s, l.aspect);
    s.append(", suit_icon: ");
    s.append(rect_text(l.suit_icon).as_str());
    s.append(", card_imagery: ");
    s.append(rect_text(l.card_imagery).as_str());
    s.append(", title: ");
    s.append(rect_text(l.title).as_str());
    s.append(" }");
    s
}

fn shader_text(a: &ShaderArea) -> (s: String)
    ensures
        s@ == shader_debug(*a),
{
    let mut s = String::from_str("ShaderArea { id: ");
    push_quoted(&mut s, a.id.as_str());
    s.append(", rect: ");
    s.append(rect_text(a.rect).as_str());
    s.append(", kind: ");
    push_quoted(&mut s, a.kind.as_str());
    s.append(" }");
    s
}

fn flourish_text(f: &FlourishRef) -> (s: String)
    ensures
        s@ == flourish_debug(*f),
{
    let mut s = String::from_str("FlourishRef { asset_key: ");
    push_quoted(&mut s, f.asset_key.as_str());
    s.append(", rect: ");
    s.append(rect_text(f.rect).as_str());
    s.append(", rotation: ");
    push_signed_thousandths(&mut s, f.rotation);
    s.append(" }");
    s
}

/// Wraps a joined body in brackets.
fn bracketed(body: &str) -> (s: String)
    ensures
        s@ == "["@ + body@ + "]"@,
{
    let mut s = String::from_str("[");
    s.append(body);
    s.append("]");
    s
}

fn shaders_text(v: &Vec<ShaderArea>) -> (s: String)
    ensures
        s@ == list_debug(v@.map_values(|a: ShaderArea| shader_debug(a))),
{
    let mut body = String::new();
    let n = v.len();
    for i in 0..n
        invariant
            n == v@.len(),
            body@ == joined(v@.take(i as int).map_values(|a: ShaderArea| shader_debug(a))),
    {
        proof {
            let parts = v@.take(i as int).map_values(|a: ShaderArea| shader_debug(a));
            assert(v@.take(i + 1).map_values(|a: ShaderArea| shader_debug(a)) == parts.push(
                shader_debug(v@[i as int]),
            ));
            lemma_joined_push(parts, shader_debug(v@[i as int]));
        }
        if i > 0 {
            body.append(", ");
        }
        body.append(shader_text(&v[i]).as_str());
    }
    assert(v@.take(n as int) == v@);
    bracketed(body.as_str())
}

fn flourishes_text(v: &Vec<FlourishRef>) -> (s: String)
    ensures
        s@ == list_debug(v@.map_values(|f: FlourishRef| flourish_debug(f))),
{
    let mut body = String::new();
    let n = v.len();
    for i in 0..n
        invariant
            n == v@.len(),
            body@ == joined(v@.take(i as int).map_values(|f: FlourishRef| flourish_debug(f))),
    {
        proof {
            let parts = v@.take(i as int).map_values(|f: FlourishRef| flourish_debug(f));
            assert(v@.take(i + 1).map_values(|f: FlourishRef| flourish_debug(f)) == parts.push(
                flourish_debug(v@[i as int]),
            ));
            lemma_joined_push(parts, flourish_debug(v@[i as int]));
        }
        if i > 0 {
            body.append(", ");
        }
        body.append(flourish_text(&v[i]).as_str());
    }
    assert(v@.take(n as int) == v@);
    bracketed(body.as_str())
}

fn guide_text(g: &CardStyleGuide) -> (s: String)
    ensures
        s@ == guide_debug(*g),
{
    let mut s = String::from_str("CardStyleGuide { id: ");
    push_quoted(&mut s, g.id.as_str());
    s.append(", version: ");
    push_decimal(&mut s, g.version as u64);
    s.append(", derived_from_style_option_id: ");
    push_quoted(&mut s, g.derived_from_style_option_id.as_str());
    s.append(", prompt_used: ");
    push_quoted(&mut s, g.prompt_used.as_str());
    s.append(", border_chrome_key: ");
    push_quoted(&mut s, g.border_chrome_key.as_str());
    s.append(", card_back_key: ");
    push_quoted(&mut s, g.card_back_key.as_str());
    s.append(", card_front_layout: ");
    s.append(layout_text(g.card_front_layout).as_str());
    s.append(", shader_areas: ");
    s.append(shaders_text(&g.shader_areas).as_str());
    s.append(", flourishes: ");
    s.append(flourishes_text(&g.flourishes).as_str());
    s.append(" }");
    s
}

// ---------------------------------------------------------------------------------------
// Options, the sample card and the session
// ---------------------------------------------------------------------------------------

pub open spec fn suit_icon_debug(i: SuitIcon) -> Seq<char> {
    "SuitIcon { suit: "@ + suit_debug(i.suit) + ", image_key: "@ + quoted(i.image_key@) + " }"@
}

pub open spec fn option_debug(o: StyleOption) -> Seq<char> {
    "StyleOption { id: "@ + quoted(o.id@) + ", label: "@ + quoted(o.label@) + ", suit_icons: "@
        + list_debug(o.suit_icons@.map_values(|i: SuitIcon| suit_icon_debug(i)))
        + ", prompt_used: "@ + quoted(o.prompt_used@) + " }"@
}

pub open spec fn court_debug(c: CourtCardId) -> Seq<char> {
    "CourtCardId { rank: "@ + rank_debug(c.rank) + ", suit: "@ + suit_debug(c.suit) + " }"@
}

pub open spec fn approval_debug(a: Approval) -> Seq<char> {
    match a {
        Approval::Pending => "Pending"@,
        Approval::Approved => "Approved"@,
        Approval::Rejected => "Rejected"@,
    }
}

pub open spec fn status_debug(s: SessionStatus) -> Seq<char> {
    match s {
        SessionStatus::Inputs => "Inputs"@,
        SessionStatus::ChoosingStyle => "ChoosingStyle"@,
        SessionStatus::StyleGuide => "StyleGuide"@,
        SessionStatus::Review => "Review"@,
        SessionStatus::Approved => "Approved"@,
        SessionStatus::Discarded => "Discarded"@,
    }
}

pub open spec fn sample_debug(c: SampleCard) -> Seq<char> {
    "SampleCard { court_card: "@ + court_debug(c.court_card) + ", card_imagery_key: "@ + quoted(
        c.card_imagery_key@,
    ) + ", front_key: "@ + quoted(c.front_key@) + ", back_key: "@ + quoted(c.back_key@)
        + ", approval: "@ + approval_debug(c.approval) + " }"@
}

pub open spec fn opt_guide_debug(g: Option<CardStyleGuide>) -> Seq<char> {
    match g {
        Some(g) => "Some("@ + guide_debug(g) + ")"@,
        None => "None"@,
    }
}

pub open spec fn opt_sample_debug(c: Option<SampleCard>) -> Seq<char> {
    match c {
        Some(c) => "Some("@ + sample_debug(c) + ")"@,
        None => "None"@,
    }
}

/// The debug rendering of a session: every field by name, nested values rendered the same
/// way, and the personal fields (here and in the provenance) redacted.
pub open spec fn session_debug(s: DeckCreationSession) -> Seq<char> {
    "DeckCreationSession { id: "@ + quoted(s.id@) + ", seed: "@ + decimal(s.seed as nat)
        + ", iconography_rules: "@ + personal_debug(s.iconography_rules) + ", deck_style_text: "@
        + personal_debug(s.deck_style_text) + ", style_options: "@ + list_debug(
        s.style_options@.map_values(|o: StyleOption| option_debug(o)),
    ) + ", chosen_style_option_id: "@ + opt_string_debug(s.chosen_style_option_id)
        + ", style_guide: "@ + opt_guide_debug(s.style_guide) + ", sample_card: "@
        + opt_sample_debug(s.sample_card) + ", status: "@ + status_debug(s.status) + ", round: "@
        + decimal(s.round as nat) + ", provenance: "@ + provenance_debug(s.provenance) + " }"@
}

/// The debug rendering of a session reveals nothing of its personal fields, nor of those of
/// its provenance, beyond whether each is empty: sessions that differ only in that content
/// render identically.
pub proof fn lemma_session_debug_hides_personal(s: DeckCreationSession, t: DeckCreationSession)
    requires
        s.id == t.id,
        s.seed == t.seed,
        (s.iconography_rules.0@.len() == 0) == (t.iconography_rules.0@.len() == 0),
        (s.deck_style_text.0@.len() == 0) == (t.deck_style_text.0@.len() == 0),
        s.style_options@ == t.style_options@,
        s.chosen_style_option_id == t.chosen_style_option_id,
        s.style_guide == t.style_guide,
        s.sample_card == t.sample_card,
        s.status == t.status,
        s.round == t.round,
        s.provenance.seed == t.provenance.seed,
        (s.provenance.iconography_rules.0@.len() == 0) == (
        t.provenance.iconography_rules.0@.len() == 0),
        (s.provenance.deck_style_text.0@.len() == 0) == (t.provenance.deck_style_text.0@.len()
            == 0),
        s.provenance.chosen_style_option_id == t.provenance.chosen_style_option_id,
        s.provenance.court_card_shown == t.provenance.court_card_shown,
        s.provenance.provider_id == t.provenance.provider_id,
        s.provenance.model_id == t.provenance.model_id,
        s.provenance.prompts.entries() == t.provenance.prompts.entries(),
    ensures
        session_debug(s) == session_debug(t),
{
    crate::model::lemma_personal_debug_hides_content(s.iconography_rules, t.iconography_rules);
    crate::model::lemma_personal_debug_hides_content(s.deck_style_text, t.deck_style_text);
    crate::model::lemma_provenance_debug_hides_personal(s.provenance, t.provenance);
}

fn suit_icon_text(i: &SuitIcon) -> (s: String)
    ensures
        s@ == suit_icon_debug(*i),
{
    let mut s = String::from_str("SuitIcon { suit: ");
    s.append(suit_debug_str(i.suit));
    s.append(", image_key: ");
    push_quoted(&mut s, i.image_key.as_str());
    s.append(" }");
    s
}

fn suit_icons_text(v: &Vec<SuitIcon>) -> (s: String)
    ensures
        s@ == list_debug(v@.map_values(|i: SuitIcon| suit_icon_debug(i))),
{
    let mut body = String::new();
    let n = v.len();
    for k in 0..n
        invariant
            n == v@.len(),
            body@ == joined(v@.take(k as int).map_values(|i: SuitIcon| suit_icon_debug(i))),
    {
        proof {
            let parts = v@.take(k as int).map_values(|i: SuitIcon| suit_icon_debug(i));
            assert(v@.take(k + 1).map_values(|i: SuitIcon| suit_icon_debug(i)) == parts.push(
                suit_icon_debug(v@[k as int]),
            ));
            lemma_joined_push(parts, suit_icon_debug(v@[k as int]));
        }
        if k > 0 {
            body.append(", ");
        }
        body.append(suit_icon_text(&v[k]).as_str());
    }
    assert(v@.take(n as int) == v@);
    bracketed(body.as_str())
}

fn option_text(o: &StyleOption) -> (s: String)
    ensures
        s@ == option_debug(*o),
{
    let mut s = String::from_str("StyleOption { id: ");
    push_quoted(&mut s, o.id.as_str());
    s.append(", label: ");
    push_quoted(&mut s, o.label.as_str());
    s.append(", suit_icons: ");
    s.append(suit_icons_text(&o.suit_icons).as_str());
    s.append(", prompt_used: ");
    push_quoted(&mut s, o.prompt_used.as_str());
    s.append(" }");
    s
}

fn options_text(v: &Vec<StyleOption>) -> (s: String)
    ensures
        s@ == list_debug(v@.map_values(|o: StyleOption| option_debug(o))),
{
    let mut body = String::new();
    let n = v.len();
    for k in 0..n
        invariant
            n == v@.len(),
            body@ == joined(v@.take(k as int).map_values(|o: StyleOption| option_debug(o))),
    {
        proof {
            let parts = v@.take(k as int).map_values(|o: StyleOption| option_debug(o));
            assert(v@.take(k + 1).map_values(|o: StyleOption| option_debug(o)) == parts.push(
                option_debug(v@[k as int]),
            ));
            lemma_joined_push(parts, option_debug(v@[k as int]));
        }
        if k > 0 {
            body.append(", ");
        }
        body.append(option_text(&v[k]).as_str());
    }
    assert(v@.take(n as int) == v@);
    bracketed(body.as_str())
}

fn court_text(c: CourtCardId) -> (s: String)
    ensures
        s@ == court_debug(c),
{
    let mut s = String::from_str("CourtCardId { rank: ");
    s.append(rank_debug_str(c.rank));
    s.append(", suit: ");
    s.append(suit_debug_str(c.suit));
    s.append(" }");
    s
}

fn approval_str(a: Approval) -> (r: &'static str)
    ensures
        r@ == approval_debug(a),
{
    match a {
        Approval::Pending => "Pending",
        Approval::Approved => "Approved",
        Approval::Rejected => "Rejected",
    }
}

fn sample_text(c: &SampleCard) -> (s: String)
    ensures
        s@ == sample_debug(*c),
{
    let mut s = String::from_str("SampleCard { court_card: ");
    s.append(court_text(c.court_card).as_str());
    s.append(", card_imagery_key: ");
    push_quoted(&mut s, c.card_imagery_key.as_str());
    s.append(", front_key: ");
    push_quoted(&mut s, c.front_key.as_str());
    s.append(", back_key: ");
    push_quoted(&mut s, c.back_key.as_str());
    s.append(", approval: ");
    s.append(approval_str(c.approval));
    s.append(" }");
    s
}

fn opt_guide_text(g: &Option<CardStyleGuide>) -> (s: String)
    ensures
        s@ == opt_guide_debug(*g),
{
    match g {
        Some(g) => {
            let mut s = String::from_str("Some(");
            s.append(guide_text(g).as_str());
            s.append(")");
            s
        },
        None => String::from_str("None"),
    }
}

fn opt_sample_text(c: &Option<SampleCard>) -> (s: String)
    ensures
        s@ == opt_sample_debug(*c),
{
    match c {
        Some(c) => {
            let mut s = String::from_str("Some(");
            s.append(sample_text(c).as_str());
            s.append(")");
            s
        },
        None => String::from_str("None"),
    }
}

fn status_str(s: SessionStatus) -> (r: &'static str)
    ensures
        r@ == status_debug(s),
{
    match s {
        SessionStatus::Inputs => "Inputs",
        SessionStatus::ChoosingStyle => "ChoosingStyle",
        SessionStatus::StyleGuide => "StyleGuide",
        SessionStatus::Review => "Review",
        SessionStatus::Approved => "Approved",
        SessionStatus::Discarded => "Discarded",
    }
}

impl DeckCreationSession {
    /// The debug rendering: every field by name, with the personal fields of the session
    /// and of its provenance redacted.
    pub fn debug_text(&self) -> (s: String)
        ensures
            s@ == session_debug(*self),
    {
        let mut s = String::from_str("DeckCreationSession { id: ");
        push_quoted(&mut s, self.id.as_str());
        s.append(", seed: ");
        push_decimal(&mut s, self.seed);
        s.append(", iconography_rules: ");
        s.append(self.iconography_rules.debug_text().as_str());
        s.append(", deck_style_text: ");
        s.append(self.deck_style_text.debug_text().as_str());
        s.append(", style_options: ");
        s.append(options_text(&self.style_options).as_str());
        s.append(", chosen_style_option_id: ");
        push_opt_string(&mut s, &self.chosen_style_option_id);
        s.append(", style_guide: ");
        s.append(opt_guide_text(&self.style_guide).as_str());
        s.append(", sample_card: ");
        s.append(opt_sample_text(&self.sample_card).as_str());
        s.append(", status: ");
        s.append(status_str(self.status));
        s.append(", round: ");
        push_decimal(&mut s, self.round as u64);
        s.append(", provenance: ");
        s.append(self.provenance.debug_text().as_str());
        s.append(" }");
        s
    }
}

} // verus!
