//! The deck-creation data model: personal text, style options, the wizard session, the card
//! style guide, the sample card, the approved deck and the provenance that explains it.
//!
//! Geometry is kept in thousandths: a normalized coordinate of `0.25` is stored as `250`.
use vstd::prelude::*;

use crate::court::{CourtCardId, CourtRank};
use crate::suit::Suit;
use crate::text::{
    all_ws, chars_of, decimal, is_blank, lemma_text_lt_strict_total, lemma_text_lt_transitive,
    push_char, push_decimal, push_hex, same_text, text_less, text_lt, digit, hex_digits,
};

verus! {

// ---------------------------------------------------------------------------------------
// Personal text
// ---------------------------------------------------------------------------------------

/// A personal, sensitive string (the owner's deck-style text). Its debug rendering never
/// shows the contents, only whether a value is present.
#[derive(Clone, PartialEq, Eq)]
pub struct Personal(pub String);

/// The debug rendering of a personal value.
pub open spec fn personal_debug(p: Personal) -> Seq<char> {
    if p.0@.len() == 0 {
        "Personal(<empty>)"@
    } else {
        "Personal(<redacted>)"@
    }
}

/// Debug output never depends on personal content: two values that are both empty, or both
/// non-empty, render identically.
pub proof fn lemma_personal_debug_hides_content(a: Personal, b: Personal)
    requires
        (a.0@.len() == 0) == (b.0@.len() == 0),
    ensures
        personal_debug(a) == personal_debug(b),
{
}

impl Personal {
    pub fn as_str(&self) -> (s: &str)
        ensures
            s@ == self.0@,
    {
        self.0.as_str()
    }

    /// No content besides whitespace (`trim().is_empty()`).
    pub fn is_empty(&self) -> (b: bool)
        ensures
            b == all_ws(self.0@),
    {
        is_blank(self.0.as_str())
    }

    /// The debug rendering: `Personal(<empty>)` or `Personal(<redacted>)`, never the text.
    pub fn debug_text(&self) -> (s: String)
        ensures
            s@ == personal_debug(*self),
    {
        if self.0.as_str().is_empty() {
            String::from_str("Personal(<empty>)")
        } else {
            String::from_str("Personal(<redacted>)")
        }
    }

    /// A copy holding the same text.
    pub fn duplicate(&self) -> (p: Personal)
        ensures
            p == *self,
    {
        Personal(self.0.clone())
    }
}

impl Default for Personal {
    fn default() -> (p: Self)
        ensures
            p.0@ == Seq::<char>::empty(),
    {
        Personal(String::new())
    }
}

impl From<&str> for Personal {
    fn from(s: &str) -> (p: Self)
        ensures
            p.0@ == s@,
    {
        Personal(String::from_str(s))
    }
}

impl vstd::std_specs::convert::FromSpecImpl<&str> for Personal {
    open spec fn obeys_from_spec() -> bool {
        false
    }

    open spec fn from_spec(v: &str) -> Self {
        arbitrary()
    }
}

impl From<String> for Personal {
    fn from(s: String) -> (p: Self)
        ensures
            p == Personal(s),
    {
        Personal(s)
    }
}

impl vstd::std_specs::convert::FromSpecImpl<String> for Personal {
    open spec fn obeys_from_spec() -> bool {
        true
    }

    open spec fn from_spec(v: String) -> Self {
        Personal(v)
    }
}

// ---------------------------------------------------------------------------------------
// Style options
// ---------------------------------------------------------------------------------------

/// One suit's generated icon, referenced by storage key (never embedded).
#[derive(Debug, Clone, PartialEq, Eq)]
pub struct SuitIcon {
    pub suit: Suit,
    pub image_key: String,
}

impl SuitIcon {
    pub fn duplicate(&self) -> (r: SuitIcon)
        ensures
            r == *self,
    {
        SuitIcon { suit: self.suit, image_key: self.image_key.clone() }
    }
}

/// One cohesive candidate covering every suit; the owner selects exactly one.
#[derive(Debug, Clone, PartialEq, Eq)]
pub struct StyleOption {
    pub id: String,
    pub label: String,
    pub suit_icons: Vec<SuitIcon>,
    pub prompt_used: String,
}

/// `icons` holds an icon of suit `s`.
pub open spec fn has_icon_for(icons: Seq<SuitIcon>, s: Suit) -> bool {
    exists|i: int| 0 <= i < icons.len() && (#[trigger] icons[i]).suit == s
}

/// Every suit of `suits` has an icon in `icons`.
pub open spec fn covers(icons: Seq<SuitIcon>, suits: Seq<Suit>) -> bool {
    forall|k: int| 0 <= k < suits.len() ==> has_icon_for(icons, #[trigger] suits[k])
}

/// Two options hold the same values.
pub open spec fn same_option(a: StyleOption, b: StyleOption) -> bool {
    a.id == b.id && a.label == b.label && a.suit_icons@ == b.suit_icons@ && a.prompt_used
        == b.prompt_used
}

/// Two lists of options hold the same values, option by option.
pub open spec fn same_options(a: Seq<StyleOption>, b: Seq<StyleOption>) -> bool {
    a.len() == b.len() && forall|i: int| 0 <= i < a.len() ==> same_option(#[trigger] a[i], b[i])
}

fn has_suit(icons: &Vec<SuitIcon>, s: Suit) -> (r: bool)
    ensures
        r == has_icon_for(icons@, s),
{
    let n = icons.len();
    for i in 0..n
        invariant
            n == icons@.len(),
            forall|j: int| 0 <= j < i ==> icons@[j].suit != s,
    {
        if icons[i].suit == s {
            assert(icons@[i as int].suit == s);
            return true;
        }
    }
    false
}

impl StyleOption {
    /// A style option is valid only if it has an icon for every suit in the active set.
    pub fn covers_all_suits(&self, suits: &[Suit]) -> (r: bool)
        ensures
            r == covers(self.suit_icons@, suits@),
    {
        let n = suits.len();
        for k in 0..n
            invariant
                n == suits@.len(),
                forall|j: int| 0 <= j < k ==> has_icon_for(self.suit_icons@, #[trigger] suits@[j]),
        {
            if !has_suit(&self.suit_icons, suits[k]) {
                return false;
            }
        }
        true
    }

    pub fn duplicate(&self) -> (r: StyleOption)
        ensures
            same_option(r, *self),
    {
        let mut icons: Vec<SuitIcon> = Vec::new();
        let n = self.suit_icons.len();
        for i in 0..n
            invariant
                n == self.suit_icons@.len(),
                icons@ == self.suit_icons@.take(i as int),
        {
            icons.push(self.suit_icons[i].duplicate());
            assert(icons@ == self.suit_icons@.take(i + 1));
        }
        assert(self.suit_icons@.take(n as int) == self.suit_icons@);
        StyleOption {
            id: self.id.clone(),
            label: self.label.clone(),
            suit_icons: icons,
            prompt_used: self.prompt_used.clone(),
        }
    }
}

/// A value-for-value copy of a list of options.
pub fn duplicate_options(v: &Vec<StyleOption>) -> (r: Vec<StyleOption>)
    ensures
        same_options(r@, v@),
{
    let mut out: Vec<StyleOption> = Vec::new();
    let n = v.len();
    for i in 0..n
        invariant
            n == v@.len(),
            out@.len() == i,
            forall|j: int| 0 <= j < i ==> same_option(#[trigger] out@[j], v@[j]),
    {
        out.push(v[i].duplicate());
    }
    out
}

// ---------------------------------------------------------------------------------------
// Wizard state and approval
// ---------------------------------------------------------------------------------------

/// Where the wizard is. Only `Approved` produces an active deck.
#[derive(Debug, Clone, Copy, PartialEq, Eq, Structural)]
pub enum SessionStatus {
    Inputs,
    ChoosingStyle,
    StyleGuide,
    Review,
    Approved,
    Discarded,
}

/// Approval outcome for the sample card.
#[derive(Debug, Clone, Copy, PartialEq, Eq, Structural)]
pub enum Approval {
    Pending,
    Approved,
    Rejected,
}

// ---------------------------------------------------------------------------------------
// Prompts recorded in provenance
// ---------------------------------------------------------------------------------------

/// The map that a list of (key, prompt) entries describes; later entries win.
pub open spec fn entry_map(s: Seq<(String, String)>) -> Map<Seq<char>, Seq<char>>
    decreases s.len(),
{
    if s.len() == 0 {
        Map::empty()
    } else {
        entry_map(s.drop_last()).insert(s.last().0@, s.last().1@)
    }
}

/// No key occurs twice.
pub open spec fn distinct_keys(s: Seq<(String, String)>) -> bool {
    forall|i: int, j: int| 0 <= i < j < s.len() ==> (#[trigger] s[i]).0@ != (#[trigger] s[j]).0@
}

/// Keys in strictly increasing order.
pub open spec fn keys_sorted(s: Seq<(String, String)>) -> bool {
    forall|i: int, j: int|
        0 <= i < j < s.len() ==> text_lt((#[trigger] s[i]).0@, (#[trigger] s[j]).0@)
}

proof fn lemma_sorted_keys_distinct(s: Seq<(String, String)>)
    requires
        keys_sorted(s),
    ensures
        distinct_keys(s),
{
    assert forall|i: int, j: int| 0 <= i < j < s.len() implies (#[trigger] s[i]).0@ != (
    #[trigger] s[j]).0@ by {
        lemma_text_lt_strict_total(s[i].0@, s[j].0@);
    }
}

proof fn lemma_entry_map_insert(s: Seq<(String, String)>, p: int, k: String, v: String)
    requires
        0 <= p <= s.len(),
        forall|i: int| 0 <= i < s.len() ==> (#[trigger] s[i]).0@ != k@,
    ensures
        entry_map(s.insert(p, (k, v))) == entry_map(s).insert(k@, v@),
    decreases s.len(),
{
    let t = s.insert(p, (k, v));
    if p == s.len() {
        assert(t.drop_last() =~= s);
    } else {
        let d = s.drop_last();
        assert(t.drop_last() =~= d.insert(p, (k, v)));
        assert(t.last() == s.last());
        assert forall|i: int| 0 <= i < d.len() implies (#[trigger] d[i]).0@ != k@ by {
            assert(d[i] == s[i]);
        }
        lemma_entry_map_insert(d, p, k, v);
        assert(s.last().0@ != k@);
        assert(entry_map(t) =~= entry_map(s).insert(k@, v@));
    }
}

/// The composed prompts actually sent, keyed by artifact (`cardBorder`, `sampleImagery`,
/// ...). Each key occurs once; inserting an existing key replaces its prompt.
pub struct PromptMap {
    entries: Vec<(String, String)>,
}

proof fn lemma_entry_map_domain(s: Seq<(String, String)>, k: Seq<char>)
    ensures
        entry_map(s).contains_key(k) <==> exists|i: int| 0 <= i < s.len() && (#[trigger] s[i]).0@ == k,
    decreases s.len(),
{
    if s.len() > 0 {
        lemma_entry_map_domain(s.drop_last(), k);
        if entry_map(s.drop_last()).contains_key(k) {
            let i = choose|i: int| 0 <= i < s.drop_last().len() && (#[trigger] s.drop_last()[i]).0@ == k;
            assert(s[i] == s.drop_last()[i]);
        }
        if exists|i: int| 0 <= i < s.len() && (#[trigger] s[i]).0@ == k {
            let i = choose|i: int| 0 <= i < s.len() && (#[trigger] s[i]).0@ == k;
            if i < s.len() - 1 {
                assert(s.drop_last()[i] == s[i]);
            }
        }
    }
}

proof fn lemma_entry_map_value(s: Seq<(String, String)>, i: int)
    requires
        distinct_keys(s),
        0 <= i < s.len(),
    ensures
        entry_map(s).contains_key(s[i].0@),
        entry_map(s)[s[i].0@] == s[i].1@,
    decreases s.len(),
{
    if i < s.len() - 1 {
        assert(s.drop_last()[i] == s[i]);
        lemma_entry_map_value(s.drop_last(), i);
        assert(s[i].0@ != s.last().0@);
    }
}

proof fn lemma_entry_map_update(s: Seq<(String, String)>, i: int, v: String)
    requires
        distinct_keys(s),
        0 <= i < s.len(),
    ensures
        entry_map(s.update(i, (s[i].0, v))) == entry_map(s).insert(s[i].0@, v@),
    decreases s.len(),
{
    let t = s.update(i, (s[i].0, v));
    if i == s.len() - 1 {
        assert(t.drop_last() == s.drop_last());
        assert(entry_map(t) == entry_map(s.drop_last()).insert(s[i].0@, v@));
        assert(entry_map(s).insert(s[i].0@, v@) =~= entry_map(s.drop_last()).insert(s[i].0@, v@));
    } else {
        assert(t.drop_last() == s.drop_last().update(i, (s[i].0, v)));
        assert(s.drop_last()[i] == s[i]);
        lemma_entry_map_update(s.drop_last(), i, v);
        assert(s[i].0@ != s.last().0@);
        assert(entry_map(t) =~= entry_map(s).insert(s[i].0@, v@));
    }
}

impl View for PromptMap {
    type V = Map<Seq<char>, Seq<char>>;

    closed spec fn view(&self) -> Map<Seq<char>, Seq<char>> {
        entry_map(self.entries@)
    }
}

impl PromptMap {
    #[verifier::type_invariant]
    closed spec fn keys_in_order(&self) -> bool {
        keys_sorted(self.entries@) && distinct_keys(self.entries@)
    }

    /// Where `key` belongs: every key before it sorts before `key`, and the key there, if
    /// any, does not.
    fn insertion_point(&self, key: &str) -> (p: usize)
        ensures
            p <= self.entries@.len(),
            forall|j: int| 0 <= j < p ==> text_lt((#[trigger] self.entries@[j]).0@, key@),
            p < self.entries@.len() ==> !text_lt(self.entries@[p as int].0@, key@),
    {
        let n = self.entries.len();
        for i in 0..n
            invariant
                n == self.entries@.len(),
                forall|j: int| 0 <= j < i ==> text_lt((#[trigger] self.entries@[j]).0@, key@),
        {
            if !text_less(self.entries[i].0.as_str(), key) {
                return i;
            }
        }
        n
    }

    /// An empty map.
    pub fn new() -> (m: Self)
        ensures
            m@ == Map::<Seq<char>, Seq<char>>::empty(),
    {
        PromptMap { entries: Vec::new() }
    }

    fn position(&self, key: &str) -> (r: Option<usize>)
        ensures
            match r {
                Some(i) => i < self.entries@.len() && self.entries@[i as int].0@ == key@,
                None => forall|i: int|
                    0 <= i < self.entries@.len() ==> (#[trigger] self.entries@[i]).0@ != key@,
            },
    {
        let n = self.entries.len();
        for i in 0..n
            invariant
                n == self.entries@.len(),
                forall|j: int| 0 <= j < i ==> (#[trigger] self.entries@[j]).0@ != key@,
        {
            if same_text(self.entries[i].0.as_str(), key) {
                return Some(i);
            }
        }
        None
    }

    /// Records `value` under `key`, replacing any prompt already recorded there; keys stay
    /// in increasing order.
    pub fn insert(&mut self, key: String, value: String)
        ensures
            final(self)@ == old(self)@.insert(key@, value@),
    {
        proof {
            use_type_invariant(&*self);
        }
        let ghost old_entries = self.entries@;
        let p = self.insertion_point(key.as_str());
        let n = self.entries.len();
        let mut entries: Vec<(String, String)> = Vec::new();
        std::mem::swap(&mut entries, &mut self.entries);
        if p < n && same_text(entries[p].0.as_str(), key.as_str()) {
            let k = entries[p].0.clone();
            entries.set(p, (k, value));
            proof {
                assert(entries@ == old_entries.update(p as int, (old_entries[p as int].0, value)));
                lemma_entry_map_update(old_entries, p as int, value);
                assert forall|a: int, b: int| 0 <= a < b < entries@.len() implies text_lt(
                    (#[trigger] entries@[a]).0@,
                    (#[trigger] entries@[b]).0@,
                ) by {
                    assert(old_entries[a].0 == entries@[a].0);
                    assert(old_entries[b].0 == entries@[b].0);
                    assert(text_lt(old_entries[a].0@, old_entries[b].0@));
                }
                lemma_sorted_keys_distinct(entries@);
            }
        } else {
            let ghost kv = key@;
            proof {
                assert forall|i: int| 0 <= i < old_entries.len() implies (
                #[trigger] old_entries[i]).0@ != kv by {
                    lemma_text_lt_strict_total(old_entries[i].0@, kv);
                    if i < p {
                    } else if i == p {
                    } else {
                        assert(text_lt(old_entries[p as int].0@, old_entries[i].0@));
                        lemma_text_lt_strict_total(old_entries[p as int].0@, kv);
                        if old_entries[i].0@ == kv {
                            assert(text_lt(kv, old_entries[p as int].0@) || kv
                                == old_entries[p as int].0@);
                        }
                    }
                }
                lemma_entry_map_insert(old_entries, p as int, key, value);
            }
            entries.insert(p, (key, value));
            proof {
                let t = entries@;
                assert(t == old_entries.insert(p as int, (key, value)));
                assert forall|a: int, b: int| 0 <= a < b < t.len() implies text_lt(
                    (#[trigger] t[a]).0@,
                    (#[trigger] t[b]).0@,
                ) by {
                    if p < old_entries.len() {
                        lemma_text_lt_strict_total(old_entries[p as int].0@, kv);
                    }
                    if b < p {
                        assert(t[a] == old_entries[a] && t[b] == old_entries[b]);
                        assert(text_lt(old_entries[a].0@, old_entries[b].0@));
                    } else if b == p {
                        assert(t[a] == old_entries[a]);
                    } else if a < p {
                        assert(t[a] == old_entries[a] && t[b] == old_entries[b - 1]);
                        assert(text_lt(old_entries[a].0@, kv));
                        if b - 1 > p {
                            assert(text_lt(old_entries[p as int].0@, old_entries[b - 1].0@));
                            lemma_text_lt_transitive(kv, old_entries[p as int].0@, old_entries[b - 1].0@);
                        }
                        lemma_text_lt_transitive(old_entries[a].0@, kv, old_entries[b - 1].0@);
                    } else if a == p {
                        assert(t[b] == old_entries[b - 1]);
                        if b - 1 > p {
                            assert(text_lt(old_entries[p as int].0@, old_entries[b - 1].0@));
                            lemma_text_lt_transitive(kv, old_entries[p as int].0@, old_entries[b - 1].0@);
                        }
                    } else {
                        assert(t[a] == old_entries[a - 1] && t[b] == old_entries[b - 1]);
                        assert(text_lt(old_entries[a - 1].0@, old_entries[b - 1].0@));
                    }
                }
                lemma_sorted_keys_distinct(t);
            }
        }
        self.entries = entries;
    }

    /// A prompt is recorded under `key`.
    pub fn contains_key(&self, key: &str) -> (b: bool)
        ensures
            b == self@.contains_key(key@),
    {
        proof {
            use_type_invariant(self);
            lemma_entry_map_domain(self.entries@, key@);
        }
        self.position(key).is_some()
    }

    /// The prompt recorded under `key`, if any.
    pub fn get(&self, key: &str) -> (r: Option<&String>)
        ensures
            match r {
                Some(v) => self@.contains_key(key@) && self@[key@] == v@,
                None => !self@.contains_key(key@),
            },
    {
        proof {
            use_type_invariant(self);
            lemma_entry_map_domain(self.entries@, key@);
        }
        match self.position(key) {
            Some(i) => {
                proof {
                    lemma_entry_map_value(self.entries@, i as int);
                }
                Some(&self.entries[i].1)
            },
            None => None,
        }
    }

    /// The recorded (key, prompt) pairs in increasing key order.
    pub closed spec fn entries(&self) -> Seq<(String, String)> {
        self.entries@
    }

    /// The recorded (key, prompt) pairs in increasing key order, each key once.
    pub fn pairs(&self) -> (r: &Vec<(String, String)>)
        ensures
            r@ == self.entries(),
            entry_map(r@) == self@,
            distinct_keys(r@),
            keys_sorted(r@),
    {
        proof {
            use_type_invariant(self);
        }
        &self.entries
    }

    /// A copy holding the same prompts.
    pub fn duplicate(&self) -> (r: PromptMap)
        ensures
            r@ == self@,
    {
        proof {
            use_type_invariant(self);
        }
        let mut out: Vec<(String, String)> = Vec::new();
        let n = self.entries.len();
        for i in 0..n
            invariant
                n == self.entries@.len(),
                out@ == self.entries@.take(i as int),
        {
            let k = self.entries[i].0.clone();
            let v = self.entries[i].1.clone();
            out.push((k, v));
            assert(out@ == self.entries@.take(i + 1));
        }
        assert(self.entries@.take(n as int) == self.entries@);
        PromptMap { entries: out }
    }
}

// ---------------------------------------------------------------------------------------
// Provenance
// ---------------------------------------------------------------------------------------

/// Recorded inputs and identifiers sufficient to explain and regenerate an artifact.
pub struct GenerationProvenance {
    pub seed: u64,
    /// Authoritative rules used.
    pub iconography_rules: Personal,
    pub deck_style_text: Personal,
    pub chosen_style_option_id: Option<String>,
    pub court_card_shown: Option<CourtCardId>,
    pub provider_id: String,
    pub model_id: String,
    /// The composed prompts actually sent (rules authoritative over style).
    pub prompts: PromptMap,
}

/// Two provenance records hold the same values.
pub open spec fn same_provenance(a: GenerationProvenance, b: GenerationProvenance) -> bool {
    a.seed == b.seed && a.iconography_rules == b.iconography_rules && a.deck_style_text
        == b.deck_style_text && a.chosen_style_option_id == b.chosen_style_option_id
        && a.court_card_shown == b.court_card_shown && a.provider_id == b.provider_id
        && a.model_id == b.model_id && a.prompts@ == b.prompts@
}

impl Default for GenerationProvenance {
    fn default() -> (p: Self)
        ensures
            p.seed == 0,
            p.iconography_rules.0@ == Seq::<char>::empty(),
            p.deck_style_text.0@ == Seq::<char>::empty(),
            p.chosen_style_option_id is None,
            p.court_card_shown is None,
            p.provider_id@ == Seq::<char>::empty(),
            p.model_id@ == Seq::<char>::empty(),
            p.prompts@ == Map::<Seq<char>, Seq<char>>::empty(),
    {
        GenerationProvenance {
            seed: 0,
            iconography_rules: Personal::default(),
            deck_style_text: Personal::default(),
            chosen_style_option_id: None,
            court_card_shown: None,
            provider_id: String::new(),
            model_id: String::new(),
            prompts: PromptMap::new(),
        }
    }
}

fn duplicate_opt_string(s: &Option<String>) -> (r: Option<String>)
    ensures
        r == *s,
{
    match s {
        Some(v) => Some(v.clone()),
        None => None,
    }
}

/// An ASCII control character (below space, or delete).
pub open spec fn is_ascii_control(c: char) -> bool {
    (c as u32) < 0x20 || (c as u32) == 0x7f
}

/// A number below 256 in lower-case hex without leading zeros.
pub open spec fn short_hex(n: nat) -> Seq<char> {
    if n < 16 {
        seq![digit(n)]
    } else {
        seq![digit(n / 16), digit(n % 16)]
    }
}

/// How the debug rendering of a string shows one character: quotes, backslashes and the
/// common control characters by their escapes, other ASCII control characters as
/// `\u{..}`, every other character as it is.
pub open spec fn escaped_char(c: char) -> Seq<char> {
    if c == '"' {
        "\\\""@
    } else if c == '\\' {
        "\\\\"@
    } else if c == '\n' {
        "\\n"@
    } else if c == '\r' {
        "\\r"@
    } else if c == '\t' {
        "\\t"@
    } else if c == '\0' {
        "\\0"@
    } else if is_ascii_control(c) {
        "\\u{"@ + short_hex((c as u32) as nat) + "}"@
    } else {
        seq![c]
    }
}

/// Every character of `s`, escaped.
pub open spec fn escaped(s: Seq<char>) -> Seq<char>
    decreases s.len(),
{
    if s.len() == 0 {
        Seq::empty()
    } else {
        escaped(s.drop_last()) + escaped_char(s.last())
    }
}

/// A string as its debug rendering shows it: escaped, between double quotes.
pub open spec fn quoted(s: Seq<char>) -> Seq<char> {
    "\""@ + escaped(s) + "\""@
}

/// Debug rendering of an optional string.
pub open spec fn opt_string_debug(o: Option<String>) -> Seq<char> {
    match o {
        Some(s) => "Some("@ + quoted(s@) + ")"@,
        None => "None"@,
    }
}

/// Debug name of a rank.
pub open spec fn rank_debug(r: CourtRank) -> Seq<char> {
    match r {
        CourtRank::Page => "Page"@,
        CourtRank::Knight => "Knight"@,
        CourtRank::Queen => "Queen"@,
        CourtRank::King => "King"@,
    }
}

/// Debug name of a suit.
pub open spec fn suit_debug(s: Suit) -> Seq<char> {
    match s {
        Suit::Cups => "Cups"@,
        Suit::Wands => "Wands"@,
        Suit::Swords => "Swords"@,
        Suit::Pentacles => "Pentacles"@,
    }
}

/// Debug rendering of an optional court card.
pub open spec fn opt_court_debug(o: Option<CourtCardId>) -> Seq<char> {
    match o {
        Some(c) => "Some(CourtCardId { rank: "@ + rank_debug(c.rank) + ", suit: "@ + suit_debug(
            c.suit,
        ) + " })"@,
        None => "None"@,
    }
}

/// Debug rendering of recorded prompts, `"key": "prompt"` pairs separated by commas.
pub open spec fn entries_debug(s: Seq<(String, String)>) -> Seq<char>
    decreases s.len(),
{
    if s.len() == 0 {
        Seq::empty()
    } else {
        let entry = quoted(s.last().0@) + ": "@ + quoted(s.last().1@);
        if s.len() == 1 {
            entry
        } else {
            entries_debug(s.drop_last()) + ", "@ + entry
        }
    }
}

/// Debug rendering of a provenance record: every field by name, personal fields redacted.
pub open spec fn provenance_debug(p: GenerationProvenance) -> Seq<char> {
    "GenerationProvenance { seed: "@ + decimal(p.seed as nat) + ", iconography_rules: "@
        + personal_debug(p.iconography_rules) + ", deck_style_text: "@ + personal_debug(
        p.deck_style_text,
    ) + ", chosen_style_option_id: "@ + opt_string_debug(p.chosen_style_option_id)
        + ", court_card_shown: "@ + opt_court_debug(p.court_card_shown) + ", provider_id: "@
        + quoted(p.provider_id@) + ", model_id: "@ + quoted(p.model_id@) + ", prompts: {"@
        + entries_debug(p.prompts.entries()) + "} }"@
}

/// The debug rendering of provenance reveals nothing of its personal fields beyond whether
/// they are empty: records that differ only in the content of the rules and style text
/// render identically.
pub proof fn lemma_provenance_debug_hides_personal(p: GenerationProvenance, q: GenerationProvenance)
    requires
        p.seed == q.seed,
        (p.iconography_rules.0@.len() == 0) == (q.iconography_rules.0@.len() == 0),
        (p.deck_style_text.0@.len() == 0) == (q.deck_style_text.0@.len() == 0),
        p.chosen_style_option_id == q.chosen_style_option_id,
        p.court_card_shown == q.court_card_shown,
        p.provider_id == q.provider_id,
        p.model_id == q.model_id,
        p.prompts.entries() == q.prompts.entries(),
    ensures
        provenance_debug(p) == provenance_debug(q),
{
    lemma_personal_debug_hides_content(p.iconography_rules, q.iconography_rules);
    lemma_personal_debug_hides_content(p.deck_style_text, q.deck_style_text);
}

fn escape_char_str(c: char) -> (r: &'static str)
    requires
        c == '"' || c == '\\' || c == '\n' || c == '\r' || c == '\t' || c == '\0',
    ensures
        r@ == escaped_char(c),
{
    if c == '"' {
        "\\\""
    } else if c == '\\' {
        "\\\\"
    } else if c == '\n' {
        "\\n"
    } else if c == '\r' {
        "\\r"
    } else if c == '\t' {
        "\\t"
    } else {
        "\\0"
    }
}

/// Appends `s` between double quotes, escaped as its debug rendering shows it.
pub(crate) fn push_quoted(out: &mut String, s: &str)
    ensures
        final(out)@ == old(out)@ + quoted(s@),
{
    out.append("\"");
    let cs = chars_of(s);
    let n = cs.len();
    let ghost before = out@;
    for i in 0..n
        invariant
            n == cs@.len(),
            cs@ == s@,
            out@ == before + escaped(cs@.take(i as int)),
    {
        let c = cs[i];
        assert(cs@.take(i + 1).drop_last() == cs@.take(i as int));
        if c == '"' || c == '\\' || c == '\n' || c == '\r' || c == '\t' || c == '\0' {
            out.append(escape_char_str(c));
        } else if (c as u32) < 0x20 || (c as u32) == 0x7f {
            let v = c as u32;
            let mut e = String::from_str("\\u{");
            if v < 16 {
                push_hex(&mut e, v as u64, 1);
                assert(hex_digits(v as nat, 1) =~= short_hex(v as nat)) by {
                    reveal_with_fuel(hex_digits, 2);
                }
            } else {
                push_hex(&mut e, v as u64, 2);
                assert(hex_digits(v as nat, 2) =~= short_hex(v as nat)) by {
                    reveal_with_fuel(hex_digits, 3);
                    assert((v as nat / 16) % 16 == v as nat / 16);
                }
            }
            e.append("}");
            out.append(e.as_str());
        } else {
            push_char(out, c);
            assert(seq![c] == escaped_char(c));
        }
    }
    assert(cs@.take(n as int) == cs@);
    out.append("\"");
}

pub(crate) fn rank_debug_str(r: CourtRank) -> (s: &'static str)
    ensures
        s@ == rank_debug(r),
{
    match r {
        CourtRank::Page => "Page",
        CourtRank::Knight => "Knight",
        CourtRank::Queen => "Queen",
        CourtRank::King => "King",
    }
}

pub(crate) fn suit_debug_str(s: Suit) -> (r: &'static str)
    ensures
        r@ == suit_debug(s),
{
    match s {
        Suit::Cups => "Cups",
        Suit::Wands => "Wands",
        Suit::Swords => "Swords",
        Suit::Pentacles => "Pentacles",
    }
}

fn push_entries(out: &mut String, pairs: &Vec<(String, String)>)
    ensures
        final(out)@ == old(out)@ + entries_debug(pairs@),
{
    let n = pairs.len();
    let ghost before = out@;
    for i in 0..n
        invariant
            n == pairs@.len(),
            out@ == before + entries_debug(pairs@.take(i as int)),
    {
        assert(pairs@.take(i + 1).drop_last() == pairs@.take(i as int));
        if i > 0 {
            out.append(", ");
        }
        push_quoted(out, pairs[i].0.as_str());
        out.append(": ");
        push_quoted(out, pairs[i].1.as_str());
    }
    assert(pairs@.take(n as int) == pairs@);
}

pub(crate) fn push_opt_string(out: &mut String, o: &Option<String>)
    ensures
        final(out)@ == old(out)@ + opt_string_debug(*o),
{
    match o {
        Some(id) => {
            out.append("Some(");
            push_quoted(out, id.as_str());
            out.append(")");
        },
        None => out.append("None"),
    }
}

fn push_opt_court(out: &mut String, o: Option<CourtCardId>)
    ensures
        final(out)@ == old(out)@ + opt_court_debug(o),
{
    match o {
        Some(c) => {
            out.append("Some(CourtCardId { rank: ");
            out.append(rank_debug_str(c.rank));
            out.append(", suit: ");
            out.append(suit_debug_str(c.suit));
            out.append(" })");
        },
        None => out.append("None"),
    }
}

impl GenerationProvenance {
    /// The debug rendering: every field by name, with the personal fields redacted
    /// (`Personal(<redacted>)`) and strings shown between double quotes.
    #[verifier::spinoff_prover]
    pub fn debug_text(&self) -> (s: String)
        ensures
            s@ == provenance_debug(*self),
    {
        let mut s = String::from_str("GenerationProvenance { seed: ");
        push_decimal(&mut s, self.seed);
        s.append(", iconography_rules: ");
        let r = self.iconography_rules.debug_text();
        s.append(r.as_str());
        s.append(", deck_style_text: ");
        let d = self.deck_style_text.debug_text();
        s.append(d.as_str());
        s.append(", chosen_style_option_id: ");
        push_opt_string(&mut s, &self.chosen_style_option_id);
        s.append(", court_card_shown: ");
        push_opt_court(&mut s, self.court_card_shown);
        s.append(", provider_id: ");
        push_quoted(&mut s, self.provider_id.as_str());
        s.append(", model_id: ");
        push_quoted(&mut s, self.model_id.as_str());
        s.append(", prompts: {");
        let pairs = self.prompts.pairs();
        push_entries(&mut s, pairs);
        s.append("} }");
        s
    }

    pub fn duplicate(&self) -> (r: GenerationProvenance)
        ensures
            same_provenance(r, *self),
    {
        GenerationProvenance {
            seed: self.seed,
            iconography_rules: self.iconography_rules.duplicate(),
            deck_style_text: self.deck_style_text.duplicate(),
            chosen_style_option_id: duplicate_opt_string(&self.chosen_style_option_id),
            court_card_shown: self.court_card_shown,
            provider_id: self.provider_id.clone(),
            model_id: self.model_id.clone(),
            prompts: self.prompts.duplicate(),
        }
    }
}

// ---------------------------------------------------------------------------------------
// Card geometry and the style guide
// ---------------------------------------------------------------------------------------

/// A rectangle within a card canvas in normalized coordinates, each stored in thousandths of
/// the canvas (`0` to `1000`).
#[derive(Debug, Clone, Copy, PartialEq, Eq, Structural)]
pub struct Rect {
    pub x: u32,
    pub y: u32,
    pub w: u32,
    pub h: u32,
}

impl Rect {
    pub fn new(x: u32, y: u32, w: u32, h: u32) -> (r: Self)
        ensures
            r == (Rect { x, y, w, h }),
    {
        Rect { x, y, w, h }
    }
}

/// Front-face layout: where the suit icon, card imagery and title sit. `aspect` is the
/// card's width over its height, in thousandths.
#[derive(Debug, Clone, Copy, PartialEq, Eq, Structural)]
pub struct FrontLayout {
    pub aspect: u32,
    pub suit_icon: Rect,
    pub card_imagery: Rect,
    pub title: Rect,
}

/// A region designated for animated shader ("UV coating") effects.
#[derive(Debug, Clone, PartialEq, Eq)]
pub struct ShaderArea {
    pub id: String,
    pub rect: Rect,
    pub kind: String,
}

/// A decorative flourish placement; `rotation` is in thousandths of the rotation unit.
#[derive(Debug, Clone, PartialEq, Eq)]
pub struct FlourishRef {
    pub asset_key: String,
    pub rect: Rect,
    pub rotation: i32,
}

/// The card-system definition derived from the chosen style. Versioned so prior cards stay
/// attributable to the identity that produced them.
#[derive(Debug, Clone, PartialEq, Eq)]
pub struct CardStyleGuide {
    pub id: String,
    pub version: u32,
    pub derived_from_style_option_id: String,
    pub prompt_used: String,
    pub border_chrome_key: String,
    pub card_back_key: String,
    pub card_front_layout: FrontLayout,
    pub shader_areas: Vec<ShaderArea>,
    pub flourishes: Vec<FlourishRef>,
}

/// Two style guides hold the same values.
pub open spec fn same_guide(a: CardStyleGuide, b: CardStyleGuide) -> bool {
    a.id == b.id && a.version == b.version && a.derived_from_style_option_id
        == b.derived_from_style_option_id && a.prompt_used == b.prompt_used && a.border_chrome_key
        == b.border_chrome_key && a.card_back_key == b.card_back_key && a.card_front_layout
        == b.card_front_layout && a.shader_areas@ == b.shader_areas@ && a.flourishes@
        == b.flourishes@
}

impl CardStyleGuide {
    pub fn duplicate(&self) -> (r: CardStyleGuide)
        ensures
            same_guide(r, *self),
    {
        let mut shader_areas: Vec<ShaderArea> = Vec::new();
        let n = self.shader_areas.len();
        for i in 0..n
            invariant
                n == self.shader_areas@.len(),
                shader_areas@ == self.shader_areas@.take(i as int),
        {
            let a = &self.shader_areas[i];
            shader_areas.push(ShaderArea { id: a.id.clone(), rect: a.rect, kind: a.kind.clone() });
            assert(shader_areas@ == self.shader_areas@.take(i + 1));
        }
        assert(self.shader_areas@.take(n as int) == self.shader_areas@);
        let mut flourishes: Vec<FlourishRef> = Vec::new();
        let m = self.flourishes.len();
        for i in 0..m
            invariant
                m == self.flourishes@.len(),
                flourishes@ == self.flourishes@.take(i as int),
        {
            let f = &self.flourishes[i];
            flourishes.push(
                FlourishRef { asset_key: f.asset_key.clone(), rect: f.rect, rotation: f.rotation },
            );
            assert(flourishes@ == self.flourishes@.take(i + 1));
        }
        assert(self.flourishes@.take(m as int) == self.flourishes@);
        CardStyleGuide {
            id: self.id.clone(),
            version: self.version,
            derived_from_style_option_id: self.derived_from_style_option_id.clone(),
            prompt_used: self.prompt_used.clone(),
            border_chrome_key: self.border_chrome_key.clone(),
            card_back_key: self.card_back_key.clone(),
            card_front_layout: self.card_front_layout,
            shader_areas,
            flourishes,
        }
    }
}

// ---------------------------------------------------------------------------------------
// The sample card and the approved deck
// ---------------------------------------------------------------------------------------

/// The single composed court-card preview.
#[derive(Debug, Clone, PartialEq, Eq)]
pub struct SampleCard {
    pub court_card: CourtCardId,
    pub card_imagery_key: String,
    pub front_key: String,
    pub back_key: String,
    pub approval: Approval,
}

impl SampleCard {
    pub fn duplicate(&self) -> (r: SampleCard)
        ensures
            r == *self,
    {
        SampleCard {
            court_card: self.court_card,
            card_imagery_key: self.card_imagery_key.clone(),
            front_key: self.front_key.clone(),
            back_key: self.back_key.clone(),
            approval: self.approval,
        }
    }
}

/// The durable, approved deck identity: the prepared-state bundle later features consume.
pub struct Deck {
    pub id: String,
    pub active: bool,
    pub suit_icons: Vec<SuitIcon>,
    pub style_guide: CardStyleGuide,
    pub provenance: GenerationProvenance,
}

// ---------------------------------------------------------------------------------------
// The wizard session
// ---------------------------------------------------------------------------------------

/// The in-progress deck-creation wizard state (a draft, never "active").
pub struct DeckCreationSession {
    pub id: String,
    pub seed: u64,
    /// Authoritative iconography rules: an app-defined resource, not owner input.
    pub iconography_rules: Personal,
    pub deck_style_text: Personal,
    pub style_options: Vec<StyleOption>,
    pub chosen_style_option_id: Option<String>,
    pub style_guide: Option<CardStyleGuide>,
    pub sample_card: Option<SampleCard>,
    pub status: SessionStatus,
    /// How many style-option rounds have been generated; each round derives a fresh
    /// sub-seed from the session seed.
    pub round: u32,
    /// Provenance accumulated across the session, finalized into the deck on approval.
    pub provenance: GenerationProvenance,
}

/// The position of the first option whose id is `id`.
pub open spec fn option_position(options: Seq<StyleOption>, id: Seq<char>) -> Option<int> {
    if exists|i: int| 0 <= i < options.len() && (#[trigger] options[i]).id@ == id {
        Some(
            choose|i: int|
                0 <= i < options.len() && options[i].id@ == id && forall|j: int|
                    0 <= j < i ==> (#[trigger] options[j]).id@ != id,
        )
    } else {
        None
    }
}

/// The position of the option the owner chose, if the choice names an option.
pub open spec fn chosen_position(s: DeckCreationSession) -> Option<int> {
    match s.chosen_style_option_id {
        Some(id) => option_position(s.style_options@, id@),
        None => None,
    }
}

/// The first option whose id is `id`, scanning in order.
pub fn find_option<'a>(options: &'a Vec<StyleOption>, id: &str) -> (r: Option<&'a StyleOption>)
    ensures
        match r {
            Some(o) => option_position(options@, id@) matches Some(i) && *o == options@[i],
            None => option_position(options@, id@) is None,
        },
{
    let n = options.len();
    for i in 0..n
        invariant
            n == options@.len(),
            forall|j: int| 0 <= j < i ==> (#[trigger] options@[j]).id@ != id@,
    {
        if same_text(options[i].id.as_str(), id) {
            proof {
                let w = choose|w: int|
                    0 <= w < options@.len() && options@[w].id@ == id@ && forall|j: int|
                        0 <= j < w ==> (#[trigger] options@[j]).id@ != id@;
                assert(options@[i as int].id@ == id@);
                if w < i {
                } else if w > i {
                }
            }
            return Some(&options[i]);
        }
    }
    None
}

impl DeckCreationSession {
    /// A fresh session at the inputs step, with provenance seeded from the inputs.
    pub fn new(id: String, seed: u64, rules: Personal, style: Personal) -> (s: Self)
        ensures
            s.id == id,
            s.seed == seed,
            s.iconography_rules == rules,
            s.deck_style_text == style,
            s.style_options@.len() == 0,
            s.chosen_style_option_id is None,
            s.style_guide is None,
            s.sample_card is None,
            s.status == SessionStatus::Inputs,
            s.round == 0,
            s.provenance.seed == seed,
            s.provenance.iconography_rules == rules,
            s.provenance.deck_style_text == style,
            s.provenance.chosen_style_option_id is None,
            s.provenance.court_card_shown is None,
            s.provenance.provider_id@ == Seq::<char>::empty(),
            s.provenance.model_id@ == Seq::<char>::empty(),
            s.provenance.prompts@ == Map::<Seq<char>, Seq<char>>::empty(),
    {
        let provenance = GenerationProvenance {
            seed,
            iconography_rules: rules.duplicate(),
            deck_style_text: style.duplicate(),
            chosen_style_option_id: None,
            court_card_shown: None,
            provider_id: String::new(),
            model_id: String::new(),
            prompts: PromptMap::new(),
        };
        DeckCreationSession {
            id,
            seed,
            iconography_rules: rules,
            deck_style_text: style,
            style_options: Vec::new(),
            chosen_style_option_id: None,
            style_guide: None,
            sample_card: None,
            status: SessionStatus::Inputs,
            round: 0,
            provenance,
        }
    }

    /// The option the owner chose, if the recorded choice names one of the options.
    pub fn chosen_option(&self) -> (r: Option<&StyleOption>)
        ensures
            match r {
                Some(o) => chosen_position(*self) matches Some(i) && *o == self.style_options@[i],
                None => chosen_position(*self) is None,
            },
    {
        match &self.chosen_style_option_id {
            Some(id) => find_option(&self.style_options, id.as_str()),
            None => None,
        }
    }
}

} // verus!
