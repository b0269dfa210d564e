//! A round of suit-icon style options: every option covers all four suits, and the same
//! session seed and round always plan the same options, prompts, seeds and keys.
use vstd::prelude::*;

use crate::court::suit_at;
use crate::model::{
    covers, duplicate_options, has_icon_for, same_options, DeckCreationSession, SessionStatus,
    StyleOption, SuitIcon,
};
use crate::pipeline::session::{asset_job, asset_size, draft_key, draft_key_of, ImageJob};
use crate::prompt::{build_image_prompt, image_prompt_text};
use crate::rng::{sub_seed, sub_seed_of};
use crate::suit::{suit_name, Suit};
use crate::text::{
    decimal, has_prefix, is_decimal_digit, lemma_decimal_digits, lemma_decimal_injective, push_char,
    push_decimal,
};

verus! {

/// What one round of generation returns to the wizard.
#[derive(Debug, Clone)]
pub struct IconStylesResult {
    pub session_id: String,
    pub style_options: Vec<StyleOption>,
}

/// The session after the round, the images to generate (in order), and the result.
pub struct IconRoundPlan {
    pub session: DeckCreationSession,
    pub jobs: Vec<ImageJob>,
    pub result: IconStylesResult,
}

/// How many options a round generates: the requested count, at least three.
pub open spec fn option_count(count: usize) -> nat {
    if count < 3 {
        3
    } else {
        count as nat
    }
}

/// Id of option `o` of round `round`: `r{round}-opt{o}`.
pub open spec fn option_id_of(round: u32, o: nat) -> Seq<char> {
    "r"@ + decimal(round as nat) + "-opt"@ + decimal(o)
}

/// Label of option `o`: `Option A`, `Option B`, ...
pub open spec fn label_of(o: nat) -> Seq<char> {
    "Option "@.push(((65 + o) as u8) as char)
}

/// Seed of a round.
pub open spec fn round_seed_of(seed: u64, round: u32) -> u64 {
    sub_seed_of(seed, "round-"@ + decimal(round as nat))
}

/// Seed of option `o` of a round.
pub open spec fn option_seed_of(seed: u64, round: u32, o: nat) -> u64 {
    sub_seed_of(round_seed_of(seed, round), option_id_of(round, o))
}

/// The prompt of option `o`: the rules, the style, and the option as the subject.
pub open spec fn option_prompt_of(rules: Seq<char>, style: Seq<char>, o: nat) -> Seq<char> {
    image_prompt_text(rules, style, "suit-set option "@ + decimal(o))
}

/// Storage key of the icon of `suit` in option `o`.
pub open spec fn icon_key_of(sid: Seq<char>, round: u32, o: nat, suit: Suit) -> Seq<char> {
    draft_key_of(sid, "icons/"@ + option_id_of(round, o) + "/"@ + suit_name(suit) + ".png"@)
}

/// The prompt of the icon of `suit` in an option whose base prompt is `base`.
pub open spec fn icon_prompt_of(base: Seq<char>, suit: Suit) -> Seq<char> {
    base + " | suit: "@ + suit_name(suit)
}

/// Seed of the icon of `suit` in option `o`.
pub open spec fn icon_seed_of(seed: u64, round: u32, o: nat, suit: Suit) -> u64 {
    sub_seed_of(option_seed_of(seed, round, o), suit_name(suit))
}

/// `opt` is option `o` as planned for session `s` from the base prompt `prompt`: its id,
/// label and prompt, and one icon per standard suit in canonical order, stored under the
/// planned keys.
pub open spec fn planned_option(opt: StyleOption, s: DeckCreationSession, o: nat, prompt: Seq<
    char,
>) -> bool {
    &&& opt.id@ == option_id_of(s.round, o)
    &&& opt.label@ == label_of(o)
    &&& opt.prompt_used@ == prompt
    &&& opt.suit_icons@.len() == 4
    &&& forall|k: int|
        0 <= k < 4 ==> (#[trigger] opt.suit_icons@[k]).suit == suit_at(k)
            && opt.suit_icons@[k].image_key@ == icon_key_of(s.id@, s.round, o, suit_at(k))
}

/// `job` generates the icon of the `k`-th standard suit in option `o` of session `s`, whose
/// base prompt is `prompt`.
pub open spec fn planned_job(
    job: ImageJob,
    s: DeckCreationSession,
    o: nat,
    k: int,
    prompt: Seq<char>,
) -> bool {
    &&& job.key@ == icon_key_of(s.id@, s.round, o, suit_at(k))
    &&& job.request.prompt@ == icon_prompt_of(prompt, suit_at(k))
    &&& job.request.seed == icon_seed_of(s.seed, s.round, o, suit_at(k))
    &&& job.request.size == asset_size()
}

fn standard_suit(k: usize) -> (s: Suit)
    requires
        k < 4,
    ensures
        s == suit_at(k as int),
{
    if k == 0 {
        Suit::Cups
    } else if k == 1 {
        Suit::Wands
    } else if k == 2 {
        Suit::Swords
    } else {
        Suit::Pentacles
    }
}

/// The seed of option `o` of the session's current round, as the option's prompt and icons
/// are generated with.
pub fn option_seed(seed: u64, round: u32, o: usize) -> (r: u64)
    ensures
        r == option_seed_of(seed, round, o as nat),
{
    let mut round_label = String::from_str("round-");
    push_decimal(&mut round_label, round as u64);
    let round_seed = sub_seed(seed, round_label.as_str());
    let option_id = option_id(round, o);
    sub_seed(round_seed, option_id.as_str())
}

fn option_id(round: u32, o: usize) -> (r: String)
    ensures
        r@ == option_id_of(round, o as nat),
{
    let mut option_id = String::from_str("r");
    push_decimal(&mut option_id, round as u64);
    option_id.append("-opt");
    push_decimal(&mut option_id, o as u64);
    option_id
}

/// The subject of option `o`'s prompt: `suit-set option {o}`.
pub fn option_subject(o: usize) -> (s: String)
    ensures
        s@ == "suit-set option "@ + decimal(o as nat),
{
    let mut subject = String::from_str("suit-set option ");
    push_decimal(&mut subject, o as u64);
    subject
}

/// Plan one round of style options for `session` from the options' base prompts:
/// `max(count, 3)` options, option `o` prompted by `prompts[o]`, each with an icon per
/// standard suit. The session records the options, clears any earlier choice and moves to
/// choosing a style.
pub fn plan_icon_round_from(
    session: DeckCreationSession,
    count: usize,
    prompts: Vec<String>,
) -> (plan: IconRoundPlan)
    requires
        count <= 191,
        prompts@.len() == option_count(count),
    ensures
        plan.session.id == session.id,
        plan.session.seed == session.seed,
        plan.session.iconography_rules == session.iconography_rules,
        plan.session.deck_style_text == session.deck_style_text,
        plan.session.round == session.round,
        plan.session.style_guide == session.style_guide,
        plan.session.sample_card == session.sample_card,
        plan.session.provenance == session.provenance,
        plan.session.chosen_style_option_id is None,
        plan.session.status == SessionStatus::ChoosingStyle,
        plan.session.style_options@.len() == option_count(count),
        forall|o: int|
            0 <= o < option_count(count) ==> planned_option(
                #[trigger] plan.session.style_options@[o],
                session,
                o as nat,
                prompts@[o]@,
            ),
        plan.jobs@.len() == 4 * option_count(count),
        forall|j: int|
            0 <= j < plan.jobs@.len() ==> planned_job(
                #[trigger] plan.jobs@[j],
                session,
                (j / 4) as nat,
                j % 4,
                prompts@[j / 4]@,
            ),
        plan.result.session_id == session.id,
        same_options(plan.result.style_options@, plan.session.style_options@),
{
    let n: usize = if count < 3 {
        3
    } else {
        count
    };
    let round = session.round;
    let mut options: Vec<StyleOption> = Vec::new();
    let mut jobs: Vec<ImageJob> = Vec::new();
    for o in 0..n
        invariant
            n == option_count(count),
            n <= 191,
            prompts@.len() == n,
            round == session.round,
            options@.len() == o,
            jobs@.len() == 4 * o,
            forall|i: int|
                0 <= i < o ==> planned_option(
                    #[trigger] options@[i],
                    session,
                    i as nat,
                    prompts@[i]@,
                ),
            forall|j: int|
                0 <= j < 4 * o ==> planned_job(
                    #[trigger] jobs@[j],
                    session,
                    (j / 4) as nat,
                    j % 4,
                    prompts@[j / 4]@,
                ),
    {
        let option_id = option_id(round, o);
        let option_seed = option_seed(session.seed, round, o);
        let base_prompt = prompts[o].clone();
        let mut suit_icons: Vec<SuitIcon> = Vec::new();
        for k in 0..4usize
            invariant
                o < n,
                prompts@.len() == n,
                round == session.round,
                option_id@ == option_id_of(round, o as nat),
                option_seed == option_seed_of(session.seed, round, o as nat),
                base_prompt@ == prompts@[o as int]@,
                suit_icons@.len() == k,
                jobs@.len() == 4 * o + k,
                forall|i: int|
                    0 <= i < k ==> (#[trigger] suit_icons@[i]).suit == suit_at(i)
                        && suit_icons@[i].image_key@ == icon_key_of(
                        session.id@,
                        round,
                        o as nat,
                        suit_at(i),
                    ),
                forall|j: int|
                    0 <= j < 4 * o + k ==> planned_job(
                        #[trigger] jobs@[j],
                        session,
                        (j / 4) as nat,
                        j % 4,
                        prompts@[j / 4]@,
                    ),
        {
            let suit = standard_suit(k);
            let mut suffix = String::from_str("icons/");
            suffix.append(option_id.as_str());
            suffix.append("/");
            suffix.append(suit.as_str());
            suffix.append(".png");
            let key = draft_key(session.id.as_str(), suffix.as_str());
            let mut prompt = base_prompt.clone();
            prompt.append(" | suit: ");
            prompt.append(suit.as_str());
            let seed = sub_seed(option_seed, suit.as_str());
            let job = asset_job(key.clone(), prompt, seed);
            assert((4 * o + k) / 4 == o && (4 * o + k) % 4 == k as int);
            jobs.push(job);
            suit_icons.push(SuitIcon { suit, image_key: key });
        }
        let mut label = String::from_str("Option ");
        let letter = (65u8 + o as u8) as char;
        push_char(&mut label, letter);
        options.push(
            StyleOption { id: option_id, label, suit_icons, prompt_used: base_prompt },
        );
    }
    let result = IconStylesResult {
        session_id: session.id.clone(),
        style_options: duplicate_options(&options),
    };
    let next = DeckCreationSession {
        style_options: options,
        chosen_style_option_id: None,
        status: SessionStatus::ChoosingStyle,
        ..session
    };
    IconRoundPlan { session: next, jobs, result }
}

/// Plan one round of style options for `session`: `max(count, 3)` options, each prompted by
/// the session's rules, its style and the option as the subject, each with an icon per
/// standard suit. The session records the options, clears any earlier choice and moves to
/// choosing a style.
pub fn plan_icon_round(session: DeckCreationSession, count: usize) -> (plan: IconRoundPlan)
    requires
        count <= 191,
    ensures
        plan.session.id == session.id,
        plan.session.seed == session.seed,
        plan.session.iconography_rules == session.iconography_rules,
        plan.session.deck_style_text == session.deck_style_text,
        plan.session.round == session.round,
        plan.session.style_guide == session.style_guide,
        plan.session.sample_card == session.sample_card,
        plan.session.provenance == session.provenance,
        plan.session.chosen_style_option_id is None,
        plan.session.status == SessionStatus::ChoosingStyle,
        plan.session.style_options@.len() == option_count(count),
        forall|o: int|
            0 <= o < option_count(count) ==> planned_option(
                #[trigger] plan.session.style_options@[o],
                session,
                o as nat,
                option_prompt_of(session.iconography_rules.0@, session.deck_style_text.0@, o as nat),
            ),
        plan.jobs@.len() == 4 * option_count(count),
        forall|j: int|
            0 <= j < plan.jobs@.len() ==> planned_job(
                #[trigger] plan.jobs@[j],
                session,
                (j / 4) as nat,
                j % 4,
                option_prompt_of(
                    session.iconography_rules.0@,
                    session.deck_style_text.0@,
                    (j / 4) as nat,
                ),
            ),
        plan.result.session_id == session.id,
        same_options(plan.result.style_options@, plan.session.style_options@),
{
    let n: usize = if count < 3 {
        3
    } else {
        count
    };
    let mut prompts: Vec<String> = Vec::new();
    for o in 0..n
        invariant
            n == option_count(count),
            prompts@.len() == o,
            forall|i: int|
                0 <= i < o ==> (#[trigger] prompts@[i])@ == option_prompt_of(
                    session.iconography_rules.0@,
                    session.deck_style_text.0@,
                    i as nat,
                ),
    {
        let subject = option_subject(o);
        prompts.push(
            build_image_prompt(
                session.iconography_rules.as_str(),
                session.deck_style_text.as_str(),
                subject.as_str(),
            ),
        );
    }
    let ghost ps = prompts@;
    let ghost rules = session.iconography_rules.0@;
    let ghost style = session.deck_style_text.0@;
    let ghost s0 = session;
    let plan = plan_icon_round_from(session, count, prompts);
    assert forall|o: int| 0 <= o < option_count(count) implies planned_option(
        #[trigger] plan.session.style_options@[o],
        s0,
        o as nat,
        option_prompt_of(rules, style, o as nat),
    ) by {
        assert(ps[o]@ == option_prompt_of(rules, style, o as nat));
    }
    assert forall|j: int| 0 <= j < plan.jobs@.len() implies planned_job(
        #[trigger] plan.jobs@[j],
        s0,
        (j / 4) as nat,
        j % 4,
        option_prompt_of(rules, style, (j / 4) as nat),
    ) by {
        assert(planned_job(plan.jobs@[j], s0, (j / 4) as nat, j % 4, ps[j / 4]@));
        assert(ps[j / 4]@ == option_prompt_of(rules, style, (j / 4) as nat));
    }
    plan
}

/// Every planned option holds an icon for each of the four standard suits.
pub proof fn lemma_planned_options_cover_all_suits(
    opt: StyleOption,
    s: DeckCreationSession,
    o: nat,
    prompt: Seq<char>,
)
    requires
        planned_option(opt, s, o, prompt),
    ensures
        covers(opt.suit_icons@, seq![Suit::Cups, Suit::Wands, Suit::Swords, Suit::Pentacles]),
{
    let suits = seq![Suit::Cups, Suit::Wands, Suit::Swords, Suit::Pentacles];
    assert forall|k: int| 0 <= k < suits.len() implies has_icon_for(
        opt.suit_icons@,
        #[trigger] suits[k],
    ) by {
        assert(opt.suit_icons@[k].suit == suit_at(k));
    }
}

/// A round generates at least three options.
pub proof fn lemma_at_least_three_options(count: usize)
    ensures
        option_count(count) >= 3,
{
}

/// Option ids carry their round: every id of round `r` begins with `r{r}-`.
pub proof fn lemma_option_id_names_round(round: u32, o: nat)
    ensures
        has_prefix(option_id_of(round, o), "r"@ + decimal(round as nat) + "-"@),
{
    reveal_strlit("-opt");
    reveal_strlit("-");
    let p = "r"@ + decimal(round as nat) + "-"@;
    let id = option_id_of(round, o);
    assert(id.subrange(0, p.len() as int) =~= p);
}

/// Options of different rounds never share an id, so regenerating yields options distinct
/// from every earlier round's.
pub proof fn lemma_rounds_have_distinct_option_ids(r1: u32, o1: nat, r2: u32, o2: nat)
    requires
        r1 != r2,
    ensures
        option_id_of(r1, o1) != option_id_of(r2, o2),
{
    reveal_strlit("-opt");
    reveal_strlit("r");
    let d1 = decimal(r1 as nat);
    let d2 = decimal(r2 as nat);
    let l1 = d1.len() as int;
    let l2 = d2.len() as int;
    let a = option_id_of(r1, o1);
    let b = option_id_of(r2, o2);
    lemma_decimal_digits(r1 as nat);
    lemma_decimal_digits(r2 as nat);
    if a == b {
        assert(a.subrange(1, 1 + l1) =~= d1 && a[1 + l1] == '-');
        assert(b.subrange(1, 1 + l2) =~= d2 && b[1 + l2] == '-');
        if l1 == l2 {
            assert(d1 =~= d2);
            lemma_decimal_injective(r1 as nat, r2 as nat);
        } else if l1 < l2 {
            assert(b[1 + l1] == d2[l1]);
            assert(is_decimal_digit(d2[l1]));
        } else {
            assert(a[1 + l2] == d1[l2]);
            assert(is_decimal_digit(d1[l2]));
        }
    }
}

/// Each round draws its option seeds afresh: option `o` of round `r` is seeded by hashing the
/// option's id `r{r}-opt{o}` into the sub-seed labelled `round-{r}` of the session seed, and
/// each icon by hashing its suit name into that. Two different rounds feed the hash different
/// round labels and different option ids, so regenerating does not reuse a round's seeds.
pub proof fn lemma_round_seeds_are_drawn_from_the_round(
    seed: u64,
    r1: u32,
    r2: u32,
    o: nat,
    suit: Suit,
)
    requires
        r1 != r2,
    ensures
        option_seed_of(seed, r1, o) == sub_seed_of(
            sub_seed_of(seed, "round-"@ + decimal(r1 as nat)),
            "r"@ + decimal(r1 as nat) + "-opt"@ + decimal(o),
        ),
        icon_seed_of(seed, r1, o, suit) == sub_seed_of(
            sub_seed_of(
                sub_seed_of(seed, "round-"@ + decimal(r1 as nat)),
                "r"@ + decimal(r1 as nat) + "-opt"@ + decimal(o),
            ),
            suit_name(suit),
        ),
        "round-"@ + decimal(r1 as nat) != "round-"@ + decimal(r2 as nat),
        "r"@ + decimal(r1 as nat) + "-opt"@ + decimal(o) != "r"@ + decimal(r2 as nat) + "-opt"@
            + decimal(o),
{
    lemma_rounds_have_distinct_option_ids(r1, o, r2, o);
    reveal_strlit("round-");
    let a = "round-"@ + decimal(r1 as nat);
    let b = "round-"@ + decimal(r2 as nat);
    if a == b {
        assert(a.skip(6) =~= decimal(r1 as nat));
        assert(b.skip(6) =~= decimal(r2 as nat));
        lemma_decimal_injective(r1 as nat, r2 as nat);
    }
}

} // verus!
