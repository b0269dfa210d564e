//! Seeded, reproducible choices: the court card of the sample, and per-step sub-seeds.
use rand::seq::SliceRandom;
use rand::SeedableRng;
use vstd::prelude::*;
use vstd::utf8::encode_utf8;

use crate::court::{all_court_cards, court_index, lemma_court_cards_complete_and_distinct, CourtCardId};

verus! {

/// FNV-1a 64-bit offset basis.
pub const FNV_OFFSET: u64 = 0xcbf2_9ce4_8422_2325;

/// FNV-1a 64-bit prime.
pub const FNV_PRIME: u64 = 0x0000_0100_0000_01b3;

/// One FNV-1a step: mix a byte into the running hash.
pub open spec fn fnv_step(h: u64, b: u8) -> u64 {
    (h ^ (b as u64)).wrapping_mul(FNV_PRIME)
}

/// FNV-1a over `bytes`, starting from the running hash `h`.
pub open spec fn fnv_fold(h: u64, bytes: Seq<u8>) -> u64
    decreases bytes.len(),
{
    if bytes.len() == 0 {
        h
    } else {
        fnv_step(fnv_fold(h, bytes.drop_last()), bytes.last())
    }
}

/// The sub-seed derived from a session seed and a label: FNV-1a over the label's UTF-8
/// bytes, mixed with the seed.
pub open spec fn sub_seed_of(seed: u64, label: Seq<char>) -> u64 {
    fnv_fold(FNV_OFFSET, encode_utf8(label)) ^ seed
}

/// Folds `bytes[from..]` into `h` one byte at a time.
pub fn fnv_extend(h: u64, bytes: &[u8]) -> (r: u64)
    ensures
        r == fnv_fold(h, bytes@),
{
    let mut hash = h;
    let n = bytes.len();
    for i in 0..n
        invariant
            n == bytes@.len(),
            hash == fnv_fold(h, bytes@.take(i as int)),
    {
        assert(bytes@.take(i + 1).drop_last() == bytes@.take(i as int));
        hash = (hash ^ bytes[i] as u64).wrapping_mul(FNV_PRIME);
    }
    assert(bytes@.take(n as int) == bytes@);
    hash
}

/// Derive a stable per-step sub-seed from a session seed and a label, so each generation
/// request varies deterministically.
pub fn sub_seed(seed: u64, label: &str) -> (r: u64)
    ensures
        r == sub_seed_of(seed, label@),
{
    let hash = fnv_extend(FNV_OFFSET, label.as_bytes());
    hash ^ seed
}

/// The index that `SliceRandom::choose` picks from a slice of `len` items when driven by a
/// ChaCha20 generator seeded from `seed` with `seed_from_u64`.
pub uninterp spec fn seeded_choice_index(seed: u64, len: nat) -> nat;

/// Picks one card with a ChaCha20 generator seeded from `seed` (`ChaCha20Rng::seed_from_u64`
/// then `SliceRandom::choose`). rand's `choose` on a non-empty slice returns the element at
/// `gen_index(rng, len)`, an index below `len` that depends only on the generator and `len`;
/// the contract names that index and states that the pick is one of `cards`.
#[verifier::external_body]
fn choose_seeded(seed: u64, cards: &[CourtCardId]) -> (picked: CourtCardId)
    requires
        cards@.len() > 0,
    ensures
        picked == cards@[seeded_choice_index(seed, cards@.len()) as int],
        cards@.contains(picked),
{
    let mut rng = rand_chacha::ChaCha20Rng::seed_from_u64(seed);
    *cards.choose(&mut rng).unwrap()
}

/// The court card that seed `seed` selects.
pub open spec fn court_card_for(seed: u64) -> CourtCardId {
    all_court_cards()[seeded_choice_index(seed, 16) as int]
}

/// Seeded court-card selection for the sample card: reproducible given the seed, and always
/// one of the sixteen court cards.
pub fn select_court_card(seed: u64) -> (c: CourtCardId)
    ensures
        c == court_card_for(seed),
        c == all_court_cards()[seeded_choice_index(seed, 16) as int],
        all_court_cards().contains(c),
{
    let all = CourtCardId::all();
    choose_seeded(seed, all.as_slice())
}

/// The pick ranges over all sixteen court cards: the generator draws an index from a list of
/// sixteen, and the card at that position in rank-major order (page, knight, queen, king; each
/// in cups, wands, swords, pentacles) is the one shown. So whichever card's position the
/// draw lands on, Knights, Queens and Kings included, is the card that seed selects.
pub proof fn lemma_pick_ranges_over_all_sixteen(seed: u64, c: CourtCardId)
    requires
        seeded_choice_index(seed, 16) == court_index(c),
    ensures
        court_card_for(seed) == c,
        court_card_for(seed).rank == c.rank,
        court_card_for(seed).suit == c.suit,
{
    lemma_court_cards_complete_and_distinct(c);
}

} // verus!
