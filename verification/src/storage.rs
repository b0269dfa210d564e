//! Prepared-state persistence decisions: storage errors, the keys of the deck bundle and of
//! the active-deck pointer, and how a storage key maps to path segments under the store's
//! base directory (traversal segments are dropped).
use vstd::prelude::*;

use crate::text::{chars_of, push_char};

verus! {

/// Why a storage operation failed.
#[derive(Debug)]
pub enum StoreError {
    NotFound(String),
    Io(String),
    Serde(String),
}

/// The display text of a storage error.
pub open spec fn store_error_text(e: StoreError) -> Seq<char> {
    match e {
        StoreError::NotFound(k) => "key not found: "@ + k@,
        StoreError::Io(m) => "io error: "@ + m@,
        StoreError::Serde(m) => "serialization error: "@ + m@,
    }
}

impl StoreError {
    /// The human-readable message.
    pub fn message(&self) -> (s: String)
        ensures
            s@ == store_error_text(*self),
    {
        let (head, rest) = match self {
            StoreError::NotFound(k) => ("key not found: ", k),
            StoreError::Io(m) => ("io error: ", m),
            StoreError::Serde(m) => ("serialization error: ", m),
        };
        let mut s = String::from_str(head);
        s.append(rest.as_str());
        s
    }
}

/// Pointer to the single active deck.
#[derive(Debug, Clone, PartialEq, Eq)]
pub struct ActivePointer {
    pub active_deck_id: Option<String>,
}

impl Default for ActivePointer {
    fn default() -> (p: Self)
        ensures
            p.active_deck_id is None,
    {
        ActivePointer { active_deck_id: None }
    }
}

impl ActivePointer {
    /// The pointer that marks `deck_id` as the single active deck.
    pub fn to(deck_id: String) -> (p: Self)
        ensures
            p.active_deck_id == Some(deck_id),
    {
        ActivePointer { active_deck_id: Some(deck_id) }
    }
}

/// Storage key of the active-deck pointer.
pub open spec fn active_key_text() -> Seq<char> {
    "decks/active.json"@
}

/// Storage key of the active-deck pointer.
pub fn active_key() -> (k: &'static str)
    ensures
        k@ == active_key_text(),
{
    "decks/active.json"
}

/// Storage key of a deck's manifest.
pub open spec fn manifest_key_of(deck_id: Seq<char>) -> Seq<char> {
    "decks/"@ + deck_id + "/deck.json"@
}

/// Storage key of a deck's manifest: `decks/{deck_id}/deck.json`.
pub fn manifest_key(deck_id: &str) -> (k: String)
    ensures
        k@ == manifest_key_of(deck_id@),
{
    let mut k = String::from_str("decks/");
    k.append(deck_id);
    k.append("/deck.json");
    k
}

/// A key split at every `/`, empty pieces included (`str::split('/')`).
pub open spec fn split_slash(s: Seq<char>) -> Seq<Seq<char>>
    decreases s.len(),
{
    if s.len() == 0 {
        seq![Seq::<char>::empty()]
    } else {
        let prev = split_slash(s.drop_last());
        if s.last() == '/' {
            prev.push(Seq::<char>::empty())
        } else {
            prev.update(prev.len() - 1, prev.last().push(s.last()))
        }
    }
}

/// A piece of a key that names a path segment: not empty, `.` or `..`.
pub open spec fn is_real_segment(seg: Seq<char>) -> bool {
    seg.len() != 0 && seg != seq!['.'] && seg != seq!['.', '.']
}

/// The path segments a key maps to under the store's base: its `/`-separated pieces
/// without empty, `.` and `..` pieces.
pub open spec fn key_segments_of(key: Seq<char>) -> Seq<Seq<char>> {
    split_slash(key).filter(real_segment())
}

/// [`is_real_segment`] as a predicate value.
pub open spec fn real_segment() -> spec_fn(Seq<char>) -> bool {
    |seg: Seq<char>| is_real_segment(seg)
}

proof fn lemma_split_nonempty(s: Seq<char>)
    ensures
        split_slash(s).len() >= 1,
    decreases s.len(),
{
    if s.len() > 0 {
        lemma_split_nonempty(s.drop_last());
    }
}

fn is_real(seg: &Vec<char>) -> (b: bool)
    ensures
        b == is_real_segment(seg@),
{
    if seg.len() == 0 {
        return false;
    }
    if seg.len() == 1 && seg[0] == '.' {
        assert(seg@ == seq!['.']);
        return false;
    }
    if seg.len() == 2 && seg[0] == '.' && seg[1] == '.' {
        assert(seg@ == seq!['.', '.']);
        return false;
    }
    assert(seg@ != seq!['.'] && seg@ != seq!['.', '.']) by {
        if seg@.len() == 1 {
            assert(seg@[0] != seq!['.'][0]);
        }
        if seg@.len() == 2 {
            assert(seg@[0] != seq!['.', '.'][0] || seg@[1] != seq!['.', '.'][1]);
        }
    }
    true
}

fn string_from(v: &Vec<char>) -> (s: String)
    ensures
        s@ == v@,
{
    let mut s = String::new();
    let n = v.len();
    for i in 0..n
        invariant
            n == v@.len(),
            s@ == v@.take(i as int),
    {
        push_char(&mut s, v[i]);
        assert(v@.take(i + 1) == v@.take(i as int).push(v@[i as int]));
    }
    assert(v@.take(n as int) == v@);
    s
}

/// Filesystem-backed store settings: the base directory under which keys are mapped to
/// paths. The host performs the reads and writes.
#[derive(Debug, Clone)]
pub struct FsStore {
    base: String,
}

impl FsStore {
    pub fn new(base: String) -> (s: Self)
        ensures
            s.base() == base,
    {
        FsStore { base }
    }

    pub closed spec fn base(&self) -> String {
        self.base
    }

    pub fn base_dir(&self) -> (s: &str)
        ensures
            s@ == self.base()@,
    {
        self.base.as_str()
    }

    /// The path segments `key` maps to under the base directory: keys are `/`-separated,
    /// and empty, `.` and `..` pieces are dropped, so no key reaches outside the base.
    pub fn key_segments(key: &str) -> (segs: Vec<String>)
        ensures
            segs@.len() == key_segments_of(key@).len(),
            forall|i: int| 0 <= i < segs@.len() ==> (#[trigger] segs@[i])@ == key_segments_of(key@)[i],
    {
        let cs = chars_of(key);
        let n = cs.len();
        let mut out: Vec<String> = Vec::new();
        let mut cur: Vec<char> = Vec::new();
        let ghost pred = real_segment();
        proof {
            assert(cs@.take(0) == Seq::<char>::empty());
            reveal_with_fuel(Seq::filter, 1);
        }
        for i in 0..n
            invariant
                n == cs@.len(),
                cs@ == key@,
                pred == real_segment(),
                split_slash(cs@.take(i as int)).len() >= 1,
                cur@ == split_slash(cs@.take(i as int)).last(),
                out@.len() == split_slash(cs@.take(i as int)).drop_last().filter(pred).len(),
                forall|j: int|
                    0 <= j < out@.len() ==> (#[trigger] out@[j])@ == split_slash(
                        cs@.take(i as int),
                    ).drop_last().filter(pred)[j],
        {
            let ghost prefix = cs@.take(i as int);
            let ghost next = cs@.take(i + 1);
            assert(next.drop_last() == prefix);
            assert(next.last() == cs@[i as int]);
            proof {
                lemma_split_nonempty(prefix);
            }
            let c = cs[i];
            if c == '/' {
                let ghost done = split_slash(prefix).drop_last();
                assert(split_slash(next) == split_slash(prefix).push(Seq::<char>::empty()));
                assert(split_slash(next).drop_last() == done.push(cur@));
                proof {
                    reveal_with_fuel(Seq::filter, 1);
                    assert(done.push(cur@).drop_last() == done);
                    assert(done.push(cur@).last() == cur@);
                }
                if is_real(&cur) {
                    out.push(string_from(&cur));
                    assert(done.push(cur@).filter(pred) == done.filter(pred).push(cur@));
                } else {
                    assert(done.push(cur@).filter(pred) == done.filter(pred));
                }
                cur = Vec::new();
            } else {
                assert(split_slash(next) == split_slash(prefix).update(
                    split_slash(prefix).len() - 1,
                    split_slash(prefix).last().push(c),
                ));
                assert(split_slash(next).drop_last() == split_slash(prefix).drop_last());
                cur.push(c);
            }
        }
        assert(cs@.take(n as int) == cs@);
        let ghost all = split_slash(cs@);
        proof {
            lemma_split_nonempty(cs@);
            assert(all == all.drop_last().push(all.last()));
            reveal_with_fuel(Seq::filter, 1);
            assert(all.drop_last().push(cur@).drop_last() == all.drop_last());
            assert(all.drop_last().push(cur@).last() == cur@);
        }
        if is_real(&cur) {
            out.push(string_from(&cur));
            assert(all.drop_last().push(cur@).filter(pred) == all.drop_last().filter(pred).push(cur@));
        } else {
            assert(all.drop_last().push(cur@).filter(pred) == all.drop_last().filter(pred));
        }
        out
    }
}

/// No path segment of a key is empty, `.` or `..`: a key never reaches outside the base.
pub proof fn lemma_key_segments_stay_inside(key: Seq<char>, i: int)
    requires
        0 <= i < key_segments_of(key).len(),
    ensures
        is_real_segment(key_segments_of(key)[i]),
{
    broadcast use vstd::seq_lib::group_filter_ensures;

    let pred = real_segment();
    assert(pred(split_slash(key).filter(pred)[i]));
}

} // verus!
