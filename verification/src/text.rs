//! Character-level text handling shared by the prompt builders, key builders and parsers:
//! Unicode whitespace trimming, substring search, and decimal/hex rendering of integers.
use vstd::prelude::*;

verus! {

// ---------------------------------------------------------------------------------------
// Specifications
// ---------------------------------------------------------------------------------------

/// Unicode `White_Space`, the property that `char::is_whitespace` tests.
pub open spec fn is_ws(c: char) -> bool {
    let u = c as u32;
    (0x09 <= u && u <= 0x0d) || u == 0x20 || u == 0x85 || u == 0xa0 || u == 0x1680 || (0x2000
        <= u && u <= 0x200a) || u == 0x2028 || u == 0x2029 || u == 0x202f || u == 0x205f || u
        == 0x3000
}

/// `s` without its leading whitespace.
pub open spec fn trim_start(s: Seq<char>) -> Seq<char>
    decreases s.len(),
{
    if s.len() > 0 && is_ws(s[0]) {
        trim_start(s.drop_first())
    } else {
        s
    }
}

/// `s` without its trailing whitespace.
pub open spec fn trim_end(s: Seq<char>) -> Seq<char>
    decreases s.len(),
{
    if s.len() > 0 && is_ws(s.last()) {
        trim_end(s.drop_last())
    } else {
        s
    }
}

/// `s` without leading and trailing whitespace (what `str::trim` returns).
pub open spec fn trim(s: Seq<char>) -> Seq<char> {
    trim_end(trim_start(s))
}

/// Every character of `s` is whitespace.
pub open spec fn all_ws(s: Seq<char>) -> bool {
    forall|i: int| 0 <= i < s.len() ==> is_ws(#[trigger] s[i])
}

/// `needle` occurs in `hay` starting at position `i`.
pub open spec fn occurs_at(hay: Seq<char>, needle: Seq<char>, i: int) -> bool {
    0 <= i && i + needle.len() <= hay.len() && hay.subrange(i, i + needle.len()) == needle
}

/// `needle` occurs somewhere in `hay`.
pub open spec fn contains(hay: Seq<char>, needle: Seq<char>) -> bool {
    exists|i: int| occurs_at(hay, needle, i)
}

/// The position of the first occurrence of `needle` in `hay`, if any (`str::find`).
#[verifier::opaque]
pub open spec fn first_occurrence(hay: Seq<char>, needle: Seq<char>) -> Option<int> {
    if contains(hay, needle) {
        Some(
            choose|i: int|
                occurs_at(hay, needle, i) && forall|j: int| 0 <= j < i ==> !occurs_at(hay, needle, j),
        )
    } else {
        None
    }
}

/// The position of the last occurrence of `needle` in `hay`, if any (`str::rfind`).
#[verifier::opaque]
pub open spec fn last_occurrence(hay: Seq<char>, needle: Seq<char>) -> Option<int> {
    if contains(hay, needle) {
        Some(
            choose|i: int|
                occurs_at(hay, needle, i) && forall|j: int|
                    i < j <= hay.len() ==> !occurs_at(hay, needle, j),
        )
    } else {
        None
    }
}

/// What a first occurrence is: an occurrence with none before it; absent exactly when
/// `needle` does not occur.
pub proof fn lemma_first_occurrence(hay: Seq<char>, needle: Seq<char>)
    ensures
        match first_occurrence(hay, needle) {
            Some(i) => occurs_at(hay, needle, i) && forall|j: int|
                0 <= j < i ==> !occurs_at(hay, needle, j),
            None => !contains(hay, needle),
        },
{
    reveal(first_occurrence);
    if contains(hay, needle) {
        let w = choose|w: int| occurs_at(hay, needle, w);
        lemma_least_occurrence_exists(hay, needle, w);
    }
}

proof fn lemma_least_occurrence_exists(hay: Seq<char>, needle: Seq<char>, w: int)
    requires
        occurs_at(hay, needle, w),
    ensures
        exists|i: int|
            occurs_at(hay, needle, i) && forall|j: int| 0 <= j < i ==> !occurs_at(hay, needle, j),
    decreases w,
{
    if exists|j: int| 0 <= j < w && occurs_at(hay, needle, j) {
        let j = choose|j: int| 0 <= j < w && occurs_at(hay, needle, j);
        lemma_least_occurrence_exists(hay, needle, j);
    }
}

proof fn lemma_greatest_occurrence_exists(hay: Seq<char>, needle: Seq<char>, w: int)
    requires
        occurs_at(hay, needle, w),
    ensures
        exists|i: int|
            occurs_at(hay, needle, i) && forall|j: int| i < j <= hay.len() ==> !occurs_at(hay, needle, j),
    decreases hay.len() - w,
{
    if exists|j: int| w < j <= hay.len() && occurs_at(hay, needle, j) {
        let j = choose|j: int| w < j <= hay.len() && occurs_at(hay, needle, j);
        lemma_greatest_occurrence_exists(hay, needle, j);
    }
}

/// What a last occurrence is: an occurrence with none after it; absent exactly when
/// `needle` does not occur.
pub proof fn lemma_last_occurrence(hay: Seq<char>, needle: Seq<char>)
    ensures
        match last_occurrence(hay, needle) {
            Some(i) => occurs_at(hay, needle, i) && forall|j: int|
                i < j <= hay.len() ==> !occurs_at(hay, needle, j),
            None => !contains(hay, needle),
        },
{
    reveal(last_occurrence);
    if contains(hay, needle) {
        let w = choose|w: int| occurs_at(hay, needle, w);
        lemma_greatest_occurrence_exists(hay, needle, w);
    }
}

/// `s` begins with `p`.
pub open spec fn has_prefix(s: Seq<char>, p: Seq<char>) -> bool {
    p.len() <= s.len() && s.subrange(0, p.len() as int) == p
}

/// `s` ends with `p`.
pub open spec fn has_suffix(s: Seq<char>, p: Seq<char>) -> bool {
    p.len() <= s.len() && s.subrange(s.len() - p.len(), s.len() as int) == p
}

/// The character for a digit value below sixteen (lower-case hex letters).
pub open spec fn digit(d: nat) -> char {
    if d == 0 {
        '0'
    } else if d == 1 {
        '1'
    } else if d == 2 {
        '2'
    } else if d == 3 {
        '3'
    } else if d == 4 {
        '4'
    } else if d == 5 {
        '5'
    } else if d == 6 {
        '6'
    } else if d == 7 {
        '7'
    } else if d == 8 {
        '8'
    } else if d == 9 {
        '9'
    } else if d == 10 {
        'a'
    } else if d == 11 {
        'b'
    } else if d == 12 {
        'c'
    } else if d == 13 {
        'd'
    } else if d == 14 {
        'e'
    } else {
        'f'
    }
}

/// The decimal rendering of `n` (what `{}` prints for an unsigned integer).
pub open spec fn decimal(n: nat) -> Seq<char>
    decreases n,
{
    if n < 10 {
        seq![digit(n)]
    } else {
        decimal(n / 10).push(digit(n % 10))
    }
}

/// A decimal digit character.
pub open spec fn is_decimal_digit(c: char) -> bool {
    '0' <= c && c <= '9'
}

/// Every character of a decimal rendering is a decimal digit, and numbers from ten on take
/// at least two characters.
pub proof fn lemma_decimal_digits(n: nat)
    ensures
        decimal(n).len() >= 1,
        n >= 10 ==> decimal(n).len() >= 2,
        forall|i: int| 0 <= i < decimal(n).len() ==> is_decimal_digit(#[trigger] decimal(n)[i]),
    decreases n,
{
    if n >= 10 {
        lemma_decimal_digits(n / 10);
    }
}

/// Distinct numbers have distinct decimal renderings.
pub proof fn lemma_decimal_injective(a: nat, b: nat)
    requires
        decimal(a) == decimal(b),
    ensures
        a == b,
    decreases a,
{
    lemma_decimal_digits(a);
    lemma_decimal_digits(b);
    let da = decimal(a);
    let db = decimal(b);
    if a < 10 && b < 10 {
        assert(da[0] == digit(a));
        assert(db[0] == digit(b));
        lemma_digit_injective(a, b);
    } else if a >= 10 && b >= 10 {
        assert(da.drop_last() == decimal(a / 10));
        assert(db.drop_last() == decimal(b / 10));
        lemma_decimal_injective(a / 10, b / 10);
        assert(da.last() == digit(a % 10));
        assert(db.last() == digit(b % 10));
        lemma_digit_injective(a % 10, b % 10);
    }
}

proof fn lemma_digit_injective(a: nat, b: nat)
    requires
        a < 16,
        b < 16,
        digit(a) == digit(b),
    ensures
        a == b,
{
}

/// The lowest `width` hexadecimal digits of `n`, most significant first, zero padded
/// (what `{:016x}` prints for a `u64` when `width` is 16).
pub open spec fn hex_digits(n: nat, width: nat) -> Seq<char>
    decreases width,
{
    if width == 0 {
        seq![]
    } else {
        hex_digits(n / 16, (width - 1) as nat).push(digit(n % 16))
    }
}

/// Sixteen to the power `w`.
pub open spec fn pow16(w: nat) -> nat
    decreases w,
{
    if w == 0 {
        1
    } else {
        16 * pow16((w - 1) as nat)
    }
}

proof fn lemma_pow16_positive(w: nat)
    ensures
        pow16(w) > 0,
    decreases w,
{
    if w > 0 {
        lemma_pow16_positive((w - 1) as nat);
    }
}

/// Equal renderings in `w` hex digits come from numbers equal modulo `16^w`.
pub proof fn lemma_hex_digits_injective(a: nat, b: nat, w: nat)
    requires
        hex_digits(a, w) == hex_digits(b, w),
    ensures
        a % pow16(w) == b % pow16(w),
    decreases w,
{
    if w > 0 {
        let p = pow16((w - 1) as nat);
        lemma_pow16_positive((w - 1) as nat);
        assert(hex_digits(a, w).drop_last() == hex_digits(a / 16, (w - 1) as nat));
        assert(hex_digits(b, w).drop_last() == hex_digits(b / 16, (w - 1) as nat));
        lemma_hex_digits_injective(a / 16, b / 16, (w - 1) as nat);
        assert(hex_digits(a, w).last() == digit(a % 16));
        assert(hex_digits(b, w).last() == digit(b % 16));
        lemma_digit_injective(a % 16, b % 16);
        vstd::arithmetic::div_mod::lemma_mod_breakdown(a as int, 16, p as int);
        vstd::arithmetic::div_mod::lemma_mod_breakdown(b as int, 16, p as int);
    }
}

/// Sixteen hex digits tell every `u64` apart.
pub proof fn lemma_hex16_injective(a: u64, b: u64)
    requires
        hex_digits(a as nat, 16) == hex_digits(b as nat, 16),
    ensures
        a == b,
{
    lemma_hex_digits_injective(a as nat, b as nat, 16);
    assert(pow16(16) == 0x1_0000_0000_0000_0000nat) by {
        reveal_with_fuel(pow16, 17);
    }
    vstd::arithmetic::div_mod::lemma_small_mod(a as nat, pow16(16));
    vstd::arithmetic::div_mod::lemma_small_mod(b as nat, pow16(16));
}

// ---------------------------------------------------------------------------------------
// Executable helpers
// ---------------------------------------------------------------------------------------

/// Appends one character (`String::push`).
#[verifier::external_body]
pub fn push_char(s: &mut String, c: char)
    ensures
        final(s)@ == old(s)@.push(c),
{
    s.push(c);
}

/// The characters of `s`, in order.
pub fn chars_of(s: &str) -> (v: Vec<char>)
    ensures
        v@ == s@,
{
    let mut v: Vec<char> = Vec::new();
    for c in it: s.chars()
        invariant
            v@ == it.seq().take(it.index() as int),
    {
        v.push(c);
    }
    v
}

/// A string holding exactly the characters `cs`.
pub fn string_of(cs: &[char]) -> (s: String)
    ensures
        s@ == cs@,
{
    let mut s = String::new();
    let n = cs.len();
    for i in 0..n
        invariant
            n == cs@.len(),
            s@ == cs@.take(i as int),
    {
        push_char(&mut s, cs[i]);
        assert(cs@.take(i + 1) == cs@.take(i as int).push(cs@[i as int]));
    }
    assert(cs@.take(n as int) == cs@);
    s
}

/// An owned copy of `s`.
pub fn owned(s: &str) -> (r: String)
    ensures
        r@ == s@,
{
    String::from_str(s)
}

/// `c` is Unicode whitespace (`char::is_whitespace`).
pub fn is_whitespace(c: char) -> (b: bool)
    ensures
        b == is_ws(c),
{
    let u = c as u32;
    (0x09 <= u && u <= 0x0d) || u == 0x20 || u == 0x85 || u == 0xa0 || u == 0x1680 || (0x2000
        <= u && u <= 0x200a) || u == 0x2028 || u == 0x2029 || u == 0x202f || u == 0x205f || u
        == 0x3000
}

proof fn lemma_trim_start_skip(s: Seq<char>, k: int)
    requires
        0 <= k <= s.len(),
        forall|i: int| 0 <= i < k ==> is_ws(#[trigger] s[i]),
    ensures
        trim_start(s) == trim_start(s.subrange(k, s.len() as int)),
    decreases k,
{
    if k > 0 {
        assert(is_ws(s[0]));
        lemma_trim_start_skip(s.drop_first(), k - 1);
        assert(s.drop_first().subrange(k - 1, s.drop_first().len() as int) == s.subrange(
            k,
            s.len() as int,
        ));
    } else {
        assert(s.subrange(0, s.len() as int) == s);
    }
}

proof fn lemma_trim_end_skip(s: Seq<char>, k: int)
    requires
        0 <= k <= s.len(),
        forall|i: int| s.len() - k <= i < s.len() ==> is_ws(#[trigger] s[i]),
    ensures
        trim_end(s) == trim_end(s.subrange(0, s.len() - k)),
    decreases k,
{
    if k > 0 {
        assert(is_ws(s.last()));
        lemma_trim_end_skip(s.drop_last(), k - 1);
        assert(s.drop_last().subrange(0, s.drop_last().len() - (k - 1)) == s.subrange(
            0,
            s.len() - k,
        ));
    } else {
        assert(s.subrange(0, s.len() as int) == s);
    }
}

/// Once whitespace has been skipped the whole way, trimming leaves nothing.
proof fn lemma_trim_start_all_ws(s: Seq<char>)
    requires
        all_ws(s),
    ensures
        trim_start(s).len() == 0,
    decreases s.len(),
{
    if s.len() > 0 {
        assert(is_ws(s[0]));
        assert forall|i: int| 0 <= i < s.drop_first().len() implies is_ws(
            #[trigger] s.drop_first()[i],
        ) by {
            assert(s.drop_first()[i] == s[i + 1]);
        }
        lemma_trim_start_all_ws(s.drop_first());
    }
}

/// Trimming yields nothing exactly when every character is whitespace.
pub proof fn lemma_trim_empty_iff_all_ws(s: Seq<char>)
    ensures
        (trim(s).len() == 0) <==> all_ws(s),
    decreases s.len(),
{
    if s.len() > 0 {
        if is_ws(s[0]) {
            lemma_trim_empty_iff_all_ws(s.drop_first());
            assert(trim(s) == trim(s.drop_first()));
            if all_ws(s.drop_first()) {
                assert forall|i: int| 0 <= i < s.len() implies is_ws(#[trigger] s[i]) by {
                    if i > 0 {
                        assert(s[i] == s.drop_first()[i - 1]);
                    }
                }
            }
            if all_ws(s) {
                assert forall|i: int| 0 <= i < s.drop_first().len() implies is_ws(
                    #[trigger] s.drop_first()[i],
                ) by {
                    assert(s.drop_first()[i] == s[i + 1]);
                }
            }
        } else {
            assert(trim_start(s) == s);
            lemma_trim_end_keeps_first(s);
        }
    }
}

/// A string whose first character is not whitespace keeps that character when its end is
/// trimmed.
proof fn lemma_trim_end_keeps_first(s: Seq<char>)
    requires
        s.len() > 0,
        !is_ws(s[0]),
    ensures
        trim_end(s).len() > 0,
        trim_end(s)[0] == s[0],
    decreases s.len(),
{
    if is_ws(s.last()) {
        assert(s.len() > 1);
        assert(s.drop_last()[0] == s[0]);
        lemma_trim_end_keeps_first(s.drop_last());
    }
}

/// `s` with leading and trailing whitespace removed (`str::trim`).
pub fn trim_str(s: &str) -> (r: String)
    ensures
        r@ == trim(s@),
{
    let cs = chars_of(s);
    let n = cs.len();
    let mut lo: usize = 0;
    while lo < n && is_whitespace(cs[lo])
        invariant
            n == cs@.len(),
            cs@ == s@,
            lo <= n,
            forall|i: int| 0 <= i < lo ==> is_ws(#[trigger] cs@[i]),
        decreases n - lo,
    {
        lo = lo + 1;
    }
    proof {
        lemma_trim_start_skip(s@, lo as int);
    }
    let ghost rest = s@.subrange(lo as int, n as int);
    assert(lo < n ==> !is_ws(rest[0]));
    assert(trim_start(rest) == rest) by {
        if rest.len() > 0 {
            assert(!is_ws(rest[0]));
        }
    }
    let mut hi: usize = n;
    while hi > lo && is_whitespace(cs[hi - 1])
        invariant
            n == cs@.len(),
            cs@ == s@,
            lo <= hi <= n,
            rest == s@.subrange(lo as int, n as int),
            forall|i: int| hi <= i < n ==> is_ws(#[trigger] cs@[i]),
        decreases hi - lo,
    {
        hi = hi - 1;
    }
    proof {
        assert forall|i: int| rest.len() - (n - hi) <= i < rest.len() implies is_ws(
            #[trigger] rest[i],
        ) by {
            assert(rest[i] == cs@[lo + i]);
        }
        lemma_trim_end_skip(rest, (n - hi) as int);
        let kept = rest.subrange(0, rest.len() - (n - hi));
        assert(kept.len() > 0 ==> !is_ws(kept.last())) by {
            if kept.len() > 0 {
                assert(kept.last() == cs@[hi - 1]);
            }
        }
        assert(trim_end(kept) == kept) by {
            if kept.len() > 0 {
                assert(!is_ws(kept.last()));
            }
        }
        assert(kept == cs@.subrange(lo as int, hi as int));
    }
    let mut out = String::new();
    let mut i = lo;
    while i < hi
        invariant
            n == cs@.len(),
            lo <= i <= hi <= n,
            out@ == cs@.subrange(lo as int, i as int),
        decreases hi - i,
    {
        push_char(&mut out, cs[i]);
        assert(cs@.subrange(lo as int, i + 1) == cs@.subrange(lo as int, i as int).push(
            cs@[i as int],
        ));
        i = i + 1;
    }
    out
}

/// Every character of `s` is whitespace (`s.trim().is_empty()`).
pub fn is_blank(s: &str) -> (b: bool)
    ensures
        b == all_ws(s@),
        b == (trim(s@).len() == 0),
{
    proof {
        lemma_trim_empty_iff_all_ws(s@);
    }
    let cs = chars_of(s);
    let n = cs.len();
    for i in 0..n
        invariant
            n == cs@.len(),
            cs@ == s@,
            forall|j: int| 0 <= j < i ==> is_ws(#[trigger] cs@[j]),
    {
        if !is_whitespace(cs[i]) {
            assert(!is_ws(s@[i as int]));
            proof {
                lemma_trim_empty_iff_all_ws(s@);
            }
            return false;
        }
    }
    true
}

/// `a` and `b` hold the same characters.
pub fn same_text(a: &str, b: &str) -> (r: bool)
    ensures
        r == (a@ == b@),
{
    let x = chars_of(a);
    let y = chars_of(b);
    if x.len() != y.len() {
        return false;
    }
    let n = x.len();
    for i in 0..n
        invariant
            n == x@.len(),
            n == y@.len(),
            x@ == a@,
            y@ == b@,
            forall|j: int| 0 <= j < i ==> x@[j] == y@[j],
    {
        if x[i] != y[i] {
            return false;
        }
    }
    assert(x@ == y@);
    true
}

/// `a` sorts strictly before `b`: the order of `String`, character by character, a proper
/// prefix first.
pub open spec fn text_lt(a: Seq<char>, b: Seq<char>) -> bool
    decreases a.len(),
{
    if a.len() == 0 {
        b.len() > 0
    } else if b.len() == 0 {
        false
    } else if a[0] != b[0] {
        a[0] < b[0]
    } else {
        text_lt(a.drop_first(), b.drop_first())
    }
}

/// The order on text is strict and total: nothing sorts before itself, and of two different
/// texts exactly one sorts first.
pub proof fn lemma_text_lt_strict_total(a: Seq<char>, b: Seq<char>)
    ensures
        !text_lt(a, a),
        a != b ==> (text_lt(a, b) != text_lt(b, a)),
        a == b ==> !text_lt(a, b),
    decreases a.len(),
{
    if a.len() > 0 {
        lemma_text_lt_strict_total(a.drop_first(), a.drop_first());
        if b.len() > 0 {
            lemma_text_lt_strict_total(a.drop_first(), b.drop_first());
            if a != b && a[0] == b[0] {
                assert(a.drop_first() != b.drop_first()) by {
                    if a.drop_first() == b.drop_first() {
                        assert(a =~= seq![a[0]] + a.drop_first());
                        assert(b =~= seq![b[0]] + b.drop_first());
                    }
                }
            }
        }
    } else if b.len() == 0 {
        assert(a =~= b);
    }
}

/// The order on text is transitive.
pub proof fn lemma_text_lt_transitive(a: Seq<char>, b: Seq<char>, c: Seq<char>)
    requires
        text_lt(a, b),
        text_lt(b, c),
    ensures
        text_lt(a, c),
    decreases a.len(),
{
    if a.len() > 0 && b.len() > 0 && c.len() > 0 && a[0] == b[0] && b[0] == c[0] {
        lemma_text_lt_transitive(a.drop_first(), b.drop_first(), c.drop_first());
    }
}

proof fn lemma_text_lt_skip(a: Seq<char>, b: Seq<char>, i: int)
    requires
        0 <= i <= a.len(),
        i <= b.len(),
        a.take(i) == b.take(i),
    ensures
        text_lt(a, b) == text_lt(a.skip(i), b.skip(i)),
    decreases i,
{
    if i > 0 {
        assert(a[0] == a.take(i)[0] && b[0] == b.take(i)[0]);
        assert(a.drop_first().take(i - 1) =~= a.take(i).drop_first());
        assert(b.drop_first().take(i - 1) =~= b.take(i).drop_first());
        lemma_text_lt_skip(a.drop_first(), b.drop_first(), i - 1);
        assert(a.drop_first().skip(i - 1) =~= a.skip(i));
        assert(b.drop_first().skip(i - 1) =~= b.skip(i));
    } else {
        assert(a.skip(0) =~= a);
        assert(b.skip(0) =~= b);
    }
}

/// `a` sorts strictly before `b` (`a < b` on strings).
pub fn text_less(a: &str, b: &str) -> (r: bool)
    ensures
        r == text_lt(a@, b@),
{
    let x = chars_of(a);
    let y = chars_of(b);
    let n = if x.len() < y.len() {
        x.len()
    } else {
        y.len()
    };
    for i in 0..n
        invariant
            n <= x@.len(),
            n <= y@.len(),
            x@ == a@,
            y@ == b@,
            x@.take(i as int) == y@.take(i as int),
    {
        if x[i] != y[i] {
            proof {
                lemma_text_lt_skip(x@, y@, i as int);
                assert(x@.skip(i as int)[0] == x@[i as int]);
                assert(y@.skip(i as int)[0] == y@[i as int]);
            }
            return x[i] < y[i];
        }
        assert(x@.take(i + 1) =~= x@.take(i as int).push(x@[i as int]));
        assert(y@.take(i + 1) =~= y@.take(i as int).push(y@[i as int]));
    }
    proof {
        lemma_text_lt_skip(x@, y@, n as int);
    }
    x.len() < y.len()
}

/// `needle` occurs in `hay` at position `i` (executable check over character vectors).
fn matches_at(hay: &Vec<char>, needle: &Vec<char>, i: usize) -> (r: bool)
    ensures
        r == occurs_at(hay@, needle@, i as int),
{
    if needle.len() > hay.len() || i > hay.len() - needle.len() {
        return false;
    }
    let m = needle.len();
    for k in 0..m
        invariant
            m == needle@.len(),
            i + m <= hay@.len(),
            hay@.len() == hay.len(),
            forall|j: int| 0 <= j < k ==> hay@[i + j] == needle@[j],
    {
        if hay[i + k] != needle[k] {
            assert(hay@.subrange(i as int, i + m)[k as int] != needle@[k as int]);
            return false;
        }
    }
    assert(hay@.subrange(i as int, i + m) == needle@);
    true
}

/// The position of the first occurrence of `needle` in `hay` (`str::find`, counted in
/// characters).
pub fn find_first(hay: &Vec<char>, needle: &Vec<char>) -> (r: Option<usize>)
    ensures
        match r {
            Some(i) => first_occurrence(hay@, needle@) == Some(i as int),
            None => first_occurrence(hay@, needle@) is None,
        },
{
    reveal(first_occurrence);
    if needle.len() > hay.len() {
        assert(!contains(hay@, needle@));
        return None;
    }
    if needle.len() == 0 {
        assert(occurs_at(hay@, needle@, 0)) by {
            assert(hay@.subrange(0, 0) == needle@);
        }
        proof {
            let w = choose|w: int|
                occurs_at(hay@, needle@, w) && forall|j: int|
                    0 <= j < w ==> !occurs_at(hay@, needle@, j);
            assert(w == 0);
        }
        return Some(0);
    }
    let last = hay.len() - needle.len();
    let mut i: usize = 0;
    while i <= last
        invariant
            last == hay@.len() - needle@.len(),
            needle@.len() > 0,
            hay@.len() == hay.len(),
            forall|j: int| 0 <= j < i ==> !occurs_at(hay@, needle@, j),
        decreases last + 1 - i,
    {
        if matches_at(hay, needle, i) {
            proof {
                reveal(first_occurrence);
                let w = choose|w: int|
                    occurs_at(hay@, needle@, w) && forall|j: int|
                        0 <= j < w ==> !occurs_at(hay@, needle@, j);
                assert(occurs_at(hay@, needle@, i as int) && forall|j: int|
                    0 <= j < i ==> !occurs_at(hay@, needle@, j));
                if w < i {
                } else if w > i {
                }
                assert(w == i);
            }
            return Some(i);
        }
        i = i + 1;
    }
    assert(!contains(hay@, needle@)) by {
        assert forall|j: int| !occurs_at(hay@, needle@, j) by {
            if 0 <= j && j + needle@.len() <= hay@.len() {
                assert(j < i);
            }
        }
    }
    None
}

/// The position of the last occurrence of `needle` in `hay` (`str::rfind`, counted in
/// characters).
pub fn find_last(hay: &Vec<char>, needle: &Vec<char>) -> (r: Option<usize>)
    ensures
        match r {
            Some(i) => last_occurrence(hay@, needle@) == Some(i as int),
            None => last_occurrence(hay@, needle@) is None,
        },
{
    reveal(last_occurrence);
    if needle.len() > hay.len() {
        assert(!contains(hay@, needle@));
        return None;
    }
    if needle.len() == 0 {
        let n = hay.len();
        assert(occurs_at(hay@, needle@, n as int)) by {
            assert(hay@.subrange(n as int, n as int) == needle@);
        }
        proof {
            let w = choose|w: int|
                occurs_at(hay@, needle@, w) && forall|j: int|
                    w < j <= hay@.len() ==> !occurs_at(hay@, needle@, j);
            assert(w == n);
        }
        return Some(n);
    }
    let mut i: usize = hay.len() - needle.len() + 1;
    while i > 0
        invariant
            i <= hay@.len() - needle@.len() + 1,
            forall|j: int| i <= j <= hay@.len() ==> !occurs_at(hay@, needle@, j),
        decreases i,
    {
        if matches_at(hay, needle, i - 1) {
            proof {
                reveal(last_occurrence);
                let k = (i - 1) as int;
                let w = choose|w: int|
                    occurs_at(hay@, needle@, w) && forall|j: int|
                        w < j <= hay@.len() ==> !occurs_at(hay@, needle@, j);
                assert(occurs_at(hay@, needle@, k) && forall|j: int|
                    k < j <= hay@.len() ==> !occurs_at(hay@, needle@, j));
                if w < k {
                } else if w > k {
                }
                assert(w == k);
            }
            return Some(i - 1);
        }
        i = i - 1;
    }
    assert(!contains(hay@, needle@)) by {
        assert forall|j: int| !occurs_at(hay@, needle@, j) by {
            if 0 <= j && j + needle@.len() <= hay@.len() {
                assert(i <= j);
            }
        }
    }
    None
}

/// `s` begins with `p` (`str::starts_with`).
pub fn starts_with(s: &str, p: &str) -> (r: bool)
    ensures
        r == has_prefix(s@, p@),
{
    let x = chars_of(s);
    let y = chars_of(p);
    if y.len() > x.len() {
        return false;
    }
    let r = matches_at(&x, &y, 0);
    r
}

/// `s` ends with `p` (`str::ends_with`).
pub fn ends_with(s: &str, p: &str) -> (r: bool)
    ensures
        r == has_suffix(s@, p@),
{
    let x = chars_of(s);
    let y = chars_of(p);
    if y.len() > x.len() {
        return false;
    }
    let r = matches_at(&x, &y, x.len() - y.len());
    r
}

fn digit_char(d: u64) -> (c: char)
    requires
        d < 16,
    ensures
        c == digit(d as nat),
{
    if d == 0 {
        '0'
    } else if d == 1 {
        '1'
    } else if d == 2 {
        '2'
    } else if d == 3 {
        '3'
    } else if d == 4 {
        '4'
    } else if d == 5 {
        '5'
    } else if d == 6 {
        '6'
    } else if d == 7 {
        '7'
    } else if d == 8 {
        '8'
    } else if d == 9 {
        '9'
    } else if d == 10 {
        'a'
    } else if d == 11 {
        'b'
    } else if d == 12 {
        'c'
    } else if d == 13 {
        'd'
    } else if d == 14 {
        'e'
    } else {
        'f'
    }
}

/// Appends the decimal rendering of `n` to `s`.
pub fn push_decimal(s: &mut String, n: u64)
    ensures
        final(s)@ == old(s)@ + decimal(n as nat),
    decreases n,
{
    if n >= 10 {
        push_decimal(s, n / 10);
        push_char(s, digit_char(n % 10));
        assert(old(s)@ + decimal(n as nat) == old(s)@ + decimal((n / 10) as nat) + seq![
            digit((n % 10) as nat),
        ]);
    } else {
        push_char(s, digit_char(n));
        assert(old(s)@.push(digit(n as nat)) == old(s)@ + seq![digit(n as nat)]);
    }
}

/// Appends the lowest `width` hex digits of `n`, zero padded.
pub fn push_hex(s: &mut String, n: u64, width: u32)
    ensures
        final(s)@ == old(s)@ + hex_digits(n as nat, width as nat),
    decreases width,
{
    if width > 0 {
        push_hex(s, n / 16, width - 1);
        push_char(s, digit_char(n % 16));
        assert(hex_digits(n as nat, width as nat) == hex_digits(
            (n / 16) as nat,
            (width - 1) as nat,
        ).push(digit((n % 16) as nat)));
    } else {
        assert(old(s)@ + hex_digits(n as nat, 0) == old(s)@);
    }
}

} // verus!
