//! Character-level text helpers: searching, splitting and trimming over `Seq<char>`.
use vstd::prelude::*;

verus! {

/// `p` occurs in `s` starting at position `i`.
pub open spec fn occurs_at(s: Seq<char>, p: Seq<char>, i: int) -> bool {
    0 <= i && i + p.len() <= s.len() && s.subrange(i, i + p.len()) == p
}

/// The first position at or after `i` where `p` occurs in `s`.
pub open spec fn find_from(s: Seq<char>, p: Seq<char>, i: int) -> Option<int>
    decreases s.len() + 1 - i,
{
    if i + p.len() > s.len() {
        None
    } else if s.subrange(i, i + p.len()) == p {
        Some(i)
    } else {
        find_from(s, p, i + 1)
    }
}

/// The first position where `p` occurs in `s`.
pub open spec fn find(s: Seq<char>, p: Seq<char>) -> Option<int> {
    find_from(s, p, 0)
}

/// `p` is a substring of `s`.
pub open spec fn contains(s: Seq<char>, p: Seq<char>) -> bool {
    find(s, p) is Some
}

/// What `find_from` returns is the first real occurrence at or after `i`.
pub proof fn lemma_find_from_occurs(s: Seq<char>, p: Seq<char>, i: int)
    requires
        0 <= i,
    ensures
        find_from(s, p, i) matches Some(k) ==> i <= k && occurs_at(s, p, k) && forall|j: int|
            i <= j < k ==> !occurs_at(s, p, j),
        find_from(s, p, i) is None ==> forall|k: int| i <= k ==> !occurs_at(s, p, k),
    decreases s.len() + 1 - i,
{
    if i + p.len() > s.len() {
    } else if s.subrange(i, i + p.len()) == p {
    } else {
        lemma_find_from_occurs(s, p, i + 1);
    }
}

/// `c` is a white-space character (the Unicode `White_Space` property).
pub open spec fn is_space(c: char) -> bool {
    ||| c == ' ' || ('\t' <= c && c <= '\r')
    ||| c == '\u{85}' || c == '\u{a0}' || c == '\u{1680}'
    ||| ('\u{2000}' <= c && c <= '\u{200a}')
    ||| c == '\u{2028}' || c == '\u{2029}' || c == '\u{202f}' || c == '\u{205f}'
    ||| c == '\u{3000}'
}

/// The end of `s[..j]` once trailing white space is dropped.
pub open spec fn trim_end_index(s: Seq<char>, j: int) -> int
    decreases j,
{
    if 0 < j <= s.len() && is_space(s[j - 1]) {
        trim_end_index(s, j - 1)
    } else {
        j
    }
}

/// The start of `s[i..e]` once leading white space is dropped.
pub open spec fn trim_start_index(s: Seq<char>, i: int, e: int) -> int
    decreases e - i,
{
    if 0 <= i < e && is_space(s[i]) {
        trim_start_index(s, i + 1, e)
    } else {
        i
    }
}

/// `s` without white space at either end.
pub open spec fn trim(s: Seq<char>) -> Seq<char> {
    let e = trim_end_index(s, s.len() as int);
    s.subrange(trim_start_index(s, 0, e), e)
}

proof fn lemma_trim_end_index(s: Seq<char>, j: int)
    requires
        0 <= j <= s.len(),
    ensures
        0 <= trim_end_index(s, j) <= j,
    decreases j,
{
    if 0 < j && is_space(s[j - 1]) {
        lemma_trim_end_index(s, j - 1);
    }
}

proof fn lemma_trim_start_index(s: Seq<char>, i: int, e: int)
    requires
        0 <= i <= e <= s.len(),
    ensures
        i <= trim_start_index(s, i, e) <= e,
    decreases e - i,
{
    if i < e && is_space(s[i]) {
        lemma_trim_start_index(s, i + 1, e);
    }
}

/// `c` is a white-space character.
pub fn is_space_char(c: char) -> (r: bool)
    ensures
        r == is_space(c),
{
    c == ' ' || ('\t' <= c && c <= '\r') || c == '\u{85}' || c == '\u{a0}' || c == '\u{1680}'
        || ('\u{2000}' <= c && c <= '\u{200a}') || c == '\u{2028}' || c == '\u{2029}' || c
        == '\u{202f}' || c == '\u{205f}' || c == '\u{3000}'
}

/// `s` without white space at either end.
pub fn trim_chars(s: &Vec<char>) -> (r: Vec<char>)
    ensures
        r@ == trim(s@),
{
    let mut e: usize = s.len();
    while e > 0 && is_space_char(s[e - 1])
        invariant
            e <= s@.len(),
            trim_end_index(s@, s@.len() as int) == trim_end_index(s@, e as int),
        decreases e,
    {
        e = e - 1;
    }
    let mut b: usize = 0;
    while b < e && is_space_char(s[b])
        invariant
            b <= e <= s@.len(),
            e == trim_end_index(s@, s@.len() as int),
            trim_start_index(s@, 0, e as int) == trim_start_index(s@, b as int, e as int),
        decreases e - b,
    {
        b = b + 1;
    }
    sub_chars(s, b, e)
}

/// `s` with every trailing repetition of `suffix` removed.
pub open spec fn trim_end_all(s: Seq<char>, suffix: Seq<char>) -> Seq<char>
    decreases s.len(),
{
    if suffix.len() > 0 && suffix.len() <= s.len() && s.subrange(
        s.len() - suffix.len(),
        s.len() as int,
    ) == suffix {
        trim_end_all(s.subrange(0, s.len() - suffix.len()), suffix)
    } else {
        s
    }
}

/// The characters of `s`, in order.
pub(crate) fn chars_of(s: &str) -> (r: Vec<char>)
    ensures
        r@ == s@,
{
    let mut v: Vec<char> = Vec::new();
    for c in it: s.chars()
        invariant
            v.len() == it.index(),
            forall|i: int| 0 <= i < v.len() ==> v@[i] == it.seq()[i],
    {
        v.push(c);
    }
    assert(v@ =~= s@);
    v
}

/// Relies on `Iterator::collect` into a `String`: the string made of `v`, in order.
#[verifier::external_body]
pub(crate) fn string_of(v: &[char]) -> (r: String)
    ensures
        r@ == v@,
{
    v.iter().collect()
}

/// A copy of `v[lo..hi]`.
pub fn sub_chars(v: &Vec<char>, lo: usize, hi: usize) -> (r: Vec<char>)
    requires
        lo <= hi <= v@.len(),
    ensures
        r@ == v@.subrange(lo as int, hi as int),
{
    let mut r: Vec<char> = Vec::new();
    let mut i: usize = lo;
    while i < hi
        invariant
            lo <= i <= hi <= v@.len(),
            r@ == v@.subrange(lo as int, i as int),
        decreases hi - i,
    {
        r.push(v[i]);
        i = i + 1;
        assert(r@ =~= v@.subrange(lo as int, i as int));
    }
    r
}

/// `p` occurs in `s` at position `i`.
pub fn matches_at(s: &Vec<char>, p: &Vec<char>, i: usize) -> (r: bool)
    requires
        i + p@.len() <= s@.len(),
    ensures
        r == (s@.subrange(i as int, i + p@.len()) == p@),
{
    let n = s.len();
    let mut j: usize = 0;
    while j < p.len()
        invariant
            n == s@.len(),
            i + p@.len() <= s@.len(),
            j <= p@.len(),
            forall|k: int| 0 <= k < j ==> s@[i + k] == p@[k],
        decreases p@.len() - j,
    {
        if s[i + j] != p[j] {
            assert(s@.subrange(i as int, i + p@.len())[j as int] != p@[j as int]);
            return false;
        }
        j = j + 1;
    }
    assert(s@.subrange(i as int, i + p@.len()) =~= p@);
    true
}

/// The first position at or after `from` where `p` occurs in `s`.
pub fn find_chars_from(s: &Vec<char>, p: &Vec<char>, from: usize) -> (r: Option<usize>)
    requires
        from <= s@.len(),
    ensures
        r matches Some(k) ==> find_from(s@, p@, from as int) == Some(k as int),
        r is None ==> find_from(s@, p@, from as int) is None,
{
    if p.len() > s.len() {
        return None;
    }
    let last = s.len() - p.len();
    let mut i: usize = from;
    while i <= last
        invariant
            last == s@.len() - p@.len(),
            from <= i,
            find_from(s@, p@, from as int) == find_from(s@, p@, i as int),
        decreases last + 1 - i,
    {
        if matches_at(s, p, i) {
            return Some(i);
        }
        if i == last {
            assert(find_from(s@, p@, i + 1) is None);
            return None;
        }
        i = i + 1;
    }
    None
}

/// The first position where `p` occurs in `s`.
pub fn find_chars(s: &Vec<char>, p: &Vec<char>) -> (r: Option<usize>)
    ensures
        r matches Some(k) ==> find(s@, p@) == Some(k as int),
        r is None ==> find(s@, p@) is None,
{
    find_chars_from(s, p, 0)
}

/// `p` is a substring of `s`.
pub fn contains_chars(s: &Vec<char>, p: &Vec<char>) -> (r: bool)
    ensures
        r == contains(s@, p@),
{
    find_chars(s, p).is_some()
}

/// The text of `s` after the first occurrence of `m`, up to its next occurrence
/// (the second piece when `s` is split at `m`).
pub open spec fn second_piece(s: Seq<char>, m: Seq<char>) -> Option<Seq<char>> {
    match find(s, m) {
        None => None,
        Some(i) => {
            let t = s.subrange(i + m.len(), s.len() as int);
            match find(t, m) {
                Some(j) => Some(t.subrange(0, j)),
                None => Some(t),
            }
        },
    }
}

/// The text of `s` before the first occurrence of `m` (the first piece when split at `m`).
pub open spec fn first_piece(s: Seq<char>, m: Seq<char>) -> Seq<char> {
    match find(s, m) {
        Some(i) => s.subrange(0, i),
        None => s,
    }
}

/// The second piece of `s` split at the non-empty `m`.
pub fn second_piece_chars(s: &Vec<char>, m: &Vec<char>) -> (r: Option<Vec<char>>)
    requires
        m@.len() > 0,
    ensures
        r matches Some(v) ==> second_piece(s@, m@) == Some(v@),
        r is None ==> second_piece(s@, m@) is None,
{
    match find_chars(s, m) {
        None => None,
        Some(i) => {
            proof {
                lemma_find_from_occurs(s@, m@, 0);
            }
            let n = s.len();
            let start = i + m.len();
            let t = sub_chars(s, start, n);
            Some(first_piece_chars(&t, m))
        },
    }
}

/// The first piece of `s` split at `m`.
pub fn first_piece_chars(s: &Vec<char>, m: &Vec<char>) -> (r: Vec<char>)
    ensures
        r@ == first_piece(s@, m@),
{
    match find_chars(s, m) {
        None => sub_chars(s, 0, s.len()),
        Some(j) => {
            proof {
                lemma_find_from_occurs(s@, m@, 0);
            }
            sub_chars(s, 0, j)
        },
    }
}

/// `s` with every trailing repetition of `suffix` removed.
pub fn trim_end_all_chars(s: &Vec<char>, suffix: &Vec<char>) -> (r: Vec<char>)
    ensures
        r@ == trim_end_all(s@, suffix@),
{
    let mut cur = sub_chars(s, 0, s.len());
    assert(cur@ =~= s@);
    loop
        invariant
            trim_end_all(s@, suffix@) == trim_end_all(cur@, suffix@),
        decreases cur@.len(),
    {
        let n = cur.len();
        let k = suffix.len();
        if k > 0 && k <= n && matches_at(&cur, suffix, n - k) {
            cur = sub_chars(&cur, 0, n - k);
        } else {
            return cur;
        }
    }
}

/// Whether `c` is an ASCII decimal digit.
pub open spec fn is_digit(c: char) -> bool {
    '0' <= c && c <= '9'
}

/// The value of a string of decimal digits.
pub open spec fn digits_value(s: Seq<char>) -> nat
    decreases s.len(),
{
    if s.len() == 0 {
        0
    } else {
        10 * digits_value(s.drop_last()) + ((s.last() as u32) - ('0' as u32)) as nat
    }
}

/// `s` without a leading `+`.
pub open spec fn unsigned_part(s: Seq<char>) -> Seq<char> {
    if s.len() > 0 && s[0] == '+' {
        s.drop_first()
    } else {
        s
    }
}

/// One or more decimal digits whose value fits in a `u32`.
pub open spec fn parse_digits(d: Seq<char>) -> Option<u32> {
    if d.len() > 0 && (forall|i: int| 0 <= i < d.len() ==> is_digit(#[trigger] d[i]))
        && digits_value(d) <= u32::MAX {
        Some(digits_value(d) as u32)
    } else {
        None
    }
}

/// What parsing `s` as a `u32` gives: an optional `+`, then one or more
/// decimal digits whose value fits.
pub open spec fn parse_u32(s: Seq<char>) -> Option<u32> {
    parse_digits(unsigned_part(s))
}

/// Parse `s` as a decimal `u32`.
pub fn parse_u32_chars(s: &Vec<char>) -> (r: Option<u32>)
    ensures
        r == parse_u32(s@),
{
    let start: usize = if s.len() > 0 && s[0] == '+' {
        1
    } else {
        0
    };
    let ghost d = unsigned_part(s@);
    assert(d =~= s@.subrange(start as int, s@.len() as int));
    if start >= s.len() {
        return None;
    }
    let mut value: u64 = 0;
    let mut i: usize = start;
    while i < s.len()
        invariant
            start <= i <= s@.len(),
            d == unsigned_part(s@),
            d == s@.subrange(start as int, s@.len() as int),
            forall|j: int| start <= j < i ==> is_digit(#[trigger] s@[j]),
            value == digits_value(s@.subrange(start as int, i as int)),
            value <= u32::MAX,
        decreases s@.len() - i,
    {
        let c = s[i];
        if !('0' <= c && c <= '9') {
            assert(!is_digit(d[i - start]));
            assert(!(forall|j: int| 0 <= j < d.len() ==> is_digit(#[trigger] d[j])));
            return None;
        }
        assert(s@.subrange(start as int, i + 1).drop_last() =~= s@.subrange(start as int, i as int));
        let next = value * 10 + (c as u64 - '0' as u64);
        if next > u32::MAX as u64 {
            proof {
                if forall|j: int| 0 <= j < d.len() ==> is_digit(#[trigger] d[j]) {
                    assert forall|j: int| i + 1 <= j < s@.len() implies is_digit(#[trigger] s@[j]) by {
                        assert(d[j - start] == s@[j]);
                    }
                    lemma_digits_mono(s@, start as int, i as int + 1, s@.len() as int);
                }
            }
            return None;
        }
        value = next;
        i = i + 1;
    }
    assert(s@.subrange(start as int, s@.len() as int) =~= d);
    Some(value as u32)
}

proof fn lemma_digits_mono(s: Seq<char>, start: int, i: int, k: int)
    requires
        0 <= start <= i <= k <= s.len(),
        forall|j: int| i <= j < k ==> is_digit(#[trigger] s[j]),
    ensures
        digits_value(s.subrange(start, k)) >= digits_value(s.subrange(start, i)),
    decreases k - i,
{
    if k > i {
        lemma_digits_mono(s, start, i, k - 1);
        assert(s.subrange(start, k).drop_last() =~= s.subrange(start, k - 1));
    }
}

/// `find_from` gives the first occurrence at or after `i`.
pub proof fn lemma_find_from_is(s: Seq<char>, p: Seq<char>, i: int, k: int)
    requires
        0 <= i <= k,
        occurs_at(s, p, k),
        forall|j: int| i <= j < k ==> !occurs_at(s, p, j),
    ensures
        find_from(s, p, i) == Some(k),
    decreases k - i,
{
    if i < k {
        assert(!occurs_at(s, p, i));
        lemma_find_from_is(s, p, i + 1, k);
    }
}

/// `find_from` finds nothing where nothing occurs.
pub proof fn lemma_find_from_none(s: Seq<char>, p: Seq<char>, i: int)
    requires
        0 <= i,
        forall|j: int| i <= j ==> !occurs_at(s, p, j),
    ensures
        find_from(s, p, i) is None,
    decreases s.len() + 1 - i,
{
    if i + p.len() <= s.len() {
        assert(!occurs_at(s, p, i));
        lemma_find_from_none(s, p, i + 1);
    }
}

/// Every occurrence of `p` in `s` holds `p`'s characters.
pub proof fn lemma_occurs_char(s: Seq<char>, p: Seq<char>, k: int, j: int)
    requires
        occurs_at(s, p, k),
        0 <= j < p.len(),
    ensures
        s[k + j] == p[j],
{
    assert(s.subrange(k, k + p.len())[j] == p[j]);
}

/// Trimming a suffix that is there once, from text that does not end in it.
pub proof fn lemma_trim_end_once(x: Seq<char>, suffix: Seq<char>)
    requires
        suffix.len() > 0,
        !(suffix.len() <= x.len() && x.subrange(x.len() - suffix.len(), x.len() as int) == suffix),
    ensures
        trim_end_all(x + suffix, suffix) == x,
        trim_end_all(x, suffix) == x,
{
    let y = x + suffix;
    assert(y.subrange(y.len() - suffix.len(), y.len() as int) =~= suffix);
    assert(y.subrange(0, y.len() - suffix.len()) =~= x);
    assert(trim_end_all(x, suffix) == x);
    assert(trim_end_all(y, suffix) == trim_end_all(y.subrange(0, y.len() - suffix.len()), suffix));
}

} // verus!
