//! Character-level text utilities with exact specifications: ASCII case
//! folding, substring search, and whitespace trimming.  Provider ids and
//! keyword sets are ASCII, so case folding is defined on the ASCII letters
//! and leaves every other character unchanged.

use vstd::prelude::*;
use vstd::string::StrSliceExecFns;

verus! {

/// ASCII lower-casing of one character.
pub open spec fn lower_char(c: char) -> char {
    match c {
        'A' => 'a',
        'B' => 'b',
        'C' => 'c',
        'D' => 'd',
        'E' => 'e',
        'F' => 'f',
        'G' => 'g',
        'H' => 'h',
        'I' => 'i',
        'J' => 'j',
        'K' => 'k',
        'L' => 'l',
        'M' => 'm',
        'N' => 'n',
        'O' => 'o',
        'P' => 'p',
        'Q' => 'q',
        'R' => 'r',
        'S' => 's',
        'T' => 't',
        'U' => 'u',
        'V' => 'v',
        'W' => 'w',
        'X' => 'x',
        'Y' => 'y',
        'Z' => 'z',
        _ => c,
    }
}

/// ASCII upper-casing of one character.
pub open spec fn upper_char(c: char) -> char {
    match c {
        'a' => 'A',
        'b' => 'B',
        'c' => 'C',
        'd' => 'D',
        'e' => 'E',
        'f' => 'F',
        'g' => 'G',
        'h' => 'H',
        'i' => 'I',
        'j' => 'J',
        'k' => 'K',
        'l' => 'L',
        'm' => 'M',
        'n' => 'N',
        'o' => 'O',
        'p' => 'P',
        'q' => 'Q',
        'r' => 'R',
        's' => 'S',
        't' => 'T',
        'u' => 'U',
        'v' => 'V',
        'w' => 'W',
        'x' => 'X',
        'y' => 'Y',
        'z' => 'Z',
        _ => c,
    }
}

/// The whitespace characters recognized by trimming and word splitting.
pub open spec fn is_space_char(c: char) -> bool {
    c == ' ' || c == '\t' || c == '\n' || c == '\r' || c == '\u{b}' || c == '\u{c}'
}

/// The ASCII decimal digits.
pub open spec fn is_digit_char(c: char) -> bool {
    c == '0' || c == '1' || c == '2' || c == '3' || c == '4' || c == '5' || c == '6' || c == '7'
        || c == '8' || c == '9'
}

/// ASCII lower-casing of a character sequence.
pub open spec fn lower_seq(s: Seq<char>) -> Seq<char> {
    s.map_values(|c: char| lower_char(c))
}

/// ASCII upper-casing of a character sequence.
pub open spec fn upper_seq(s: Seq<char>) -> Seq<char> {
    s.map_values(|c: char| upper_char(c))
}

pub fn lower_char_exec(c: char) -> (r: char)
    ensures
        r == lower_char(c),
{
    match c {
        'A' => 'a',
        'B' => 'b',
        'C' => 'c',
        'D' => 'd',
        'E' => 'e',
        'F' => 'f',
        'G' => 'g',
        'H' => 'h',
        'I' => 'i',
        'J' => 'j',
        'K' => 'k',
        'L' => 'l',
        'M' => 'm',
        'N' => 'n',
        'O' => 'o',
        'P' => 'p',
        'Q' => 'q',
        'R' => 'r',
        'S' => 's',
        'T' => 't',
        'U' => 'u',
        'V' => 'v',
        'W' => 'w',
        'X' => 'x',
        'Y' => 'y',
        'Z' => 'z',
        _ => c,
    }
}

pub fn upper_char_exec(c: char) -> (r: char)
    ensures
        r == upper_char(c),
{
    match c {
        'a' => 'A',
        'b' => 'B',
        'c' => 'C',
        'd' => 'D',
        'e' => 'E',
        'f' => 'F',
        'g' => 'G',
        'h' => 'H',
        'i' => 'I',
        'j' => 'J',
        'k' => 'K',
        'l' => 'L',
        'm' => 'M',
        'n' => 'N',
        'o' => 'O',
        'p' => 'P',
        'q' => 'Q',
        'r' => 'R',
        's' => 'S',
        't' => 'T',
        'u' => 'U',
        'v' => 'V',
        'w' => 'W',
        'x' => 'X',
        'y' => 'Y',
        'z' => 'Z',
        _ => c,
    }
}

pub fn is_space_char_exec(c: char) -> (r: bool)
    ensures
        r == is_space_char(c),
{
    c == ' ' || c == '\t' || c == '\n' || c == '\r' || c == '\u{b}' || c == '\u{c}'
}

pub fn is_digit_char_exec(c: char) -> (r: bool)
    ensures
        r == is_digit_char(c),
{
    c == '0' || c == '1' || c == '2' || c == '3' || c == '4' || c == '5' || c == '6' || c == '7'
        || c == '8' || c == '9'
}

/// The characters of a string slice as a vector.
pub fn chars_of(s: &str) -> (v: Vec<char>)
    ensures
        v@ == s@,
{
    let n = s.unicode_len();
    let mut v: Vec<char> = Vec::new();
    for i in 0..n
        invariant
            n == s@.len(),
            v@ == s@.subrange(0, i as int),
    {
        v.push(s.get_char(i));
        proof {
            assert(v@ =~= s@.subrange(0, i + 1 as int));
        }
    }
    proof {
        assert(v@ =~= s@);
    }
    v
}

/// Relies on `String`'s `FromIterator<char>` impl: collecting an iterator
/// of characters yields the string of exactly those characters, in order.
#[verifier::external_body]
pub fn string_from_chars(v: &Vec<char>) -> (r: String)
    ensures
        r@ == v@,
{
    v.iter().collect()
}

/// ASCII lower-casing of a vector of characters.
pub fn lower_chars(v: &Vec<char>) -> (r: Vec<char>)
    ensures
        r@ == lower_seq(v@),
{
    let mut r: Vec<char> = Vec::new();
    let n = v.len();
    for i in 0..n
        invariant
            n == v@.len(),
            r@ == lower_seq(v@.subrange(0, i as int)),
    {
        r.push(lower_char_exec(v[i]));
        proof {
            assert(r@ =~= lower_seq(v@.subrange(0, i + 1 as int)));
        }
    }
    proof {
        assert(v@.subrange(0, n as int) =~= v@);
    }
    r
}

/// ASCII upper-casing of a string.
pub fn upper_str(s: &str) -> (r: String)
    ensures
        r@ == upper_seq(s@),
{
    let v = chars_of(s);
    let u = upper_chars(&v);
    string_from_chars(&u)
}

/// ASCII upper-casing of a vector of characters.
pub fn upper_chars(v: &Vec<char>) -> (r: Vec<char>)
    ensures
        r@ == upper_seq(v@),
{
    let mut r: Vec<char> = Vec::new();
    let n = v.len();
    for i in 0..n
        invariant
            n == v@.len(),
            r@ == upper_seq(v@.subrange(0, i as int)),
    {
        r.push(upper_char_exec(v[i]));
        proof {
            assert(r@ =~= upper_seq(v@.subrange(0, i + 1 as int)));
        }
    }
    proof {
        assert(v@.subrange(0, n as int) =~= v@);
    }
    r
}

/// `p` occurs in `t` starting at position `i`.
pub open spec fn matches_at(t: Seq<char>, p: Seq<char>, i: int) -> bool {
    &&& 0 <= i
    &&& i + p.len() <= t.len()
    &&& t.subrange(i, i + p.len() as int) == p
}

/// `p` occurs somewhere in `t` as a contiguous subsequence.
pub open spec fn contains_seq(t: Seq<char>, p: Seq<char>) -> bool {
    exists|i: int| matches_at(t, p, i)
}

/// Substring search over character vectors.
pub fn contains_chars(t: &Vec<char>, p: &Vec<char>) -> (b: bool)
    ensures
        b == contains_seq(t@, p@),
{
    let n = t.len();
    let m = p.len();
    if m > n {
        proof {
            assert forall|i: int| !matches_at(t@, p@, i) by {}
        }
        return false;
    }
    if m == 0 {
        proof {
            assert(t@.subrange(0, 0) =~= p@);
            assert(matches_at(t@, p@, 0));
        }
        return true;
    }
    let mut i: usize = 0;
    while i <= n - m
        invariant
            n == t@.len(),
            m == p@.len(),
            1 <= m <= n,
            i <= n - m + 1,
            forall|k: int| 0 <= k < i ==> !matches_at(t@, p@, k),
        decreases n - m + 1 - i,
    {
        let mut j: usize = 0;
        let mut eq = true;
        while eq && j < m
            invariant
                n == t@.len(),
                m == p@.len(),
                i + m <= n,
                j <= m,
                eq ==> forall|l: int| 0 <= l < j ==> t@[i + l] == p@[l],
                !eq ==> !matches_at(t@, p@, i as int),
            decreases m - j + (if eq { 1int } else { 0int }),
        {
            if t[i + j] != p[j] {
                proof {
                    if matches_at(t@, p@, i as int) {
                        assert(t@.subrange(i as int, i + m as int)[j as int] == p@[j as int]);
                    }
                }
                eq = false;
            } else {
                j = j + 1;
            }
        }
        if eq {
            proof {
                assert(t@.subrange(i as int, i + m as int) =~= p@);
                assert(matches_at(t@, p@, i as int));
            }
            return true;
        }
        i = i + 1;
    }
    proof {
        assert forall|k: int| !matches_at(t@, p@, k) by {
            if 0 <= k < i {
            } else {
            }
        }
    }
    false
}

/// Character-for-character equality of two string slices.
pub fn str_eq(a: &str, b: &str) -> (r: bool)
    ensures
        r == (a@ == b@),
{
    let n = a.unicode_len();
    let m = b.unicode_len();
    if n != m {
        proof {
            assert(a@ != b@);
        }
        return false;
    }
    for i in 0..n
        invariant
            n == a@.len(),
            n == b@.len(),
            forall|k: int| 0 <= k < i ==> a@[k] == b@[k],
    {
        if a.get_char(i) != b.get_char(i) {
            return false;
        }
    }
    proof {
        assert(a@ =~= b@);
    }
    true
}

/// Element-for-element equality of two character vectors.
pub fn chars_eq(a: &Vec<char>, b: &Vec<char>) -> (r: bool)
    ensures
        r == (a@ == b@),
{
    let n = a.len();
    let m = b.len();
    if n != m {
        proof {
            assert(a@ != b@);
        }
        return false;
    }
    for i in 0..n
        invariant
            n == a@.len(),
            n == b@.len(),
            forall|k: int| 0 <= k < i ==> a@[k] == b@[k],
    {
        if a[i] != b[i] {
            return false;
        }
    }
    proof {
        assert(a@ =~= b@);
    }
    true
}

/// Prefix test: `p` is an initial segment of `t`.
pub open spec fn starts_with_seq(t: Seq<char>, p: Seq<char>) -> bool {
    p.len() <= t.len() && t.subrange(0, p.len() as int) == p
}

pub fn str_starts_with(t: &str, p: &str) -> (b: bool)
    ensures
        b == starts_with_seq(t@, p@),
{
    let n = t.unicode_len();
    let m = p.unicode_len();
    if m > n {
        return false;
    }
    for i in 0..m
        invariant
            n == t@.len(),
            m == p@.len(),
            m <= n,
            forall|k: int| 0 <= k < i ==> t@[k] == p@[k],
    {
        if t.get_char(i) != p.get_char(i) {
            proof {
                if starts_with_seq(t@, p@) {
                    assert(t@.subrange(0, m as int)[i as int] == p@[i as int]);
                }
            }
            return false;
        }
    }
    proof {
        assert(t@.subrange(0, m as int) =~= p@);
    }
    true
}

/// Substring search over strings.
pub fn str_contains(t: &str, p: &str) -> (b: bool)
    ensures
        b == contains_seq(t@, p@),
{
    let tv = chars_of(t);
    let pv = chars_of(p);
    contains_chars(&tv, &pv)
}

/// Substring search in the ASCII-lower-cased text, the pattern taken
/// as-is.
pub fn str_contains_in_lower(t: &str, p: &str) -> (b: bool)
    ensures
        b == contains_seq(lower_seq(t@), p@),
{
    let tv = chars_of(t);
    let tl = lower_chars(&tv);
    let pv = chars_of(p);
    contains_chars(&tl, &pv)
}

/// Some string of `fs` contains `kw`.
pub open spec fn seq_any_contains(fs: Seq<String>, kw: Seq<char>) -> bool {
    exists|i: int| 0 <= i < fs.len() && contains_seq((#[trigger] fs[i])@, kw)
}

pub fn vec_any_contains(fs: &Vec<String>, kw: &str) -> (b: bool)
    ensures
        b == seq_any_contains(fs@, kw@),
{
    let kv = chars_of(kw);
    let n = fs.len();
    for i in 0..n
        invariant
            n == fs@.len(),
            kv@ == kw@,
            forall|k: int| 0 <= k < i ==> !contains_seq((#[trigger] fs@[k])@, kw@),
    {
        let fv = chars_of(fs[i].as_str());
        if contains_chars(&fv, &kv) {
            return true;
        }
    }
    false
}

/// Some string of `fs`, lower-cased, contains `kw`.
pub open spec fn seq_any_contains_lower(fs: Seq<String>, kw: Seq<char>) -> bool {
    exists|i: int| 0 <= i < fs.len() && contains_seq(lower_seq((#[trigger] fs[i])@), kw)
}

pub fn vec_any_contains_lower(fs: &Vec<String>, kw: &str) -> (b: bool)
    ensures
        b == seq_any_contains_lower(fs@, kw@),
{
    let kv = chars_of(kw);
    let n = fs.len();
    for i in 0..n
        invariant
            n == fs@.len(),
            kv@ == kw@,
            forall|k: int| 0 <= k < i ==> !contains_seq(lower_seq((#[trigger] fs@[k])@), kw@),
    {
        let fv = chars_of(fs[i].as_str());
        let fl = lower_chars(&fv);
        if contains_chars(&fl, &kv) {
            return true;
        }
    }
    false
}

/// `s` with leading whitespace removed.
pub open spec fn trim_start_ws(s: Seq<char>) -> Seq<char>
    decreases s.len(),
{
    if s.len() > 0 && is_space_char(s[0]) {
        trim_start_ws(s.drop_first())
    } else {
        s
    }
}

/// `s` with trailing whitespace removed.
pub open spec fn trim_end_ws(s: Seq<char>) -> Seq<char>
    decreases s.len(),
{
    if s.len() > 0 && is_space_char(s[s.len() - 1]) {
        trim_end_ws(s.drop_last())
    } else {
        s
    }
}

/// Whitespace trimming on both ends, as a spec.
pub open spec fn trim_spec(s: Seq<char>) -> Seq<char> {
    trim_end_ws(trim_start_ws(s))
}

proof fn lemma_trim_start_ws_skip(s: Seq<char>, a: int)
    requires
        0 <= a <= s.len(),
        forall|k: int| 0 <= k < a ==> is_space_char(s[k]),
        a < s.len() ==> !is_space_char(s[a]),
    ensures
        trim_start_ws(s) == s.subrange(a, s.len() as int),
    decreases a,
{
    if a == 0 {
        if s.len() > 0 && is_space_char(s[0]) {
            assert(false);
        }
        assert(s.subrange(0, s.len() as int) =~= s);
    } else {
        assert(is_space_char(s[0]));
        let t = s.drop_first();
        assert(forall|k: int| 0 <= k < a - 1 ==> is_space_char(#[trigger] t[k]));
        lemma_trim_start_ws_skip(t, a - 1);
        assert(t.subrange(a - 1, t.len() as int) =~= s.subrange(a, s.len() as int));
    }
}

proof fn lemma_trim_end_ws_take(s: Seq<char>, b: int)
    requires
        0 <= b <= s.len(),
        forall|k: int| b <= k < s.len() ==> is_space_char(s[k]),
        b > 0 ==> !is_space_char(s[b - 1]),
    ensures
        trim_end_ws(s) == s.subrange(0, b),
    decreases s.len() - b,
{
    if b == s.len() {
        if s.len() > 0 && is_space_char(s[s.len() - 1]) {
            assert(false);
        }
        assert(s.subrange(0, s.len() as int) =~= s);
    } else {
        assert(is_space_char(s[s.len() - 1]));
        let t = s.drop_last();
        assert(forall|k: int| b <= k < t.len() ==> is_space_char(#[trigger] t[k]));
        lemma_trim_end_ws_take(t, b);
        assert(t.subrange(0, b) =~= s.subrange(0, b));
    }
}

/// Whitespace trimming of a vector of characters.
pub fn trim_chars_ws(v: &Vec<char>) -> (r: Vec<char>)
    ensures
        r@ == trim_spec(v@),
{
    let n = v.len();
    let mut a: usize = 0;
    while a < n && is_space_char_exec(v[a])
        invariant
            n == v@.len(),
            a <= n,
            forall|k: int| 0 <= k < a ==> is_space_char(v@[k]),
        decreases n - a,
    {
        a = a + 1;
    }
    proof {
        lemma_trim_start_ws_skip(v@, a as int);
    }
    let ghost mid = v@.subrange(a as int, n as int);
    let mut b: usize = n;
    while b > a && is_space_char_exec(v[b - 1])
        invariant
            n == v@.len(),
            a <= b <= n,
            forall|k: int| b <= k < n ==> is_space_char(v@[k]),
        decreases b,
    {
        b = b - 1;
    }
    proof {
        assert(forall|k: int| b - a <= k < mid.len() ==> is_space_char(#[trigger] mid[k]));
        lemma_trim_end_ws_take(mid, b - a);
    }
    let mut r: Vec<char> = Vec::new();
    let mut i: usize = a;
    while i < b
        invariant
            a <= i <= b <= n,
            n == v@.len(),
            r@ == v@.subrange(a as int, i as int),
        decreases b - i,
    {
        r.push(v[i]);
        i = i + 1;
        proof {
            assert(r@ =~= v@.subrange(a as int, i as int));
        }
    }
    proof {
        assert(mid.subrange(0, b - a) =~= v@.subrange(a as int, b as int));
    }
    r
}

/// Whitespace trimming of a string, as `str::trim` does for ASCII input.
pub fn trim_str(s: &str) -> (r: String)
    ensures
        r@ == trim_spec(s@),
{
    let v = chars_of(s);
    let t = trim_chars_ws(&v);
    string_from_chars(&t)
}

/// Every character is an ASCII digit.
pub open spec fn all_digits(w: Seq<char>) -> bool {
    forall|i: int| 0 <= i < w.len() ==> is_digit_char(#[trigger] w[i])
}

/// Some character is an ASCII digit.
pub open spec fn has_digit(w: Seq<char>) -> bool {
    exists|i: int| 0 <= i < w.len() && is_digit_char(#[trigger] w[i])
}

/// The word with its first character upper-cased.
pub open spec fn capitalize_first(w: Seq<char>) -> Seq<char> {
    if w.len() == 0 {
        w
    } else {
        seq![upper_char(w[0])] + w.drop_first()
    }
}

/// Renders a word with its first character upper-cased.
pub fn capitalize_first_chars(w: &Vec<char>) -> (r: Vec<char>)
    ensures
        r@ == capitalize_first(w@),
{
    let n = w.len();
    if n == 0 {
        let r: Vec<char> = Vec::new();
        proof {
            assert(r@ =~= w@);
        }
        return r;
    }
    let mut r: Vec<char> = Vec::new();
    r.push(upper_char_exec(w[0]));
    for i in 1..n
        invariant
            n == w@.len(),
            n > 0,
            r@ == seq![upper_char(w@[0])] + w@.subrange(1, i as int),
    {
        r.push(w[i]);
        proof {
            assert(r@ =~= seq![upper_char(w@[0])] + w@.subrange(1, i + 1 as int));
        }
    }
    proof {
        assert(w@.subrange(1, n as int) =~= w@.drop_first());
    }
    r
}

/// The views of a sequence of character vectors.
pub open spec fn views_of(s: Seq<Vec<char>>) -> Seq<Seq<char>> {
    s.map_values(|v: Vec<char>| v@)
}

/// The length of the maximal leading run of non-whitespace characters.
pub open spec fn word_len(s: Seq<char>) -> int
    decreases s.len(),
{
    if s.len() == 0 || is_space_char(s[0]) {
        0
    } else {
        1 + word_len(s.drop_first())
    }
}

pub proof fn lemma_word_len_bounds(s: Seq<char>)
    ensures
        0 <= word_len(s) <= s.len(),
        forall|k: int| 0 <= k < word_len(s) ==> !is_space_char(s[k]),
        word_len(s) < s.len() ==> is_space_char(s[word_len(s)]),
    decreases s.len(),
{
    if s.len() > 0 && !is_space_char(s[0]) {
        let t = s.drop_first();
        lemma_word_len_bounds(t);
        assert forall|k: int| 0 <= k < word_len(s) implies !is_space_char(s[k]) by {
            if k > 0 {
                assert(t[k - 1] == s[k]);
            }
        }
        if word_len(s) < s.len() {
            assert(t[word_len(s) - 1] == s[word_len(s)]);
        }
    }
}

/// The exact word boundary from a scan: the first `w` characters are
/// non-whitespace and the character at `w`, if any, is whitespace.
pub proof fn lemma_word_len_from_scan(s: Seq<char>, w: int)
    requires
        0 <= w <= s.len(),
        forall|k: int| 0 <= k < w ==> !is_space_char(s[k]),
        w < s.len() ==> is_space_char(s[w]),
    ensures
        word_len(s) == w,
    decreases w,
{
    if w == 0 {
    } else {
        let t = s.drop_first();
        assert(forall|k: int| 0 <= k < w - 1 ==> t[k] == s[k + 1]);
        lemma_word_len_from_scan(t, w - 1);
    }
}

/// The whitespace-separated words of `s`, in order, without empties — the
/// segmentation `str::split_whitespace` performs.
pub open spec fn split_ws(s: Seq<char>) -> Seq<Seq<char>>
    decreases s.len(),
    via split_ws_decreases
{
    if s.len() == 0 {
        Seq::empty()
    } else if is_space_char(s[0]) {
        split_ws(s.drop_first())
    } else {
        let w = word_len(s);
        seq![s.take(w)] + split_ws(s.skip(w))
    }
}

#[via_fn]
proof fn split_ws_decreases(s: Seq<char>) {
    if s.len() > 0 && !is_space_char(s[0]) {
        lemma_word_len_bounds(s);
    }
}

/// Splits a character vector into its whitespace-separated words.
pub fn split_ws_chars(v: &Vec<char>) -> (r: Vec<Vec<char>>)
    ensures
        views_of(r@) == split_ws(v@),
{
    let n = v.len();
    let mut out: Vec<Vec<char>> = Vec::new();
    let mut i: usize = 0;
    proof {
        assert(v@.skip(0) =~= v@);
        assert(views_of(out@) + split_ws(v@) =~= split_ws(v@));
    }
    while i < n
        invariant
            n == v@.len(),
            i <= n,
            split_ws(v@) == views_of(out@) + split_ws(v@.skip(i as int)),
        decreases n - i,
    {
        if is_space_char_exec(v[i]) {
            proof {
                assert(v@.skip(i as int).drop_first() =~= v@.skip(i + 1 as int));
            }
            i = i + 1;
        } else {
            let mut j: usize = i;
            let mut word: Vec<char> = Vec::new();
            while j < n && !is_space_char_exec(v[j])
                invariant
                    n == v@.len(),
                    i <= j <= n,
                    word@ == v@.subrange(i as int, j as int),
                    forall|k: int| i <= k < j ==> !is_space_char(v@[k]),
                decreases n - j,
            {
                word.push(v[j]);
                j = j + 1;
                proof {
                    assert(word@ =~= v@.subrange(i as int, j as int));
                }
            }
            proof {
                let rest = v@.skip(i as int);
                assert forall|k: int| 0 <= k < j - i implies !is_space_char(rest[k]) by {
                    assert(rest[k] == v@[i + k]);
                }
                if j < n {
                    assert(is_space_char(rest[j - i]));
                }
                lemma_word_len_from_scan(rest, j - i);
                assert(rest.take(j - i) =~= v@.subrange(i as int, j as int));
                assert(rest.skip(j - i) =~= v@.skip(j as int));
                assert(split_ws(rest) == seq![word@] + split_ws(v@.skip(j as int)));
            }
            out.push(word);
            proof {
                assert(views_of(out@) =~= views_of(out@.drop_last()).push(
                    v@.subrange(i as int, j as int),
                ));
                assert(views_of(out@) + split_ws(v@.skip(j as int)) =~= views_of(out@.drop_last())
                    + (seq![v@.subrange(i as int, j as int)] + split_ws(v@.skip(j as int))));
            }
            i = j;
        }
    }
    proof {
        assert(v@.skip(n as int) =~= Seq::<char>::empty());
        assert(views_of(out@) + Seq::<Seq<char>>::empty() =~= views_of(out@));
    }
    out
}

/// The segments of `s` between occurrences of `sep`, empties kept — the
/// segmentation `str::split` performs for a one-character separator.
pub open spec fn split_char(s: Seq<char>, sep: char) -> Seq<Seq<char>>
    decreases s.len(),
{
    if s.len() == 0 {
        seq![s]
    } else if s[0] == sep {
        seq![Seq::<char>::empty()] + split_char(s.drop_first(), sep)
    } else {
        let rest = split_char(s.drop_first(), sep);
        seq![seq![s[0]] + rest[0]] + rest.drop_first()
    }
}

pub proof fn lemma_split_char_len(s: Seq<char>, sep: char)
    ensures
        split_char(s, sep).len() >= 1,
    decreases s.len(),
{
    if s.len() > 0 {
        lemma_split_char_len(s.drop_first(), sep);
    }
}

/// A segment boundary: with no separator in `s.take(j)` and a separator
/// at `j` (or the end of `s`), the first segment is `s.take(j)` and the
/// rest split the remainder.
pub proof fn lemma_split_char_head(s: Seq<char>, sep: char, j: int)
    requires
        0 <= j <= s.len(),
        forall|k: int| 0 <= k < j ==> s[k] != sep,
        j < s.len() ==> s[j] == sep,
    ensures
        split_char(s, sep)[0] == s.take(j),
        j < s.len() ==> split_char(s, sep) == seq![s.take(j)] + split_char(s.skip(j + 1), sep),
        j == s.len() ==> split_char(s, sep) == seq![s.take(j)],
    decreases s.len(),
{
    lemma_split_char_len(s, sep);
    if s.len() == 0 {
        assert(split_char(s, sep) =~~= seq![s.take(0)]);
    } else if s[0] == sep {
        assert(j == 0);
        assert(s.take(0) =~= Seq::<char>::empty());
        assert(s.skip(1) =~= s.drop_first());
    } else {
        let t = s.drop_first();
        assert(forall|k: int| 0 <= k < j - 1 ==> t[k] == s[k + 1]);
        lemma_split_char_head(t, sep, j - 1);
        let rest = split_char(t, sep);
        assert(seq![s[0]] + rest[0] =~= seq![s[0]] + t.take(j - 1));
        assert(seq![s[0]] + t.take(j - 1) =~= s.take(j));
        if j < s.len() {
            assert(t.skip(j) =~= s.skip(j + 1));
            assert(split_char(s, sep) =~~= seq![s.take(j)] + split_char(s.skip(j + 1), sep));
        } else {
            assert(split_char(s, sep) =~~= seq![s.take(j)]);
        }
    }
}

/// Splits a character vector at every occurrence of `sep`, empties kept.
pub fn split_char_chars(v: &Vec<char>, sep: char) -> (r: Vec<Vec<char>>)
    ensures
        views_of(r@) == split_char(v@, sep),
        r@.len() >= 1,
{
    let n = v.len();
    let mut out: Vec<Vec<char>> = Vec::new();
    let mut i: usize = 0;
    let mut cur: Vec<char> = Vec::new();
    proof {
        assert(v@.skip(0) =~= v@);
    }
    while i < n
        invariant
            n == v@.len(),
            i <= n,
            cur@.len() <= i,
            cur@ == v@.subrange(i - cur@.len(), i as int),
            forall|k: int| i - cur@.len() <= k < i ==> v@[k] != sep,
            split_char(v@, sep) == views_of(out@) + split_char(v@.skip(i - cur@.len()), sep),
        decreases n - i,
    {
        let c = v[i];
        if c == sep {
            proof {
                let start = i - cur@.len();
                let rest = v@.skip(start);
                assert forall|k: int| 0 <= k < cur@.len() implies rest[k] != sep by {
                    assert(rest[k] == v@[start + k]);
                }
                assert(rest[cur@.len() as int] == v@[i as int]);
                lemma_split_char_head(rest, sep, cur@.len() as int);
                assert(rest.take(cur@.len() as int) =~= cur@);
                assert(rest.skip(cur@.len() as int + 1) =~= v@.skip(i + 1 as int));
            }
            out.push(cur);
            cur = Vec::new();
            proof {
                assert(views_of(out@) =~~= views_of(out@.drop_last()).push(out@.last()@));
                assert(views_of(out@) + split_char(v@.skip(i + 1 as int), sep) =~~= views_of(
                    out@.drop_last(),
                ) + (seq![out@.last()@] + split_char(v@.skip(i + 1 as int), sep)));
                assert(cur@ =~= v@.subrange(i + 1 as int, i + 1 as int));
            }
            i = i + 1;
        } else {
            cur.push(c);
            i = i + 1;
            proof {
                assert(cur@ =~= v@.subrange(i - cur@.len(), i as int));
            }
        }
    }
    proof {
        let start = i - cur@.len();
        let rest = v@.skip(start);
        assert forall|k: int| 0 <= k < cur@.len() implies rest[k] != sep by {
            assert(rest[k] == v@[start + k]);
        }
        assert(rest.len() == cur@.len());
        lemma_split_char_head(rest, sep, cur@.len() as int);
        assert(rest.take(cur@.len() as int) =~= cur@);
    }
    out.push(cur);
    proof {
        assert(views_of(out@) =~~= views_of(out@.drop_last()).push(out@.last()@));
        assert(views_of(out@) =~~= split_char(v@, sep));
    }
    out
}

/// The concatenation of `parts` with `sep` between consecutive parts.
pub open spec fn join_with(parts: Seq<Seq<char>>, sep: Seq<char>) -> Seq<char>
    decreases parts.len(),
{
    if parts.len() == 0 {
        Seq::empty()
    } else if parts.len() == 1 {
        parts[0]
    } else {
        parts[0] + sep + join_with(parts.drop_first(), sep)
    }
}

pub proof fn lemma_join_push(parts: Seq<Seq<char>>, sep: Seq<char>, p: Seq<char>)
    ensures
        join_with(parts.push(p), sep) == if parts.len() == 0 {
            p
        } else {
            join_with(parts, sep) + sep + p
        },
    decreases parts.len(),
{
    let w = parts.push(p);
    if parts.len() == 0 {
        assert(w.len() == 1);
        assert(w[0] == p);
    } else {
        assert(w[0] == parts[0]);
        assert(w.drop_first() =~= parts.drop_first().push(p));
        lemma_join_push(parts.drop_first(), sep, p);
        if parts.len() == 1 {
            assert(join_with(w, sep) == parts[0] + sep + p);
            assert(join_with(parts, sep) == parts[0]);
        } else {
            assert(parts[0] + sep + (join_with(parts.drop_first(), sep) + sep + p) =~= (parts[0]
                + sep + join_with(parts.drop_first(), sep)) + sep + p);
        }
    }
}

/// Joins character vectors with a separator string.
pub fn join_chars(parts: &Vec<Vec<char>>, sep: &Vec<char>) -> (r: Vec<char>)
    ensures
        r@ == join_with(views_of(parts@), sep@),
{
    let mut r: Vec<char> = Vec::new();
    let n = parts.len();
    for i in 0..n
        invariant
            n == parts@.len(),
            r@ == join_with(views_of(parts@.subrange(0, i as int)), sep@),
    {
        if i > 0 {
            let m = sep.len();
            for j in 0..m
                invariant
                    m == sep@.len(),
                    i > 0,
                    n == parts@.len(),
                    r@ == join_with(views_of(parts@.subrange(0, i as int)), sep@) + sep@.subrange(
                        0,
                        j as int,
                    ),
            {
                r.push(sep[j]);
                proof {
                    assert(r@ =~= join_with(views_of(parts@.subrange(0, i as int)), sep@)
                        + sep@.subrange(0, j + 1 as int));
                }
            }
            proof {
                assert(sep@.subrange(0, m as int) =~= sep@);
            }
        }
        let part = &parts[i];
        let m = part.len();
        let ghost base = r@;
        for j in 0..m
            invariant
                m == part@.len(),
                part == &parts@[i as int],
                r@ == base + part@.subrange(0, j as int),
        {
            r.push(part[j]);
            proof {
                assert(r@ =~= base + part@.subrange(0, j + 1 as int));
            }
        }
        proof {
            assert(part@.subrange(0, m as int) =~= part@);
            let pre = views_of(parts@.subrange(0, i as int));
            let cur = views_of(parts@.subrange(0, i + 1 as int));
            assert(cur =~= pre.push(parts@[i as int]@));
            lemma_join_push(pre, sep@, parts@[i as int]@);
            if i == 0 {
                assert(base =~= Seq::<char>::empty());
                assert(r@ =~= join_with(cur, sep@));
            } else {
                assert(r@ =~= join_with(cur, sep@));
            }
        }
    }
    proof {
        assert(parts@.subrange(0, n as int) =~= parts@);
    }
    r
}

/// Each character equal to `from` replaced by `to`.
pub open spec fn replace_char_spec(s: Seq<char>, from: char, to: char) -> Seq<char> {
    s.map_values(|c: char| if c == from { to } else { c })
}

pub fn replace_char_chars(v: &Vec<char>, from: char, to: char) -> (r: Vec<char>)
    ensures
        r@ == replace_char_spec(v@, from, to),
{
    let mut r: Vec<char> = Vec::new();
    let n = v.len();
    for i in 0..n
        invariant
            n == v@.len(),
            r@ == replace_char_spec(v@.subrange(0, i as int), from, to),
    {
        let c = v[i];
        if c == from {
            r.push(to);
        } else {
            r.push(c);
        }
        proof {
            assert(r@ =~= replace_char_spec(v@.subrange(0, i + 1 as int), from, to));
        }
    }
    proof {
        assert(v@.subrange(0, n as int) =~= v@);
    }
    r
}

/// The first index at which `p` occurs in `s`, or -1; `p` is non-empty.
pub open spec fn find_sub(s: Seq<char>, p: Seq<char>) -> int
    decreases s.len(),
{
    if p.len() == 0 {
        0
    } else if s.len() < p.len() {
        -1
    } else if s.take(p.len() as int) == p {
        0
    } else {
        let r = find_sub(s.drop_first(), p);
        if r < 0 {
            -1
        } else {
            r + 1
        }
    }
}

/// The exact first-match position from a scan: no match before `j`, and
/// at `j` either a match or the end of the candidates.
pub proof fn lemma_find_sub_from_scan(s: Seq<char>, p: Seq<char>, j: int, found: bool)
    requires
        p.len() >= 1,
        0 <= j,
        found ==> j + p.len() <= s.len() && s.subrange(j, j + p.len()) == p,
        !found ==> j + p.len() > s.len(),
        forall|k: int| 0 <= k < j ==> !matches_at(s, p, k),
    ensures
        found ==> find_sub(s, p) == j,
        !found ==> find_sub(s, p) < 0,
    decreases s.len(),
{
    if s.len() < p.len() {
    } else if s.take(p.len() as int) == p {
        assert(s.take(p.len() as int) =~= s.subrange(0, p.len() as int));
        assert(matches_at(s, p, 0));
        if j > 0 {
            assert(false);
        }
    } else {
        assert(s.take(p.len() as int) =~= s.subrange(0, p.len() as int));
        assert(j > 0 || !found) by {
            if found && j == 0 {
                assert(s.subrange(0, p.len() as int) == p);
            }
        }
        let t = s.drop_first();
        assert forall|k: int| 0 <= k < j - 1 implies !matches_at(t, p, k) by {
            if matches_at(t, p, k) {
                assert(t.subrange(k, k + p.len()) =~= s.subrange(k + 1, k + 1 + p.len()));
                assert(matches_at(s, p, k + 1));
            }
        }
        if found {
            assert(t.subrange(j - 1, j - 1 + p.len()) =~= s.subrange(j, j + p.len()));
            lemma_find_sub_from_scan(t, p, j - 1, true);
        } else {
            if j == 0 {
                assert(s.len() < p.len());
                assert(false);
            }
            lemma_find_sub_from_scan(t, p, j - 1, false);
        }
    }
}

/// Every occurrence of `p` replaced by `rep`, scanning left to right and
/// restarting after each replacement; for empty `p` the input unchanged.
pub open spec fn replace_sub_spec(s: Seq<char>, p: Seq<char>, rep: Seq<char>) -> Seq<char>
    decreases s.len(),
{
    if p.len() == 0 {
        s
    } else {
        let i = find_sub(s, p);
        if i < 0 {
            s
        } else if i + p.len() <= s.len() {
            s.take(i) + rep + replace_sub_spec(s.skip(i + p.len()), p, rep)
        } else {
            s
        }
    }
}

/// Replaces every occurrence of `p` in `v` by `rep`.
pub fn replace_sub_chars(v: &Vec<char>, p: &Vec<char>, rep: &Vec<char>) -> (r: Vec<char>)
    requires
        p@.len() >= 1,
    ensures
        r@ == replace_sub_spec(v@, p@, rep@),
{
    let n = v.len();
    let m = p.len();
    let mut out: Vec<char> = Vec::new();
    let mut pos: usize = 0;
    proof {
        assert(v@.skip(0) =~= v@);
        assert(out@ + replace_sub_spec(v@, p@, rep@) =~= replace_sub_spec(v@, p@, rep@));
    }
    while pos < n
        invariant
            n == v@.len(),
            m == p@.len(),
            1 <= m,
            pos <= n,
            replace_sub_spec(v@, p@, rep@) == out@ + replace_sub_spec(
                v@.skip(pos as int),
                p@,
                rep@,
            ),
        decreases n - pos,
    {
        let ghost rest = v@.skip(pos as int);
        let mut k: usize = pos;
        let mut found = false;
        while !found && n - k >= m
            invariant
                n == v@.len(),
                m == p@.len(),
                1 <= m,
                pos <= k <= n,
                rest == v@.skip(pos as int),
                found ==> k + m <= n && v@.subrange(k as int, k + m as int) == p@,
                forall|q: int| pos <= q < k ==> !matches_at(v@, p@, q),
            decreases n - k + (if found { 0int } else { 1int }),
        {
            let mut j: usize = 0;
            let mut eq = true;
            while eq && j < m
                invariant
                    n == v@.len(),
                    m == p@.len(),
                    k + m <= n,
                    j <= m,
                    eq ==> forall|l: int| 0 <= l < j ==> v@[k + l] == p@[l],
                    !eq ==> !matches_at(v@, p@, k as int),
                decreases m - j + (if eq { 1int } else { 0int }),
            {
                if v[k + j] != p[j] {
                    proof {
                        if matches_at(v@, p@, k as int) {
                            assert(v@.subrange(k as int, k + m as int)[j as int] == p@[j as int]);
                        }
                    }
                    eq = false;
                } else {
                    j = j + 1;
                }
            }
            if eq {
                proof {
                    assert(v@.subrange(k as int, k + m as int) =~= p@);
                }
                found = true;
            } else {
                k = k + 1;
            }
        }
        if found {
            proof {
                assert forall|q: int| 0 <= q < k - pos implies !matches_at(rest, p@, q) by {
                    if matches_at(rest, p@, q) {
                        assert(rest.subrange(q, q + m as int) =~= v@.subrange(
                            pos + q,
                            pos + q + m,
                        ));
                        assert(matches_at(v@, p@, pos + q));
                    }
                }
                assert(rest.subrange(k - pos, k - pos + m) =~= v@.subrange(k as int, k + m as int));
                lemma_find_sub_from_scan(rest, p@, k - pos, true);
            }
            let ghost base = out@;
            let mut q: usize = pos;
            while q < k
                invariant
                    pos <= q <= k <= n,
                    n == v@.len(),
                    out@ == base + v@.subrange(pos as int, q as int),
                decreases k - q,
            {
                out.push(v[q]);
                q = q + 1;
                proof {
                    assert(out@ =~= base + v@.subrange(pos as int, q as int));
                }
            }
            let ghost base2 = out@;
            let rl = rep.len();
            for j in 0..rl
                invariant
                    rl == rep@.len(),
                    out@ == base2 + rep@.subrange(0, j as int),
            {
                out.push(rep[j]);
                proof {
                    assert(out@ =~= base2 + rep@.subrange(0, j + 1 as int));
                }
            }
            proof {
                assert(rep@.subrange(0, rl as int) =~= rep@);
                assert(rest.take(k - pos) =~= v@.subrange(pos as int, k as int));
                assert(rest.skip(k - pos + m) =~= v@.skip(k + m as int));
                assert(out@ =~= base + (rest.take(k - pos) + rep@));
                assert(out@ + replace_sub_spec(v@.skip(k + m as int), p@, rep@) =~= base + (
                rest.take(k - pos) + rep@ + replace_sub_spec(rest.skip(k - pos + m), p@, rep@)));
            }
            pos = k + m;
        } else {
            proof {
                assert forall|q: int| 0 <= q < rest.len() implies !matches_at(rest, p@, q) by {
                    if matches_at(rest, p@, q) {
                        assert(rest.subrange(q, q + m as int) =~= v@.subrange(
                            pos + q,
                            pos + q + m,
                        ));
                        assert(matches_at(v@, p@, pos + q));
                        assert(pos + q < k);
                    }
                }
                let jj: int = if rest.len() < m { 0 } else { rest.len() - m + 1 };
                lemma_find_sub_from_scan(rest, p@, jj, false);
            }
            let ghost base = out@;
            let mut q: usize = pos;
            while q < n
                invariant
                    pos <= q <= n,
                    n == v@.len(),
                    out@ == base + v@.subrange(pos as int, q as int),
                decreases n - q,
            {
                out.push(v[q]);
                q = q + 1;
                proof {
                    assert(out@ =~= base + v@.subrange(pos as int, q as int));
                }
            }
            proof {
                assert(v@.subrange(pos as int, n as int) =~= rest);
            }
            pos = n;
        }
    }
    proof {
        assert(v@.skip(n as int) =~= Seq::<char>::empty());
        assert(out@ + Seq::<char>::empty() =~= out@);
    }
    out
}

/// `s` with leading and trailing hyphens removed, as
/// `str::trim_matches('-')` does.
pub open spec fn trim_start_hyphen(s: Seq<char>) -> Seq<char>
    decreases s.len(),
{
    if s.len() > 0 && s[0] == '-' {
        trim_start_hyphen(s.drop_first())
    } else {
        s
    }
}

pub open spec fn trim_end_hyphen(s: Seq<char>) -> Seq<char>
    decreases s.len(),
{
    if s.len() > 0 && s[s.len() - 1] == '-' {
        trim_end_hyphen(s.drop_last())
    } else {
        s
    }
}

pub open spec fn trim_hyphens_spec(s: Seq<char>) -> Seq<char> {
    trim_end_hyphen(trim_start_hyphen(s))
}

proof fn lemma_trim_start_hyphen_skip(s: Seq<char>, a: int)
    requires
        0 <= a <= s.len(),
        forall|k: int| 0 <= k < a ==> s[k] == '-',
        a < s.len() ==> s[a] != '-',
    ensures
        trim_start_hyphen(s) == s.subrange(a, s.len() as int),
    decreases a,
{
    if a == 0 {
        assert(s.subrange(0, s.len() as int) =~= s);
    } else {
        let t = s.drop_first();
        assert(forall|k: int| 0 <= k < a - 1 ==> t[k] == s[k + 1]);
        lemma_trim_start_hyphen_skip(t, a - 1);
        assert(t.subrange(a - 1, t.len() as int) =~= s.subrange(a, s.len() as int));
    }
}

proof fn lemma_trim_end_hyphen_take(s: Seq<char>, b: int)
    requires
        0 <= b <= s.len(),
        forall|k: int| b <= k < s.len() ==> s[k] == '-',
        b > 0 ==> s[b - 1] != '-',
    ensures
        trim_end_hyphen(s) == s.subrange(0, b),
    decreases s.len() - b,
{
    if b == s.len() {
        assert(s.subrange(0, s.len() as int) =~= s);
    } else {
        let t = s.drop_last();
        assert(forall|k: int| b <= k < t.len() ==> t[k] == s[k]);
        lemma_trim_end_hyphen_take(t, b);
        assert(t.subrange(0, b) =~= s.subrange(0, b));
    }
}

/// Hyphen trimming of a character vector on both ends.
pub fn trim_hyphens_chars(v: &Vec<char>) -> (r: Vec<char>)
    ensures
        r@ == trim_hyphens_spec(v@),
{
    let n = v.len();
    let mut a: usize = 0;
    while a < n && v[a] == '-'
        invariant
            n == v@.len(),
            a <= n,
            forall|k: int| 0 <= k < a ==> v@[k] == '-',
        decreases n - a,
    {
        a = a + 1;
    }
    proof {
        lemma_trim_start_hyphen_skip(v@, a as int);
    }
    let ghost mid = v@.subrange(a as int, n as int);
    let mut b: usize = n;
    while b > a && v[b - 1] == '-'
        invariant
            n == v@.len(),
            a <= b <= n,
            forall|k: int| b <= k < n ==> v@[k] == '-',
        decreases b,
    {
        b = b - 1;
    }
    proof {
        assert(forall|k: int| b - a <= k < mid.len() ==> mid[k] == '-');
        lemma_trim_end_hyphen_take(mid, b - a);
    }
    let mut r: Vec<char> = Vec::new();
    let mut i: usize = a;
    while i < b
        invariant
            a <= i <= b <= n,
            n == v@.len(),
            r@ == v@.subrange(a as int, i as int),
        decreases b - i,
    {
        r.push(v[i]);
        i = i + 1;
        proof {
            assert(r@ =~= v@.subrange(a as int, i as int));
        }
    }
    proof {
        assert(mid.subrange(0, b - a) =~= v@.subrange(a as int, b as int));
    }
    r
}

} // verus!
