//! Character-level text helpers shared by every service: trimming, prefix
//! tests, splitting and small normalisations. Every string is reasoned about
//! through its view, the sequence of its Unicode scalar values.
use vstd::prelude::*;

verus! {

/// The Unicode `White_Space` property, the set that `char::is_whitespace`
/// and `str::trim` use.
pub open spec fn is_ws(c: char) -> bool {
    let u = c as u32;
    ||| 0x09 <= u <= 0x0D
    ||| u == 0x20
    ||| u == 0x85
    ||| u == 0xA0
    ||| u == 0x1680
    ||| 0x2000 <= u <= 0x200A
    ||| u == 0x2028
    ||| u == 0x2029
    ||| u == 0x202F
    ||| u == 0x205F
    ||| u == 0x3000
}

/// `s` with its leading white space removed.
pub open spec fn trim_start_seq(s: Seq<char>) -> Seq<char>
    decreases s.len(),
{
    if s.len() > 0 && is_ws(s[0]) {
        trim_start_seq(s.drop_first())
    } else {
        s
    }
}

/// `s` with its trailing white space removed.
pub open spec fn trim_end_seq(s: Seq<char>) -> Seq<char>
    decreases s.len(),
{
    if s.len() > 0 && is_ws(s.last()) {
        trim_end_seq(s.drop_last())
    } else {
        s
    }
}

/// `s` with white space removed at both ends, as `str::trim` gives it.
pub open spec fn trim_seq(s: Seq<char>) -> Seq<char> {
    trim_end_seq(trim_start_seq(s))
}

proof fn lemma_trim_start_shape(s: Seq<char>)
    ensures
        trim_start_seq(s).len() <= s.len(),
        trim_start_seq(s) == s.subrange(s.len() - trim_start_seq(s).len(), s.len() as int),
        trim_start_seq(s).len() == 0 || !is_ws(trim_start_seq(s)[0]),
    decreases s.len(),
{
    if s.len() > 0 && is_ws(s[0]) {
        lemma_trim_start_shape(s.drop_first());
        let r = trim_start_seq(s.drop_first());
        assert(s.drop_first().subrange(s.drop_first().len() - r.len(), s.drop_first().len() as int)
            =~= s.subrange(s.len() - r.len(), s.len() as int));
    } else {
        assert(s.subrange(0, s.len() as int) =~= s);
    }
}

proof fn lemma_trim_end_shape(s: Seq<char>)
    ensures
        trim_end_seq(s).len() <= s.len(),
        trim_end_seq(s) == s.subrange(0, trim_end_seq(s).len() as int),
        trim_end_seq(s).len() == 0 || !is_ws(trim_end_seq(s).last()),
    decreases s.len(),
{
    if s.len() > 0 && is_ws(s.last()) {
        lemma_trim_end_shape(s.drop_last());
        let r = trim_end_seq(s.drop_last());
        assert(s.drop_last().subrange(0, r.len() as int) =~= s.subrange(0, r.len() as int));
    } else {
        assert(s.subrange(0, s.len() as int) =~= s);
    }
}

/// Text whose ends are not white space is its own trim.
pub proof fn lemma_trim_of_trimmed(t: Seq<char>)
    requires
        t.len() == 0 || (!is_ws(t[0]) && !is_ws(t.last())),
    ensures
        trim_seq(t) == t,
{
    assert(trim_start_seq(t) == t);
    assert(trim_end_seq(t) == t);
}

/// Trimming twice is trimming once.
pub proof fn lemma_trim_idempotent(s: Seq<char>)
    ensures
        trim_seq(trim_seq(s)) == trim_seq(s),
{
    let a = trim_start_seq(s);
    let t = trim_end_seq(a);
    lemma_trim_start_shape(s);
    lemma_trim_end_shape(a);
    if t.len() > 0 {
        assert(t[0] == a[0]);
    }
    lemma_trim_of_trimmed(t);
}

/// `s` with every leading and trailing occurrence of `c` removed.
pub open spec fn trim_char_start_seq(s: Seq<char>, c: char) -> Seq<char>
    decreases s.len(),
{
    if s.len() > 0 && s[0] == c {
        trim_char_start_seq(s.drop_first(), c)
    } else {
        s
    }
}

/// `s` with every trailing occurrence of `c` removed.
pub open spec fn trim_char_end_seq(s: Seq<char>, c: char) -> Seq<char>
    decreases s.len(),
{
    if s.len() > 0 && s.last() == c {
        trim_char_end_seq(s.drop_last(), c)
    } else {
        s
    }
}

/// `s` begins with `p`.
pub open spec fn starts_with_seq(s: Seq<char>, p: Seq<char>) -> bool {
    p.len() <= s.len() && s.subrange(0, p.len() as int) == p
}

/// `s` ends with `p`.
pub open spec fn ends_with_seq(s: Seq<char>, p: Seq<char>) -> bool {
    p.len() <= s.len() && s.subrange(s.len() - p.len(), s.len() as int) == p
}

/// The index of the first `c` in `s`, or `s.len()` when there is none.
pub open spec fn find_char(s: Seq<char>, c: char) -> int
    decreases s.len(),
{
    if s.len() == 0 {
        0
    } else if s[0] == c {
        0
    } else {
        1 + find_char(s.drop_first(), c)
    }
}

/// `find_char` lands inside the sequence or just past its end.
pub proof fn lemma_find_char_bounds(s: Seq<char>, c: char)
    ensures
        0 <= find_char(s, c) <= s.len(),
        find_char(s, c) < s.len() ==> s[find_char(s, c)] == c,
        forall|k: int| 0 <= k < find_char(s, c) ==> s[k] != c,
    decreases s.len(),
{
    if s.len() > 0 && s[0] != c {
        lemma_find_char_bounds(s.drop_first(), c);
        assert forall|k: int| 0 <= k < find_char(s, c) implies s[k] != c by {
            if k > 0 {
                assert(s[k] == s.drop_first()[k - 1]);
            }
        }
    }
}

/// What comes before the first `c` (all of `s` when `c` does not occur):
/// the first item of `str::split(c)`.
pub open spec fn before_char(s: Seq<char>, c: char) -> Seq<char> {
    s.subrange(0, find_char(s, c))
}

/// The pieces of `s` between occurrences of `c`, as `str::split(c)` yields them.
pub open spec fn split_seq(s: Seq<char>, c: char) -> Seq<Seq<char>>
    decreases s.len(),
{
    let i = find_char(s, c);
    proof {
        lemma_find_char_bounds(s, c);
    }
    if i >= s.len() {
        seq![s]
    } else {
        seq![s.subrange(0, i)] + split_seq(s.subrange(i + 1, s.len() as int), c)
    }
}

/// ASCII letters are lower-cased; every other character is kept.
pub open spec fn ascii_lower(c: char) -> char {
    if 'A' <= c && c <= 'Z' {
        ((c as u32) + 32) as char
    } else {
        c
    }
}

/// `c` is an ASCII decimal digit.
pub open spec fn is_ascii_digit(c: char) -> bool {
    '0' <= c && c <= '9'
}

/// `c` is an ASCII letter or digit.
pub open spec fn is_ascii_alnum(c: char) -> bool {
    ||| is_ascii_digit(c)
    ||| 'a' <= c && c <= 'z'
    ||| 'A' <= c && c <= 'Z'
}

/// The digits of `s`, in order.
pub open spec fn digits_of(s: Seq<char>) -> Seq<char> {
    s.filter(|c: char| is_ascii_digit(c))
}

/// Equal up to ASCII case, as `str::eq_ignore_ascii_case` compares.
pub open spec fn eq_ignore_ascii_case_seq(a: Seq<char>, b: Seq<char>) -> bool {
    a.len() == b.len() && forall|i: int| 0 <= i < a.len() ==> ascii_lower(#[trigger] a[i]) == ascii_lower(b[i])
}

/// A name for the result of `str::to_lowercase`, which applies the Unicode
/// lower-case mapping; most characters map on their own, but a capital
/// sigma becomes a final sigma at the end of a word, so the mapping looks at
/// context.
pub uninterp spec fn unicode_lowercase(s: Seq<char>) -> Seq<char>;

/// Calls `str::to_lowercase`. The contract names the result
/// `unicode_lowercase` of the input; it is a function of the input alone.
#[verifier::external_body]
pub(crate) fn to_lowercase(s: &str) -> (r: String)
    ensures
        r@ == unicode_lowercase(s@),
{
    s.to_lowercase()
}

/// Calls `FromIterator<&char>` for `String`: the string made of `v`'s
/// characters in order.
#[verifier::external_body]
pub(crate) fn string_from_chars(v: &Vec<char>) -> (r: String)
    ensures
        r@ == v@,
{
    v.iter().collect::<String>()
}

/// The views of a list of strings.
pub open spec fn string_views(v: Seq<String>) -> Seq<Seq<char>> {
    v.map_values(|s: String| s@)
}

/// The view of an optional string.
pub open spec fn opt_string_view(o: Option<String>) -> Option<Seq<char>> {
    match o {
        Some(s) => Some(s@),
        None => None,
    }
}

/// The views of a list of string pairs.
pub open spec fn pair_views(v: Seq<(String, String)>) -> Seq<(Seq<char>, Seq<char>)> {
    v.map_values(|p: (String, String)| (p.0@, p.1@))
}

/// The characters of `s`, in order.
pub fn chars_of(s: &str) -> (v: Vec<char>)
    ensures
        v@ == s@,
{
    broadcast use vstd::string::group_string_axioms;
    let mut v: Vec<char> = Vec::new();
    for c in it: s.chars()
        invariant
            it.seq() == s@,
            v@ == it.seq().take(it.index() as int),
    {
        v.push(c);
        assert(v@ == it.seq().take(it.index() + 1));
    }
    v
}


/// The view of an optional string slice.
pub open spec fn opt_view(o: Option<&str>) -> Option<Seq<char>> {
    match o {
        Some(s) => Some(s@),
        None => None,
    }
}

/// `c` is Unicode white space.
pub fn is_whitespace(c: char) -> (r: bool)
    ensures
        r == is_ws(c),
{
    let u = c as u32;
    (0x09 <= u && u <= 0x0D) || u == 0x20 || u == 0x85 || u == 0xA0 || u == 0x1680 || (0x2000
        <= u && u <= 0x200A) || u == 0x2028 || u == 0x2029 || u == 0x202F || u == 0x205F || u
        == 0x3000
}

/// The characters `v[from..to]` as a string.
pub fn string_from_range(v: &Vec<char>, from: usize, to: usize) -> (r: String)
    requires
        from <= to <= v.len(),
    ensures
        r@ == v@.subrange(from as int, to as int),
{
    let mut out: Vec<char> = Vec::new();
    let mut k = from;
    while k < to
        invariant
            from <= k <= to <= v.len(),
            out@ == v@.subrange(from as int, k as int),
        decreases to - k,
    {
        out.push(v[k]);
        assert(out@ == v@.subrange(from as int, k + 1));
        k = k + 1;
    }
    string_from_chars(&out)
}

proof fn lemma_trim_start_step(s: Seq<char>, i: int)
    requires
        0 <= i < s.len(),
        is_ws(s[i]),
    ensures
        trim_start_seq(s.subrange(i, s.len() as int)) == trim_start_seq(
            s.subrange(i + 1, s.len() as int),
        ),
{
    assert(s.subrange(i, s.len() as int).drop_first() =~= s.subrange(i + 1, s.len() as int));
}

proof fn lemma_trim_end_step(t: Seq<char>, j: int)
    requires
        0 < j <= t.len(),
        is_ws(t[j - 1]),
    ensures
        trim_end_seq(t.subrange(0, j)) == trim_end_seq(t.subrange(0, j - 1)),
{
    assert(t.subrange(0, j).drop_last() =~= t.subrange(0, j - 1));
}

/// The bounds `(i, j)` with `trim_seq(v) == v[i..j]`.
pub fn trim_bounds(v: &Vec<char>) -> (r: (usize, usize))
    ensures
        r.0 <= r.1 <= v.len(),
        v@.subrange(r.0 as int, r.1 as int) == trim_seq(v@),
{
    let n = v.len();
    let mut i: usize = 0;
    assert(v@.subrange(0, n as int) =~= v@);
    while i < n && is_whitespace(v[i])
        invariant
            i <= n == v.len(),
            trim_start_seq(v@) == trim_start_seq(v@.subrange(i as int, n as int)),
        decreases n - i,
    {
        proof {
            lemma_trim_start_step(v@, i as int);
        }
        i = i + 1;
    }
    let ghost t = v@.subrange(i as int, n as int);
    assert(trim_start_seq(v@) == t);
    let mut j: usize = n;
    assert(t.subrange(0, (n - i) as int) =~= t);
    while j > i && is_whitespace(v[j - 1])
        invariant
            i <= j <= n == v.len(),
            t == v@.subrange(i as int, n as int),
            trim_end_seq(t) == trim_end_seq(t.subrange(0, (j - i) as int)),
        decreases j,
    {
        proof {
            assert(t[(j - i) - 1] == v@[j - 1]);
            lemma_trim_end_step(t, (j - i) as int);
        }
        j = j - 1;
    }
    assert(trim_end_seq(t) == t.subrange(0, (j - i) as int));
    assert(t.subrange(0, (j - i) as int) =~= v@.subrange(i as int, j as int));
    (i, j)
}

/// `s` with white space removed at both ends (`str::trim`).
pub fn trim(s: &str) -> (r: String)
    ensures
        r@ == trim_seq(s@),
{
    let v = chars_of(s);
    let (i, j) = trim_bounds(&v);
    string_from_range(&v, i, j)
}

/// Nothing but white space is in `s` (`s.trim().is_empty()`).
pub fn is_blank(s: &str) -> (r: bool)
    ensures
        r == (trim_seq(s@).len() == 0),
{
    let v = chars_of(s);
    let (i, j) = trim_bounds(&v);
    i == j
}

/// `s` has no characters.
pub fn is_empty(s: &str) -> (r: bool)
    ensures
        r == (s@.len() == 0),
{
    s.is_empty()
}

/// The two strings hold the same characters.
pub fn str_eq(a: &str, b: &str) -> (r: bool)
    ensures
        r == (a@ == b@),
{
    let va = chars_of(a);
    let vb = chars_of(b);
    if va.len() != vb.len() {
        return false;
    }
    let mut k: usize = 0;
    while k < va.len()
        invariant
            va@ == a@,
            vb@ == b@,
            va.len() == vb.len(),
            k <= va.len(),
            forall|m: int| 0 <= m < k ==> va@[m] == vb@[m],
        decreases va.len() - k,
    {
        if va[k] != vb[k] {
            return false;
        }
        k = k + 1;
    }
    assert(va@ =~= vb@);
    true
}

/// `v` begins with the characters of `p`.
pub fn chars_start_with(v: &Vec<char>, p: &Vec<char>) -> (r: bool)
    ensures
        r == starts_with_seq(v@, p@),
{
    if p.len() > v.len() {
        return false;
    }
    let mut k: usize = 0;
    while k < p.len()
        invariant
            p.len() <= v.len(),
            k <= p.len(),
            forall|m: int| 0 <= m < k ==> v@[m] == p@[m],
        decreases p.len() - k,
    {
        if v[k] != p[k] {
            assert(v@.subrange(0, p.len() as int)[k as int] != p@[k as int]);
            return false;
        }
        k = k + 1;
    }
    assert(v@.subrange(0, p.len() as int) =~= p@);
    true
}

/// `s` begins with `prefix` (`str::starts_with`).
pub fn starts_with(s: &str, prefix: &str) -> (r: bool)
    ensures
        r == starts_with_seq(s@, prefix@),
{
    let v = chars_of(s);
    let p = chars_of(prefix);
    chars_start_with(&v, &p)
}

/// `s` ends with `suffix` (`str::ends_with`).
pub fn ends_with(s: &str, suffix: &str) -> (r: bool)
    ensures
        r == ends_with_seq(s@, suffix@),
{
    let v = chars_of(s);
    let p = chars_of(suffix);
    if p.len() > v.len() {
        return false;
    }
    let off = v.len() - p.len();
    let mut k: usize = 0;
    while k < p.len()
        invariant
            v@ == s@,
            p@ == suffix@,
            p.len() <= v.len(),
            off == v.len() - p.len(),
            k <= p.len(),
            forall|m: int| 0 <= m < k ==> v@[off + m] == p@[m],
        decreases p.len() - k,
    {
        if v[off + k] != p[k] {
            assert(v@.subrange(off as int, v.len() as int)[k as int] != p@[k as int]);
            return false;
        }
        k = k + 1;
    }
    assert(v@.subrange(off as int, v.len() as int) =~= p@);
    true
}

/// What follows `prefix` in `s`, when `s` begins with it (`str::strip_prefix`).
pub fn strip_prefix(s: &str, prefix: &str) -> (r: Option<String>)
    ensures
        r is Some <==> starts_with_seq(s@, prefix@),
        r matches Some(t) ==> t@ == s@.subrange(prefix@.len() as int, s@.len() as int),
{
    let v = chars_of(s);
    let p = chars_of(prefix);
    if chars_start_with(&v, &p) {
        Some(string_from_range(&v, p.len(), v.len()))
    } else {
        None
    }
}

/// The index of the first `c` in `v`, or `v.len()`.
pub fn find_char_in(v: &Vec<char>, c: char) -> (r: usize)
    ensures
        r as int == find_char(v@, c),
{
    proof {
        lemma_find_char_bounds(v@, c);
    }
    let mut k: usize = 0;
    while k < v.len() && v[k] != c
        invariant
            k <= v.len(),
            forall|m: int| 0 <= m < k ==> v@[m] != c,
            find_char(v@, c) >= k,
            0 <= find_char(v@, c) <= v@.len(),
            find_char(v@, c) < v@.len() ==> v@[find_char(v@, c)] == c,
        decreases v.len() - k,
    {
        k = k + 1;
    }
    k
}

/// The text before the first `c`; all of `s` when there is none
/// (`s.split(c).next()`, which always yields).
pub fn before_first(s: &str, c: char) -> (r: String)
    ensures
        r@ == before_char(s@, c),
{
    let v = chars_of(s);
    let i = find_char_in(&v, c);
    proof {
        lemma_find_char_bounds(v@, c);
    }
    string_from_range(&v, 0, i)
}

/// The pieces of `s` between occurrences of `c` (`str::split`).
pub fn split(s: &str, c: char) -> (r: Vec<String>)
    ensures
        r@.len() == split_seq(s@, c).len(),
        forall|k: int| 0 <= k < r@.len() ==> #[trigger] r@[k]@ == split_seq(s@, c)[k],
{
    let v = chars_of(s);
    let mut out: Vec<String> = Vec::new();
    let mut start: usize = 0;
    let ghost done: Seq<Seq<char>> = Seq::empty();
    assert(v@.subrange(0, v.len() as int) =~= v@);
    assert(done + split_seq(v@, c) =~= split_seq(v@, c));
    loop
        invariant
            v@ == s@,
            start <= v.len(),
            out@.len() == done.len(),
            forall|k: int| 0 <= k < out@.len() ==> #[trigger] out@[k]@ == done[k],
            split_seq(s@, c) == done + split_seq(v@.subrange(start as int, v.len() as int), c),
        decreases v.len() - start,
    {
        let ghost rest = v@.subrange(start as int, v.len() as int);
        let mut k = start;
        while k < v.len() && v[k] != c
            invariant
                start <= k <= v.len(),
                forall|m: int| start <= m < k ==> v@[m] != c,
            decreases v.len() - k,
        {
            k = k + 1;
        }
        proof {
            lemma_find_char_bounds(rest, c);
            if find_char(rest, c) < k - start {
                assert(rest[find_char(rest, c)] == v@[start + find_char(rest, c)]);
            }
            if k < v.len() && find_char(rest, c) > k - start {
                assert(rest[k - start] == v@[k as int]);
            }
            assert(find_char(rest, c) == k - start);
        }
        let piece = string_from_range(&v, start, k);
        if k >= v.len() {
            out.push(piece);
            proof {
                assert(rest.subrange(0, (k - start) as int) =~= rest);
                done = done.push(piece@);
                assert(split_seq(s@, c) == done);
            }
            return out;
        }
        out.push(piece);
        proof {
            assert(rest.subrange(0, (k - start) as int) =~= v@.subrange(start as int, k as int));
            assert(rest.subrange((k - start) + 1, rest.len() as int) =~= v@.subrange(
                k + 1,
                v.len() as int,
            ));
            assert(split_seq(rest, c) == seq![piece@] + split_seq(
                v@.subrange(k + 1, v.len() as int),
                c,
            ));
            let old_done = done;
            done = done.push(piece@);
            assert(old_done + (seq![piece@] + split_seq(v@.subrange(k + 1, v.len() as int), c))
                =~= done + split_seq(v@.subrange(k + 1, v.len() as int), c));
        }
        start = k + 1;
    }
}

/// The ASCII digits of `s`, in order.
pub fn ascii_digits(s: &str) -> (r: String)
    ensures
        r@ == digits_of(s@),
{
    let v = chars_of(s);
    let mut out: Vec<char> = Vec::new();
    let mut k: usize = 0;
    while k < v.len()
        invariant
            v@ == s@,
            k <= v.len(),
            out@ == digits_of(v@.subrange(0, k as int)),
        decreases v.len() - k,
    {
        proof {
            assert(v@.subrange(0, k + 1) =~= v@.subrange(0, k as int).push(v@[k as int]));
            v@.subrange(0, k as int).lemma_filter_push(v@[k as int], |c: char| is_ascii_digit(c));
        }
        if '0' <= v[k] && v[k] <= '9' {
            out.push(v[k]);
        }
        k = k + 1;
    }
    assert(v@.subrange(0, v.len() as int) =~= v@);
    string_from_chars(&out)
}

/// Lower-cases an ASCII letter; any other character is returned unchanged.
pub fn to_ascii_lower(c: char) -> (r: char)
    ensures
        r == ascii_lower(c),
{
    if 'A' <= c && c <= 'Z' {
        let u = (c as u32) + 32;
        let r = char_from_ascii_code(u);
        r
    } else {
        c
    }
}

fn char_from_ascii_code(u: u32) -> (r: char)
    requires
        0x61 <= u <= 0x7A,
    ensures
        r == u as char,
{
    // Every code here is one of the 26 lower-case letters.
    let table: [char; 26] = [
        'a', 'b', 'c', 'd', 'e', 'f', 'g', 'h', 'i', 'j', 'k', 'l', 'm', 'n', 'o', 'p', 'q', 'r',
        's', 't', 'u', 'v', 'w', 'x', 'y', 'z',
    ];
    let i = (u - 0x61) as usize;
    let r = table[i];
    assert(r == u as char) by {
        assert(table@[i as int] as u32 == 0x61 + i);
    }
    r
}

/// Equal up to ASCII case (`str::eq_ignore_ascii_case`).
pub fn eq_ignore_ascii_case(a: &str, b: &str) -> (r: bool)
    ensures
        r == eq_ignore_ascii_case_seq(a@, b@),
{
    let va = chars_of(a);
    let vb = chars_of(b);
    if va.len() != vb.len() {
        return false;
    }
    let mut k: usize = 0;
    while k < va.len()
        invariant
            va@ == a@,
            vb@ == b@,
            va.len() == vb.len(),
            k <= va.len(),
            forall|m: int| 0 <= m < k ==> ascii_lower(#[trigger] va@[m]) == ascii_lower(vb@[m]),
        decreases va.len() - k,
    {
        if to_ascii_lower(va[k]) != to_ascii_lower(vb[k]) {
            return false;
        }
        k = k + 1;
    }
    true
}

/// `s` holds some white space character (`str::contains(char::is_whitespace)`).
pub fn contains_whitespace(s: &str) -> (r: bool)
    ensures
        r == exists|k: int| 0 <= k < s@.len() && is_ws(#[trigger] s@[k]),
{
    let v = chars_of(s);
    let mut k: usize = 0;
    while k < v.len()
        invariant
            v@ == s@,
            k <= v.len(),
            forall|m: int| 0 <= m < k ==> !is_ws(#[trigger] v@[m]),
        decreases v.len() - k,
    {
        if is_whitespace(v[k]) {
            return true;
        }
        k = k + 1;
    }
    false
}

/// `s` with every leading and trailing `c` removed (`str::trim_matches(c)`).
pub fn trim_char(s: &str, c: char) -> (r: String)
    ensures
        r@ == trim_char_end_seq(trim_char_start_seq(s@, c), c),
{
    let v = chars_of(s);
    let n = v.len();
    let mut i: usize = 0;
    assert(v@.subrange(0, n as int) =~= v@);
    while i < n && v[i] == c
        invariant
            v@ == s@,
            i <= n == v.len(),
            trim_char_start_seq(v@, c) == trim_char_start_seq(v@.subrange(i as int, n as int), c),
        decreases n - i,
    {
        assert(v@.subrange(i as int, n as int).drop_first() =~= v@.subrange(i + 1, n as int));
        i = i + 1;
    }
    let ghost t = v@.subrange(i as int, n as int);
    let mut j: usize = n;
    assert(t.subrange(0, (n - i) as int) =~= t);
    while j > i && v[j - 1] == c
        invariant
            v@ == s@,
            i <= j <= n == v.len(),
            t == v@.subrange(i as int, n as int),
            trim_char_end_seq(t, c) == trim_char_end_seq(t.subrange(0, (j - i) as int), c),
        decreases j,
    {
        assert(t.subrange(0, (j - i) as int).drop_last() =~= t.subrange(0, (j - i) - 1));
        j = j - 1;
    }
    assert(t.subrange(0, (j - i) as int) =~= v@.subrange(i as int, j as int));
    string_from_range(&v, i, j)
}

/// `s` with every trailing `c` removed (`str::trim_end_matches(c)`).
pub fn trim_end_char(s: &str, c: char) -> (r: String)
    ensures
        r@ == trim_char_end_seq(s@, c),
{
    let v = chars_of(s);
    let mut j: usize = v.len();
    assert(v@.subrange(0, j as int) =~= v@);
    while j > 0 && v[j - 1] == c
        invariant
            v@ == s@,
            j <= v.len(),
            trim_char_end_seq(v@, c) == trim_char_end_seq(v@.subrange(0, j as int), c),
        decreases j,
    {
        assert(v@.subrange(0, j as int).drop_last() =~= v@.subrange(0, j - 1));
        j = j - 1;
    }
    string_from_range(&v, 0, j)
}

/// An owned copy of `s`.
pub fn to_owned(s: &str) -> (r: String)
    ensures
        r@ == s@,
{
    s.to_owned()
}

/// `a` followed by `b`.
pub fn concat(a: &str, b: &str) -> (r: String)
    ensures
        r@ == a@ + b@,
{
    let mut out = a.to_owned();
    out.append(b);
    out
}

} // verus!
