//! Character-level text operations used by the engine: trimming, prefix and
//! substring tests, pattern replacement and joining, each specified over the
//! `Seq<char>` view of a string.
use vstd::prelude::*;
use vstd::string::*;

verus! {

// ---------------------------------------------------------------------------
// Specifications
// ---------------------------------------------------------------------------

/// The Unicode `White_Space` property, which `char::is_whitespace` tests.
pub open spec fn is_white_space(c: char) -> bool {
    let u = c as u32;
    ||| 0x9 <= u <= 0xd
    ||| u == 0x20
    ||| u == 0x85
    ||| u == 0xa0
    ||| u == 0x1680
    ||| 0x2000 <= u <= 0x200a
    ||| u == 0x2028
    ||| u == 0x2029
    ||| u == 0x202f
    ||| u == 0x205f
    ||| u == 0x3000
}

/// `s` without its leading white space.
pub open spec fn trim_start_ws(s: Seq<char>) -> Seq<char>
    decreases s.len(),
{
    if s.len() > 0 && is_white_space(s[0]) {
        trim_start_ws(s.drop_first())
    } else {
        s
    }
}

/// `s` without its trailing white space.
pub open spec fn trim_end_ws(s: Seq<char>) -> Seq<char>
    decreases s.len(),
{
    if s.len() > 0 && is_white_space(s.last()) {
        trim_end_ws(s.drop_last())
    } else {
        s
    }
}

/// `s` without leading and trailing white space (`str::trimmed`).
pub open spec fn trimmed(s: Seq<char>) -> Seq<char> {
    trim_end_ws(trim_start_ws(s))
}

/// `p` is a prefix of `s`.
pub open spec fn has_prefix(s: Seq<char>, p: Seq<char>) -> bool {
    p.len() <= s.len() && s.subrange(0, p.len() as int) == p
}

/// `p` is a suffix of `s`.
pub open spec fn has_suffix(s: Seq<char>, p: Seq<char>) -> bool {
    p.len() <= s.len() && s.subrange(s.len() - p.len(), s.len() as int) == p
}

/// `p` occurs in `s` starting at index `i`.
pub open spec fn occurs_at(s: Seq<char>, p: Seq<char>, i: int) -> bool {
    0 <= i && i + p.len() <= s.len() && s.subrange(i, i + p.len()) == p
}

/// `p` occurs somewhere in `s` (`str::includes` with a string pattern).
pub open spec fn includes(s: Seq<char>, p: Seq<char>) -> bool {
    exists|i: int| occurs_at(s, p, i)
}

/// Every occurrence of `p` in `s`, scanned left to right without overlap,
/// replaced by `r` (`str::replace` with a non-empty pattern).
pub open spec fn replace_all(s: Seq<char>, p: Seq<char>, r: Seq<char>) -> Seq<char>
    decreases s.len(),
{
    if s.len() == 0 {
        s
    } else if p.len() > 0 && occurs_at(s, p, 0) {
        r + replace_all(s.skip(p.len() as int), p, r)
    } else {
        seq![s[0]] + replace_all(s.skip(1), p, r)
    }
}

/// `s` with every leading repetition of `p` removed (`str::trim_start_matches`).
pub open spec fn without_prefixes(s: Seq<char>, p: Seq<char>) -> Seq<char>
    decreases s.len(),
{
    if p.len() > 0 && has_prefix(s, p) {
        without_prefixes(s.skip(p.len() as int), p)
    } else {
        s
    }
}

/// The pieces of `parts` with `sep` between each two neighbours.
pub open spec fn joined(parts: Seq<Seq<char>>, sep: Seq<char>) -> Seq<char>
    decreases parts.len(),
{
    if parts.len() == 0 {
        Seq::empty()
    } else if parts.len() == 1 {
        parts[0]
    } else {
        joined(parts.drop_last(), sep) + sep + parts.last()
    }
}

/// The views of a sequence of strings.
pub open spec fn strings_view(v: Seq<String>) -> Seq<Seq<char>> {
    v.map_values(|s: String| s@)
}

/// The view of an optional string.
pub open spec fn opt_view(o: Option<String>) -> Option<Seq<char>> {
    match o {
        Some(s) => Some(s@),
        None => None,
    }
}

/// The full Unicode lower-case mapping of a text, as `str::to_lowercase`
/// computes it.
pub uninterp spec fn lowercase(s: Seq<char>) -> Seq<char>;

/// The full Unicode upper-case mapping of a text, as `str::to_uppercase`
/// computes it.
pub uninterp spec fn uppercase(s: Seq<char>) -> Seq<char>;

// ---------------------------------------------------------------------------
// Trusted std calls
// ---------------------------------------------------------------------------

/// `String::push`: the character is added at the end.
#[verifier::external_body]
pub(crate) fn push_char(s: &mut String, c: char)
    ensures
        final(s)@ == old(s)@.push(c),
{
    s.push(c);
}

/// `str::to_lowercase`: its result is the Unicode lower-case mapping of the
/// argument, named `lowercase`; the mapping itself is not written out here.
#[verifier::external_body]
pub(crate) fn to_lowercase(s: &str) -> (r: String)
    ensures
        r@ == lowercase(s@),
{
    s.to_lowercase()
}

/// `str::to_uppercase`: its result is the Unicode upper-case mapping of the
/// argument, named `uppercase`; the mapping itself is not written out here.
#[verifier::external_body]
pub(crate) fn to_uppercase(s: &str) -> (r: String)
    ensures
        r@ == uppercase(s@),
{
    s.to_uppercase()
}

// ---------------------------------------------------------------------------
// Lemmas
// ---------------------------------------------------------------------------

/// Every character of `w` is white space.
pub open spec fn all_white_space(w: Seq<char>) -> bool {
    forall|k: int| 0 <= k < w.len() ==> is_white_space(#[trigger] w[k])
}

proof fn lemma_trim_start_leading(w: Seq<char>, x: Seq<char>)
    requires
        all_white_space(w),
    ensures
        trim_start_ws(w + x) == trim_start_ws(x),
    decreases w.len(),
{
    if w.len() > 0 {
        assert((w + x)[0] == w[0]);
        assert((w + x).drop_first() =~= w.drop_first() + x);
        lemma_trim_start_leading(w.drop_first(), x);
    } else {
        assert(w + x =~= x);
    }
}

proof fn lemma_trim_end_trailing(y: Seq<char>, w: Seq<char>)
    requires
        all_white_space(w),
    ensures
        trim_end_ws(y + w) == trim_end_ws(y),
    decreases w.len(),
{
    if w.len() > 0 {
        assert((y + w).last() == w.last());
        assert((y + w).drop_last() =~= y + w.drop_last());
        lemma_trim_end_trailing(y, w.drop_last());
    } else {
        assert(y + w =~= y);
    }
}

proof fn lemma_trim_start_append(s: Seq<char>, w: Seq<char>)
    requires
        all_white_space(w),
    ensures
        trim_start_ws(s).len() > 0 ==> trim_start_ws(s + w) == trim_start_ws(s) + w,
        trim_start_ws(s).len() == 0 ==> all_white_space(trim_start_ws(s + w)),
    decreases s.len(),
{
    if s.len() == 0 {
        assert(s + w =~= w);
        lemma_trim_start_of_white(w);
    } else if is_white_space(s[0]) {
        assert((s + w)[0] == s[0]);
        assert((s + w).drop_first() =~= s.drop_first() + w);
        lemma_trim_start_append(s.drop_first(), w);
    } else {
        assert((s + w)[0] == s[0]);
    }
}

proof fn lemma_trim_start_of_white(w: Seq<char>)
    requires
        all_white_space(w),
    ensures
        all_white_space(trim_start_ws(w)),
        trim_start_ws(w).len() == 0,
    decreases w.len(),
{
    if w.len() > 0 {
        assert(all_white_space(w.drop_first()));
        lemma_trim_start_of_white(w.drop_first());
    }
}

proof fn lemma_trim_end_of_white(w: Seq<char>)
    requires
        all_white_space(w),
    ensures
        trim_end_ws(w).len() == 0,
    decreases w.len(),
{
    if w.len() > 0 {
        assert(all_white_space(w.drop_last()));
        lemma_trim_end_of_white(w.drop_last());
    }
}

/// White space around a text changes nothing of it once trimmed.
pub proof fn law_trim_ignores_surrounding_white_space(w1: Seq<char>, s: Seq<char>, w2: Seq<char>)
    requires
        all_white_space(w1),
        all_white_space(w2),
    ensures
        trimmed(w1 + s + w2) == trimmed(s),
{
    assert(w1 + s + w2 =~= w1 + (s + w2));
    lemma_trim_start_leading(w1, s + w2);
    lemma_trim_start_append(s, w2);
    if trim_start_ws(s).len() > 0 {
        lemma_trim_end_trailing(trim_start_ws(s), w2);
    } else {
        lemma_trim_end_of_white(trim_start_ws(s + w2));
        assert(trim_start_ws(s) =~= Seq::<char>::empty());
    }
}

proof fn lemma_trim_start_at(s: Seq<char>, i: int)
    requires
        0 <= i <= s.len(),
        forall|k: int| 0 <= k < i ==> is_white_space(#[trigger] s[k]),
        i == s.len() || !is_white_space(s[i]),
    ensures
        trim_start_ws(s) == s.skip(i),
    decreases i,
{
    if i == 0 {
        assert(s.skip(0) =~= s);
    } else {
        let t = s.drop_first();
        assert forall|k: int| 0 <= k < i - 1 implies is_white_space(#[trigger] t[k]) by {
            assert(t[k] == s[k + 1]);
        }
        lemma_trim_start_at(t, i - 1);
        assert(t.skip(i - 1) =~= s.skip(i));
    }
}

proof fn lemma_trim_end_at(s: Seq<char>, j: int)
    requires
        0 <= j <= s.len(),
        forall|k: int| j <= k < s.len() ==> is_white_space(#[trigger] s[k]),
        j == 0 || !is_white_space(s[j - 1]),
    ensures
        trim_end_ws(s) == s.take(j),
    decreases s.len() - j,
{
    if j == s.len() {
        assert(s.take(j) =~= s);
    } else {
        let t = s.drop_last();
        assert forall|k: int| j <= k < t.len() implies is_white_space(#[trigger] t[k]) by {
            assert(t[k] == s[k]);
        }
        lemma_trim_end_at(t, j);
        assert(t.take(j) =~= s.take(j));
    }
}

proof fn lemma_replace_all_step(s: Seq<char>, p: Seq<char>, r: Seq<char>, i: int)
    requires
        0 <= i < s.len(),
        p.len() > 0,
    ensures
        occurs_at(s, p, i) ==> replace_all(s.skip(i), p, r) == r + replace_all(
            s.skip(i + p.len()),
            p,
            r,
        ),
        !occurs_at(s, p, i) ==> replace_all(s.skip(i), p, r) == seq![s[i]] + replace_all(
            s.skip(i + 1),
            p,
            r,
        ),
{
    let t = s.skip(i);
    assert(t.len() > 0);
    if occurs_at(s, p, i) {
        assert(t.subrange(0, p.len() as int) =~= s.subrange(i, i + p.len()));
        assert(occurs_at(t, p, 0));
        assert(t.skip(p.len() as int) =~= s.skip(i + p.len()));
    } else {
        if occurs_at(t, p, 0) {
            assert(t.subrange(0, p.len() as int) =~= s.subrange(i, i + p.len()));
        }
        assert(t.skip(1) =~= s.skip(i + 1));
        assert(t[0] == s[i]);
    }
}

proof fn lemma_strip_prefixes_step(s: Seq<char>, p: Seq<char>, i: int)
    requires
        0 <= i <= s.len(),
        p.len() > 0,
    ensures
        occurs_at(s, p, i) ==> without_prefixes(s.skip(i), p) == without_prefixes(
            s.skip(i + p.len()),
            p,
        ),
        !occurs_at(s, p, i) ==> without_prefixes(s.skip(i), p) == s.skip(i),
{
    let t = s.skip(i);
    if occurs_at(s, p, i) {
        assert(t.subrange(0, p.len() as int) =~= s.subrange(i, i + p.len()));
        assert(t.skip(p.len() as int) =~= s.skip(i + p.len()));
    } else {
        if has_prefix(t, p) {
            assert(t.subrange(0, p.len() as int) =~= s.subrange(i, i + p.len()));
        }
    }
}

// ---------------------------------------------------------------------------
// Executable operations
// ---------------------------------------------------------------------------

/// The characters of `s`, in order.
pub fn chars_of(s: &str) -> (r: Vec<char>)
    ensures
        r@ == s@,
{
    let mut r: Vec<char> = Vec::new();
    for c in it: s.chars()
        invariant
            r@ == it.seq().take(it.index() as int),
    {
        r.push(c);
    }
    r
}

/// The string made of `v[lo..hi]`.
pub fn string_of(v: &Vec<char>, lo: usize, hi: usize) -> (r: String)
    requires
        lo <= hi <= v@.len(),
    ensures
        r@ == v@.subrange(lo as int, hi as int),
{
    let mut r = String::new();
    let mut i = lo;
    while i < hi
        invariant
            lo <= i <= hi <= v@.len(),
            r@ == v@.subrange(lo as int, i as int),
        decreases hi - i,
    {
        push_char(&mut r, v[i]);
        assert(v@.subrange(lo as int, i + 1) =~= v@.subrange(lo as int, i as int).push(v@[i as int]));
        i = i + 1;
    }
    r
}

/// A copy of `s`.
pub fn copy_str(s: &str) -> (r: String)
    ensures
        r@ == s@,
{
    s.to_owned()
}

/// Appends `t` to `s`.
pub fn push_str(s: &mut String, t: &str)
    ensures
        final(s)@ == old(s)@ + t@,
{
    s.append(t);
}

/// `char::is_whitespace`.
pub fn is_whitespace(c: char) -> (r: bool)
    ensures
        r == is_white_space(c),
{
    let u = c as u32;
    (0x9 <= u && u <= 0xd) || u == 0x20 || u == 0x85 || u == 0xa0 || u == 0x1680 || (0x2000
        <= u && u <= 0x200a) || u == 0x2028 || u == 0x2029 || u == 0x202f || u == 0x205f || u
        == 0x3000
}

/// `str::trim`: `s` without leading and trailing white space.
pub fn trim(s: &str) -> (r: String)
    ensures
        r@ == trimmed(s@),
{
    let v = chars_of(s);
    let n = v.len();
    let mut i: usize = 0;
    while i < n && is_whitespace(v[i])
        invariant
            i <= n == v@.len(),
            forall|k: int| 0 <= k < i ==> is_white_space(#[trigger] v@[k]),
        decreases n - i,
    {
        i = i + 1;
    }
    proof {
        lemma_trim_start_at(v@, i as int);
    }
    let ghost u = v@.skip(i as int);
    let mut j: usize = n;
    while j > i && is_whitespace(v[j - 1])
        invariant
            i <= j <= n == v@.len(),
            forall|k: int| j <= k < n ==> is_white_space(#[trigger] v@[k]),
        decreases j - i,
    {
        j = j - 1;
    }
    proof {
        assert forall|k: int| j - i <= k < u.len() implies is_white_space(#[trigger] u[k]) by {
            assert(u[k] == v@[k + i]);
        }
        if j > i {
            assert(u[j - i - 1] == v@[j - 1]);
        }
        lemma_trim_end_at(u, j - i);
        assert(u.take(j - i) =~= v@.subrange(i as int, j as int));
    }
    string_of(&v, i, j)
}

/// Whether `p` occurs in `s` at index `i`.
pub fn matches_at(s: &Vec<char>, p: &Vec<char>, i: usize) -> (r: bool)
    ensures
        r == occurs_at(s@, p@, i as int),
{
    if p.len() > s.len() || i > s.len() - p.len() {
        return false;
    }
    let n = s.len();
    let mut k: usize = 0;
    while k < p.len()
        invariant
            k <= p@.len(),
            n == s@.len(),
            i + p@.len() <= n,
            forall|m: int| 0 <= m < k ==> s@[i + m] == p@[m],
        decreases p.len() - k,
    {
        if s[i + k] != p[k] {
            proof {
                if occurs_at(s@, p@, i as int) {
                    assert(s@.subrange(i as int, i + p@.len())[k as int] == s@[i + k]);
                }
            }
            return false;
        }
        k = k + 1;
    }
    assert(s@.subrange(i as int, i + p@.len()) =~= p@);
    true
}

/// `str::starts_with` with a string pattern.
pub fn starts_with(s: &str, p: &str) -> (r: bool)
    ensures
        r == has_prefix(s@, p@),
{
    let a = chars_of(s);
    let b = chars_of(p);
    matches_at(&a, &b, 0)
}

/// `str::ends_with` with a string pattern.
pub fn ends_with(s: &str, p: &str) -> (r: bool)
    ensures
        r == has_suffix(s@, p@),
{
    let a = chars_of(s);
    let b = chars_of(p);
    if b.len() > a.len() {
        return false;
    }
    matches_at(&a, &b, a.len() - b.len())
}

/// `str::contains` with a string pattern.
pub fn contains(s: &str, p: &str) -> (r: bool)
    ensures
        r == includes(s@, p@),
{
    let a = chars_of(s);
    let b = chars_of(p);
    if b.len() > a.len() {
        proof {
            assert forall|i: int| !occurs_at(a@, b@, i) by {}
        }
        return false;
    }
    let last = a.len() - b.len();
    let mut i: usize = 0;
    while i <= last
        invariant
            last + b@.len() == a@.len(),
            a@ == s@,
            b@ == p@,
            forall|k: int| 0 <= k < i ==> !occurs_at(a@, b@, k),
        decreases last - i,
    {
        if matches_at(&a, &b, i) {
            assert(occurs_at(s@, p@, i as int));
            return true;
        }
        if i == last {
            proof {
                assert forall|k: int| !occurs_at(s@, p@, k) by {
                    if 0 <= k <= last as int {
                        assert(!occurs_at(a@, b@, k));
                    }
                }
            }
            return false;
        }
        i = i + 1;
    }
    false
}

/// Whether two texts are equal.
pub fn str_eq(s: &str, t: &str) -> (r: bool)
    ensures
        r == (s@ == t@),
{
    let a = chars_of(s);
    let b = chars_of(t);
    if a.len() != b.len() {
        return false;
    }
    let r = matches_at(&a, &b, 0);
    proof {
        assert(a@.subrange(0, b@.len() as int) =~= a@);
    }
    r
}

/// `str::replace` with a non-empty pattern.
pub fn replace(s: &str, p: &str, r: &str) -> (out: String)
    requires
        p@.len() > 0,
    ensures
        out@ == replace_all(s@, p@, r@),
{
    let a = chars_of(s);
    let b = chars_of(p);
    let mut out = String::new();
    let mut i: usize = 0;
    assert(a@.skip(0) =~= a@);
    assert(out@ + replace_all(a@, b@, r@) =~= replace_all(a@, b@, r@));
    while i < a.len()
        invariant
            i <= a@.len(),
            b@ == p@,
            b@.len() > 0,
            out@ + replace_all(a@.skip(i as int), b@, r@) == replace_all(a@, b@, r@),
        decreases a.len() - i,
    {
        proof {
            lemma_replace_all_step(a@, b@, r@, i as int);
        }
        if matches_at(&a, &b, i) {
            let ghost before = out@;
            push_str(&mut out, r);
            assert(before + (r@ + replace_all(a@.skip(i + b@.len()), b@, r@)) =~= out@
                + replace_all(a@.skip(i + b@.len()), b@, r@));
            i = i + b.len();
        } else {
            let ghost before = out@;
            push_char(&mut out, a[i]);
            assert(before + (seq![a@[i as int]] + replace_all(a@.skip(i + 1), b@, r@)) =~= out@
                + replace_all(a@.skip(i + 1), b@, r@));
            i = i + 1;
        }
    }
    assert(a@.skip(i as int).len() == 0);
    assert(out@ + replace_all(a@.skip(i as int), b@, r@) =~= out@);
    out
}

/// `str::trim_start_matches` with a string pattern.
pub fn trim_start_matches(s: &str, p: &str) -> (out: String)
    ensures
        out@ == without_prefixes(s@, p@),
{
    let a = chars_of(s);
    let b = chars_of(p);
    if b.len() == 0 {
        return string_of(&a, 0, a.len());
    }
    let mut i: usize = 0;
    assert(a@.skip(0) =~= a@);
    while i < a.len() && matches_at(&a, &b, i)
        invariant
            i <= a@.len(),
            b@ == p@,
            b@.len() > 0,
            without_prefixes(a@.skip(i as int), b@) == without_prefixes(a@, b@),
        decreases a.len() - i,
    {
        proof {
            lemma_strip_prefixes_step(a@, b@, i as int);
        }
        i = i + b.len();
    }
    proof {
        lemma_strip_prefixes_step(a@, b@, i as int);
        if i == a.len() {
            assert(a@.skip(i as int).len() == 0);
        }
    }
    assert(a@.skip(i as int) =~= a@.subrange(i as int, a@.len() as int));
    string_of(&a, i, a.len())
}

/// The pieces of `parts` joined with `sep` (`[String]::join`).
pub fn join(parts: &Vec<String>, sep: &str) -> (r: String)
    ensures
        r@ == joined(strings_view(parts@), sep@),
{
    let mut r = String::new();
    let mut i: usize = 0;
    while i < parts.len()
        invariant
            i <= parts@.len(),
            r@ == joined(strings_view(parts@).take(i as int), sep@),
        decreases parts.len() - i,
    {
        let ghost t = strings_view(parts@).take(i + 1);
        assert(t.drop_last() =~= strings_view(parts@).take(i as int));
        if i > 0 {
            push_str(&mut r, sep);
        } else {
            assert(strings_view(parts@).take(0) =~= Seq::<Seq<char>>::empty());
        }
        push_str(&mut r, parts[i].as_str());
        i = i + 1;
    }
    assert(strings_view(parts@).take(parts@.len() as int) =~= strings_view(parts@));
    r
}

} // verus!
