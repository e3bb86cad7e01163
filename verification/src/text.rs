//! Case-insensitive matching of room names and identifiers, and the
//! character helpers the rest of the library builds on.
use vstd::prelude::*;
use vstd::string::StringSliceAdditionalSpecFns;

verus! {

/// The characters of a string slice, in order.
pub fn chars_of(s: &str) -> (r: Vec<char>)
    ensures
        r@ == s@,
{
    let mut r: Vec<char> = Vec::new();
    for c in it: s.chars()
        invariant
            r@ == it.seq().take(it.index()),
            it.seq() == s@,
    {
        r.push(c);
    }
    r
}

/// What `str::to_lowercase` gives for a string: its Unicode lowercase mapping.
pub uninterp spec fn unicode_lowercase(s: Seq<char>) -> Seq<char>;

/// What `char::to_lowercase` yields for one character (one to three characters).
pub uninterp spec fn char_lowercase(c: char) -> Seq<char>;

/// Calls `str::to_lowercase`; the result is the Unicode lowercase mapping of
/// `s`, a function of `s` alone.
#[verifier::external_body]
pub(crate) fn str_to_lowercase(s: &str) -> (r: String)
    ensures
        r@ == unicode_lowercase(s@),
{
    s.to_lowercase()
}

/// Calls `char::to_lowercase` and collects the characters it yields; they
/// depend on `c` alone. For an ASCII character they are its ASCII lowercase:
/// std's documentation of `char::to_ascii_lowercase` names `to_lowercase` as
/// the way to lowercase ASCII characters as well as non-ASCII ones, and
/// Unicode maps exactly `A`..`Z` of ASCII, to `a`..`z`.
#[verifier::external_body]
fn char_to_lowercase(c: char) -> (r: Vec<char>)
    ensures
        r@ == char_lowercase(c),
        (c as u32) < 128 ==> r@ == seq![ascii_lower_char(c)],
{
    c.to_lowercase().collect()
}

/// Builds a `String` from characters with `FromIterator<char>`; the string
/// holds exactly those characters.
#[verifier::external_body]
pub(crate) fn string_from_chars(cs: &[char]) -> (r: String)
    ensures
        r@ == cs@,
{
    cs.iter().collect()
}

/// Compares two string slices with `str`'s `==`: equal exactly when they hold
/// the same characters.
#[verifier::external_body]
pub(crate) fn str_eq(a: &str, b: &str) -> (r: bool)
    ensures
        r == (a@ == b@),
{
    a == b
}

/// ASCII lowercase of one byte, as `u8::to_ascii_lowercase` defines it.
pub open spec fn ascii_lower(b: u8) -> u8 {
    if 65 <= b <= 90 {
        (b + 32) as u8
    } else {
        b
    }
}

/// The ASCII lowercase of an ASCII character.
pub open spec fn ascii_lower_char(c: char) -> char {
    ascii_lower(c as u8) as char
}

/// For each ASCII character of `s`, its lowercase mapping is known to be its
/// ASCII lowercase (from the calls that lowercased it).
pub open spec fn ascii_lowercase_known(s: Seq<char>) -> bool {
    forall|k: int|
        0 <= k < s.len() && (s[k] as u32) < 128 ==> char_lowercase(#[trigger] s[k]) == seq![
            ascii_lower_char(s[k]),
        ]
}

fn ascii_lower_byte(b: u8) -> (r: u8)
    ensures
        r == ascii_lower(b),
{
    if 65 <= b && b <= 90 {
        b + 32
    } else {
        b
    }
}

/// `q` occurs in `h` at byte offset `i`, bytes compared ignoring ASCII case.
pub open spec fn ascii_ci_match_at(h: Seq<u8>, q: Seq<u8>, i: int) -> bool {
    &&& 0 <= i
    &&& i + q.len() <= h.len()
    &&& forall|j: int| 0 <= j < q.len() ==> ascii_lower(#[trigger] h[i + j]) == ascii_lower(q[j])
}

/// `q` occurs somewhere in `h`, bytes compared ignoring ASCII case.
pub open spec fn ascii_ci_contains(h: Seq<u8>, q: Seq<u8>) -> bool {
    exists|i: int| ascii_ci_match_at(h, q, i)
}

/// `q` occurs in `h` as a contiguous run of characters starting at `i`.
pub open spec fn occurs_at(h: Seq<char>, q: Seq<char>, i: int) -> bool {
    &&& 0 <= i
    &&& i + q.len() <= h.len()
    &&& h.subrange(i, i + q.len()) == q
}

/// `q` occurs in `h` as a contiguous run of characters.
pub open spec fn seq_contains(h: Seq<char>, q: Seq<char>) -> bool {
    exists|i: int| occurs_at(h, q, i)
}

/// What `contains_ignore_ascii_case` answers for a haystack and a query.
pub open spec fn contains_ignore_ascii_case_spec(
    haystack: Seq<char>,
    query: Seq<char>,
    fallback: Option<Seq<char>>,
) -> bool {
    if query.len() == 0 {
        true
    } else if vstd::utf8::is_ascii_chars(query) {
        ascii_ci_contains(vstd::utf8::encode_utf8(haystack), vstd::utf8::encode_utf8(query))
    } else {
        match fallback {
            Some(ql) => seq_contains(unicode_lowercase(haystack), ql),
            None => seq_contains(unicode_lowercase(haystack), unicode_lowercase(query)),
        }
    }
}

fn ascii_ci_match_at_exec(h: &[u8], q: &[u8], i: usize) -> (r: bool)
    requires
        i + q@.len() <= h@.len(),
    ensures
        r == ascii_ci_match_at(h@, q@, i as int),
{
    let hl = h.len();
    let mut j: usize = 0;
    while j < q.len()
        invariant
            hl == h@.len(),
            i + q@.len() <= h@.len(),
            j <= q@.len(),
            forall|k: int| 0 <= k < j ==> ascii_lower(#[trigger] h@[i + k]) == ascii_lower(q@[k]),
        decreases q@.len() - j,
    {
        if ascii_lower_byte(h[i + j]) != ascii_lower_byte(q[j]) {
            assert(!(ascii_lower(h@[i + j as int]) == ascii_lower(q@[j as int])));
            return false;
        }
        j = j + 1;
    }
    true
}

/// Whether `needle` occurs in `hay` at position `i`.
pub fn occurs_at_exec(hay: &Vec<char>, needle: &Vec<char>, i: usize) -> (r: bool)
    requires
        i + needle@.len() <= hay@.len(),
    ensures
        r == occurs_at(hay@, needle@, i as int),
{
    let hl = hay.len();
    let mut j: usize = 0;
    while j < needle.len()
        invariant
            hl == hay@.len(),
            i + needle@.len() <= hay@.len(),
            j <= needle@.len(),
            forall|k: int| 0 <= k < j ==> hay@[i + k] == needle@[k],
        decreases needle@.len() - j,
    {
        if hay[i + j] != needle[j] {
            assert(hay@.subrange(i as int, i + needle@.len())[j as int] != needle@[j as int]);
            return false;
        }
        j = j + 1;
    }
    assert(hay@.subrange(i as int, i + needle@.len()) =~= needle@);
    true
}

/// Whether `needle` occurs as a contiguous run of characters in `hay`.
pub fn contains_chars(hay: &Vec<char>, needle: &Vec<char>) -> (r: bool)
    ensures
        r == seq_contains(hay@, needle@),
{
    if needle.len() == 0 {
        assert(hay@.subrange(0, 0) =~= needle@);
        assert(occurs_at(hay@, needle@, 0));
        return true;
    }
    if needle.len() > hay.len() {
        assert(!seq_contains(hay@, needle@));
        return false;
    }
    let hl = hay.len();
    let last = hl - needle.len();
    let mut i: usize = 0;
    while i <= last
        invariant
            hl == hay@.len(),
            last + needle@.len() == hay@.len(),
            needle@.len() >= 1,
            i <= last + 1,
            forall|k: int| 0 <= k < i ==> !occurs_at(hay@, needle@, k),
        decreases last + 1 - i,
    {
        if occurs_at_exec(hay, needle, i) {
            assert(occurs_at(hay@, needle@, i as int));
            return true;
        }
        i = i + 1;
    }
    assert forall|k: int| !occurs_at(hay@, needle@, k) by {
        if 0 <= k && k + needle@.len() <= hay@.len() {
            assert(k < i);
        }
    }
    false
}

/// Whether `query` occurs in `haystack`, ignoring case.
///
/// An empty query matches everything. An ASCII query is compared with the
/// haystack's UTF-8 bytes ignoring ASCII case, without allocating. Otherwise
/// the haystack is lowercased (Unicode) and searched for `query_lower_fallback`
/// when given (the caller's lowercase of the query), else for the lowercase of
/// `query`.
pub fn contains_ignore_ascii_case(
    haystack: &str,
    query: &str,
    query_lower_fallback: Option<&str>,
) -> (r: bool)
    ensures
        r == contains_ignore_ascii_case_spec(
            haystack@,
            query@,
            match query_lower_fallback {
                Some(q) => Some(q@),
                None => None,
            },
        ),
{
    if query.is_empty() {
        return true;
    }
    if query.is_ascii() {
        let q = query.as_bytes();
        let h = haystack.as_bytes();
        let query_len = q.len();
        if h.len() < query_len {
            assert(!ascii_ci_contains(h@, q@));
            return false;
        }
        let hl = h.len();
        let last = hl - query_len;
        let mut i: usize = 0;
        while i <= last
            invariant
                hl == h@.len(),
                vstd::string::is_ascii(query),
                query@.len() != 0,
                last + q@.len() == h@.len(),
                q@.len() >= 1,
                i <= last + 1,
                q@ == query.spec_bytes(),
                h@ == haystack.spec_bytes(),
                forall|k: int| 0 <= k < i ==> !ascii_ci_match_at(h@, q@, k),
            decreases last + 1 - i,
        {
            if ascii_ci_match_at_exec(h, q, i) {
                assert(ascii_ci_match_at(h@, q@, i as int));
                assert(ascii_ci_contains(haystack.spec_bytes(), query.spec_bytes()));
                return true;
            }
            i = i + 1;
        }
        assert forall|k: int| !ascii_ci_match_at(h@, q@, k) by {
            if 0 <= k && k + q@.len() <= h@.len() {
                assert(k < i);
            }
        }
        false
    } else {
        let lowered = str_to_lowercase(haystack);
        let hay = chars_of(lowered.as_str());
        match query_lower_fallback {
            Some(ql) => {
                let needle = chars_of(ql);
                contains_chars(&hay, &needle)
            },
            None => {
                let query_lowered = str_to_lowercase(query);
                let needle = chars_of(query_lowered.as_str());
                contains_chars(&hay, &needle)
            },
        }
    }
}

/// `q` can be matched greedily, in order, against the characters of `h`,
/// two characters matching when their lowercase mappings are equal.
pub open spec fn fuzzy_match(h: Seq<char>, q: Seq<char>) -> bool
    decreases h.len(),
{
    if q.len() == 0 {
        true
    } else if h.len() == 0 {
        false
    } else if char_lowercase(h[0]) == char_lowercase(q[0]) {
        fuzzy_match(h.drop_first(), q.drop_first())
    } else {
        fuzzy_match(h.drop_first(), q)
    }
}

/// `a` is a subsequence of `b`: its characters appear in `b` in order.
pub open spec fn is_subsequence(a: Seq<char>, b: Seq<char>) -> bool
    decreases b.len(),
{
    if a.len() == 0 {
        true
    } else if b.len() == 0 {
        false
    } else if a[0] == b[0] {
        is_subsequence(a.drop_first(), b.drop_first())
    } else {
        is_subsequence(a, b.drop_first())
    }
}

/// A match survives text added after the haystack.
proof fn lemma_fuzzy_append(h: Seq<char>, s: Seq<char>, q: Seq<char>)
    requires
        fuzzy_match(h, q),
    ensures
        fuzzy_match(h + s, q),
    decreases h.len(),
{
    if q.len() > 0 && h.len() > 0 {
        assert((h + s).drop_first() =~= h.drop_first() + s);
        assert((h + s)[0] == h[0]);
        if char_lowercase(h[0]) == char_lowercase(q[0]) {
            lemma_fuzzy_append(h.drop_first(), s, q.drop_first());
        } else {
            lemma_fuzzy_append(h.drop_first(), s, q);
        }
    }
}

/// A match survives one character put before the haystack.
proof fn lemma_fuzzy_prepend_one(c: char, h: Seq<char>, q: Seq<char>)
    requires
        fuzzy_match(h, q),
    ensures
        fuzzy_match(seq![c] + h, q),
    decreases 2 * h.len() + 1,
{
    let ch = seq![c] + h;
    assert(ch.drop_first() =~= h);
    assert(ch[0] == c);
    if q.len() > 0 && char_lowercase(c) == char_lowercase(q[0]) {
        lemma_fuzzy_drop_query_first(h, q);
    }
}

/// Dropping the first character of the query keeps a match.
proof fn lemma_fuzzy_drop_query_first(h: Seq<char>, q: Seq<char>)
    requires
        fuzzy_match(h, q),
        q.len() > 0,
    ensures
        fuzzy_match(h, q.drop_first()),
    decreases 2 * h.len(),
{
    if h.len() > 0 {
        let h1 = h.drop_first();
        assert(seq![h[0]] + h1 =~= h);
        if char_lowercase(h[0]) == char_lowercase(q[0]) {
            lemma_fuzzy_prepend_one(h[0], h1, q.drop_first());
        } else {
            lemma_fuzzy_drop_query_first(h1, q);
            lemma_fuzzy_prepend_one(h[0], h1, q.drop_first());
        }
    }
}

/// A match survives text put before the haystack.
proof fn lemma_fuzzy_prepend(s: Seq<char>, h: Seq<char>, q: Seq<char>)
    requires
        fuzzy_match(h, q),
    ensures
        fuzzy_match(s + h, q),
    decreases s.len(),
{
    if s.len() > 0 {
        lemma_fuzzy_prepend(s.drop_first(), h, q);
        lemma_fuzzy_prepend_one(s[0], s.drop_first() + h, q);
        assert(seq![s[0]] + (s.drop_first() + h) =~= s + h);
    }
}

/// A match survives taking only a subsequence of the query.
proof fn lemma_fuzzy_subsequence(h: Seq<char>, q: Seq<char>, q2: Seq<char>)
    requires
        fuzzy_match(h, q),
        is_subsequence(q2, q),
    ensures
        fuzzy_match(h, q2),
    decreases h.len() + q.len(),
{
    if q2.len() > 0 {
        if q2[0] == q[0] {
            if h.len() > 0 {
                if char_lowercase(h[0]) == char_lowercase(q[0]) {
                    lemma_fuzzy_subsequence(h.drop_first(), q.drop_first(), q2.drop_first());
                } else {
                    lemma_fuzzy_subsequence(h.drop_first(), q, q2);
                }
            }
        } else {
            lemma_fuzzy_drop_query_first(h, q);
            lemma_fuzzy_subsequence(h, q.drop_first(), q2);
        }
    }
}

/// Fuzzy matching never loses a match when the haystack grows, at either
/// end, or when the query shrinks to a subsequence of itself.
pub proof fn law_fuzzy_match_monotone(h: Seq<char>, s: Seq<char>, q: Seq<char>, q2: Seq<char>)
    requires
        fuzzy_match(h, q),
    ensures
        fuzzy_match(h + s, q),
        fuzzy_match(s + h, q),
        is_subsequence(q2, q) ==> fuzzy_match(h, q2),
{
    lemma_fuzzy_append(h, s, q);
    lemma_fuzzy_prepend(s, h, q);
    if is_subsequence(q2, q) {
        lemma_fuzzy_subsequence(h, q, q2);
    }
}


/// The UTF-8 encoding of an ASCII character is its one byte; every byte of
/// the encoding of any other character is at least 128.
proof fn lemma_encode_scalar_bytes(c: char)
    ensures
        (c as u32) < 128 ==> vstd::utf8::encode_scalar(c as u32) == seq![c as u8],
        (c as u32) >= 128 ==> vstd::utf8::encode_scalar(c as u32).len() > 1 && forall|k: int|
            0 <= k < vstd::utf8::encode_scalar(c as u32).len() ==> #[trigger] vstd::utf8::encode_scalar(
                c as u32,
            )[k] >= 128,
{
    let s = c as u32;
    if s < 128 {
        vstd::utf8::is_ascii_chars_encode_utf8(seq![c]);
        assert(vstd::utf8::encode_utf8(seq![c]) =~= vstd::utf8::encode_scalar(s) + vstd::utf8::encode_utf8(
            seq![c].drop_first(),
        ));
        assert(seq![c].drop_first() =~= Seq::<char>::empty());
    } else {
        assert(vstd::utf8::leading_byte_width_2(s) >= 128) by (bit_vector);
        assert(vstd::utf8::leading_byte_width_3(s) >= 128) by (bit_vector);
        assert(vstd::utf8::leading_byte_width_4(s) >= 128) by (bit_vector);
        assert(vstd::utf8::last_continuation_byte(s) >= 128) by (bit_vector);
        assert(vstd::utf8::second_last_continuation_byte(s) >= 128) by (bit_vector);
        assert(vstd::utf8::third_last_continuation_byte(s) >= 128) by (bit_vector);
    }
}

/// An ASCII query that occurs, ignoring ASCII case, in the UTF-8 bytes of
/// `h` at offset `i` is a fuzzy match of `h`, once the lowercase mappings of
/// the ASCII characters involved are known.
proof fn lemma_ascii_match_is_fuzzy(h: Seq<char>, q: Seq<char>, i: int)
    requires
        vstd::utf8::is_ascii_chars(q),
        ascii_lowercase_known(h),
        ascii_lowercase_known(q),
        ascii_ci_match_at(vstd::utf8::encode_utf8(h), vstd::utf8::encode_utf8(q), i),
    ensures
        fuzzy_match(h, q),
    decreases h.len(),
{
    let enc = vstd::utf8::encode_utf8(h);
    let qb = vstd::utf8::encode_utf8(q);
    vstd::utf8::is_ascii_chars_encode_utf8(q);
    if q.len() == 0 {
        return;
    }
    if h.len() == 0 {
        assert(enc.len() == 0);
        return;
    }
    let c = h[0];
    let t = h.drop_first();
    let e1 = vstd::utf8::encode_scalar(c as u32);
    let et = vstd::utf8::encode_utf8(t);
    assert(enc == e1 + et);
    lemma_encode_scalar_bytes(c);
    assert(ascii_lowercase_known(t)) by {
        assert forall|k: int| 0 <= k < t.len() && (t[k] as u32) < 128 implies char_lowercase(
            #[trigger] t[k],
        ) == seq![ascii_lower_char(t[k])] by {
            assert(t[k] == h[k + 1]);
        }
    }
    assert(q[0] as u8 == qb[0]);
    assert((q[0] as u32) < 128);
    if i >= e1.len() {
        let i2 = i - e1.len();
        assert(ascii_ci_match_at(et, qb, i2)) by {
            assert forall|j: int| 0 <= j < qb.len() implies ascii_lower(#[trigger] et[i2 + j])
                == ascii_lower(qb[j]) by {
                assert(enc[i + j] == et[i2 + j]);
            }
        }
        lemma_ascii_match_is_fuzzy(t, q, i2);
        lemma_fuzzy_prepend_one(c, t, q);
        assert(seq![c] + t =~= h);
    } else if (c as u32) >= 128 {
        assert(enc[i + 0] == e1[i]);
        assert(e1[i] >= 128);
        assert(ascii_lower(enc[i + 0]) == ascii_lower(qb[0]));
        assert(false);
    } else {
        assert(i == 0);
        assert(enc[0] == c as u8);
        assert(ascii_lower(enc[0int + 0]) == ascii_lower(qb[0]));
        assert(ascii_lower_char(c) == ascii_lower_char(q[0]));
        assert(char_lowercase(h[0]) == seq![ascii_lower_char(h[0])]);
        assert(char_lowercase(q[0]) == seq![ascii_lower_char(q[0])]);
        let q1 = q.drop_first();
        let qb1 = vstd::utf8::encode_utf8(q1);
        assert(qb == vstd::utf8::encode_scalar(q[0] as u32) + qb1);
        lemma_encode_scalar_bytes(q[0]);
        assert(vstd::utf8::is_ascii_chars(q1)) by {
            assert forall|k: int| 0 <= k < q1.len() implies '\0' <= #[trigger] q1[k] <= '\u{7f}' by {
                assert(q1[k] == q[k + 1]);
            }
        }
        assert(ascii_lowercase_known(q1)) by {
            assert forall|k: int| 0 <= k < q1.len() && (q1[k] as u32) < 128 implies char_lowercase(
                #[trigger] q1[k],
            ) == seq![ascii_lower_char(q1[k])] by {
                assert(q1[k] == q[k + 1]);
            }
        }
        assert(ascii_ci_match_at(et, qb1, 0)) by {
            assert forall|j: int| 0 <= j < qb1.len() implies ascii_lower(#[trigger] et[0int + j])
                == ascii_lower(qb1[j]) by {
                assert(enc[1 + j] == et[j]);
                assert(qb[1 + j] == qb1[j]);
                assert(ascii_lower(enc[0int + (1 + j)]) == ascii_lower(qb[1 + j]));
            }
        }
        lemma_ascii_match_is_fuzzy(t, q1, 0);
    }
}

fn same_chars(a: &Vec<char>, b: &Vec<char>) -> (r: bool)
    ensures
        r == (a@ == b@),
{
    if a.len() != b.len() {
        return false;
    }
    let mut i: usize = 0;
    while i < a.len()
        invariant
            a@.len() == b@.len(),
            i <= a@.len(),
            forall|k: int| 0 <= k < i ==> a@[k] == b@[k],
        decreases a@.len() - i,
    {
        if a[i] != b[i] {
            return false;
        }
        i = i + 1;
    }
    assert(a@ =~= b@);
    true
}

/// Whether the characters of `query` appear in `haystack` in order (not
/// necessarily adjacent), ignoring case. An ASCII query that
/// `contains_ignore_ascii_case` finds in the haystack always matches.
pub fn fuzzy_match_ignore_case(haystack: &str, query: &str) -> (r: bool)
    ensures
        r == fuzzy_match(haystack@, query@),
        forall|f: Option<Seq<char>>|
            vstd::utf8::is_ascii_chars(query@) && #[trigger] contains_ignore_ascii_case_spec(
                haystack@,
                query@,
                f,
            ) ==> r,
{
    if query.is_empty() {
        return true;
    }
    let h = chars_of(haystack);
    let q = chars_of(query);
    let mut lowered: Vec<Vec<char>> = Vec::new();
    let mut j: usize = 0;
    while j < q.len()
        invariant
            j <= q@.len(),
            lowered@.len() == j,
            forall|k: int| 0 <= k < j ==> (#[trigger] lowered@[k])@ == char_lowercase(q@[k]),
            forall|k: int|
                0 <= k < j && (q@[k] as u32) < 128 ==> char_lowercase(#[trigger] q@[k]) == seq![
                    ascii_lower_char(q@[k]),
                ],
        decreases q@.len() - j,
    {
        lowered.push(char_to_lowercase(q[j]));
        j = j + 1;
    }
    let mut qi: usize = 0;
    let mut hi: usize = 0;
    assert(h@.skip(0) =~= h@);
    assert(q@.skip(0) =~= q@);
    while hi < h.len()
        invariant
            h@ == haystack@,
            q@ == query@,
            qi <= q@.len(),
            hi <= h@.len(),
            lowered@.len() == q@.len(),
            forall|k: int| 0 <= k < q@.len() ==> (#[trigger] lowered@[k])@ == char_lowercase(q@[k]),
            ascii_lowercase_known(q@),
            forall|k: int|
                0 <= k < hi && (h@[k] as u32) < 128 ==> char_lowercase(#[trigger] h@[k]) == seq![
                    ascii_lower_char(h@[k]),
                ],
            fuzzy_match(haystack@, query@) == fuzzy_match(h@.skip(hi as int), q@.skip(qi as int)),
        decreases h@.len() - hi,
    {
        if qi < q.len() {
            let hl = char_to_lowercase(h[hi]);
            assert(h@.skip(hi as int).drop_first() =~= h@.skip(hi + 1));
            assert(q@.skip(qi as int).drop_first() =~= q@.skip(qi + 1));
            if same_chars(&hl, &lowered[qi]) {
                qi = qi + 1;
            }
        } else {
            return true;
        }
        hi = hi + 1;
    }
    let r = qi == q.len();
    proof {
        assert(ascii_lowercase_known(h@));
        assert forall|f: Option<Seq<char>>|
            vstd::utf8::is_ascii_chars(query@) && #[trigger] contains_ignore_ascii_case_spec(
                haystack@,
                query@,
                f,
            ) implies r by {
            let i = choose|i: int|
                ascii_ci_match_at(
                    vstd::utf8::encode_utf8(haystack@),
                    vstd::utf8::encode_utf8(query@),
                    i,
                );
            lemma_ascii_match_is_fuzzy(h@, q@, i);
        }
    }
    r
}

/// The concatenation of `a` and `b`.
pub fn concat_str(a: &str, b: &str) -> (r: String)
    ensures
        r@ == a@ + b@,
{
    let mut cs = chars_of(a);
    let bs = chars_of(b);
    let mut i: usize = 0;
    let ghost a0 = cs@;
    while i < bs.len()
        invariant
            a0 == a@,
            bs@ == b@,
            i <= bs@.len(),
            cs@ == a0 + bs@.take(i as int),
        decreases bs@.len() - i,
    {
        cs.push(bs[i]);
        i = i + 1;
        assert(cs@ =~= a0 + bs@.take(i as int));
    }
    assert(bs@.take(bs@.len() as int) =~= bs@);
    string_from_chars(cs.as_slice())
}

/// The decimal digit for `d`, below ten.
pub open spec fn digit_char(d: nat) -> char {
    if d == 0 {
        '0'
    } else if d == 1 {
        '1'
    } else if d == 2 {
        '2'
    } else if d == 3 {
        '3'
    } else if d == 4 {
        '4'
    } else if d == 5 {
        '5'
    } else if d == 6 {
        '6'
    } else if d == 7 {
        '7'
    } else if d == 8 {
        '8'
    } else {
        '9'
    }
}

/// `n` written in decimal, without leading zeros.
pub open spec fn decimal(n: nat) -> Seq<char>
    decreases n,
{
    if n < 10 {
        seq![digit_char(n)]
    } else {
        decimal(n / 10).push(digit_char(n % 10))
    }
}

fn digit_char_exec(d: u64) -> (c: char)
    requires
        d < 10,
    ensures
        c == digit_char(d as nat),
{
    if d == 0 {
        '0'
    } else if d == 1 {
        '1'
    } else if d == 2 {
        '2'
    } else if d == 3 {
        '3'
    } else if d == 4 {
        '4'
    } else if d == 5 {
        '5'
    } else if d == 6 {
        '6'
    } else if d == 7 {
        '7'
    } else if d == 8 {
        '8'
    } else {
        '9'
    }
}

/// `n` in decimal.
pub fn decimal_string(n: u64) -> (r: String)
    ensures
        r@ == decimal(n as nat),
{
    let mut m: u64 = n;
    let mut acc: Vec<char> = Vec::new();
    while m >= 10
        invariant
            decimal(n as nat) == decimal(m as nat) + acc@,
        decreases m,
    {
        let d = digit_char_exec(m % 10);
        let ghost before = acc@;
        acc.insert(0, d);
        assert(acc@ =~= seq![d] + before);
        assert(decimal(m as nat) == decimal((m / 10) as nat).push(d));
        assert(decimal((m / 10) as nat).push(d) + before =~= decimal((m / 10) as nat) + acc@);
        m = m / 10;
    }
    let ghost before = acc@;
    acc.insert(0, digit_char_exec(m));
    assert(acc@ =~= decimal(m as nat) + before);
    string_from_chars(acc.as_slice())
}

/// The value of a string of decimal digits.
pub open spec fn digits_value(s: Seq<char>) -> int
    decreases s.len(),
{
    if s.len() == 0 {
        0
    } else {
        digits_value(s.drop_last()) * 10 + (s.last() as int - '0' as int)
    }
}

/// Every character is a decimal digit.
pub open spec fn all_digits(s: Seq<char>) -> bool {
    forall|i: int| 0 <= i < s.len() ==> '0' <= #[trigger] s[i] <= '9'
}

/// What `str::parse::<i64>` gives: an optional `+` or `-`, then one or more
/// decimal digits and nothing else, whose value fits in an `i64`.
pub open spec fn parse_i64_spec(s: Seq<char>) -> Option<i64> {
    let neg = s.len() > 0 && s[0] == '-';
    let body = if s.len() > 0 && (s[0] == '-' || s[0] == '+') {
        s.drop_first()
    } else {
        s
    };
    let v = if neg {
        -digits_value(body)
    } else {
        digits_value(body)
    };
    if body.len() == 0 || !all_digits(body) || v < i64::MIN || v > i64::MAX {
        None
    } else {
        Some(v as i64)
    }
}

/// `n` in decimal, with a `-` before it when negative (as `i64::to_string`).
pub open spec fn i64_text(n: i64) -> Seq<char> {
    if n < 0 {
        seq!['-'] + decimal((-n) as nat)
    } else {
        decimal(n as nat)
    }
}

/// `n` as text (see `i64_text`).
pub fn i64_to_string(n: i64) -> (r: String)
    ensures
        r@ == i64_text(n),
{
    if n < 0 {
        let m: u64 = (0i128 - n as i128) as u64;
        let digits = decimal_string(m);
        proof {
            reveal_strlit("-");
            assert("-"@ =~= seq!['-']);
        }
        concat_str("-", digits.as_str())
    } else {
        decimal_string(n as u64)
    }
}

proof fn lemma_digits_push(s: Seq<char>, c: char)
    ensures
        digits_value(s.push(c)) == digits_value(s) * 10 + (c as int - '0' as int),
{
    assert(s.push(c).drop_last() =~= s);
}

/// Parses an `i64` as `str::parse` does (see `parse_i64_spec`).
pub fn parse_i64(s: &str) -> (r: Option<i64>)
    ensures
        r == parse_i64_spec(s@),
{
    let cs = chars_of(s);
    let n = cs.len();
    let neg = n > 0 && cs[0] == '-';
    let start: usize = if n > 0 && (cs[0] == '-' || cs[0] == '+') {
        1
    } else {
        0
    };
    let ghost body = cs@.subrange(start as int, n as int);
    proof {
        if start == 1 {
            assert(body =~= s@.drop_first());
        } else {
            assert(body =~= s@);
        }
    }
    if start >= n {
        return None;
    }
    let cap: u64 = 9_223_372_036_854_775_809;
    let mut mag: u64 = 0;
    let mut i: usize = start;
    while i < n
        invariant
            cs@ == s@,
            n == cs@.len(),
            start <= i <= n,
            body == cs@.subrange(start as int, n as int),
            body == (if s@.len() > 0 && (s@[0] == '-' || s@[0] == '+') {
                s@.drop_first()
            } else {
                s@
            }),
            all_digits(cs@.subrange(start as int, i as int)),
            mag as int == if digits_value(cs@.subrange(start as int, i as int)) < cap {
                digits_value(cs@.subrange(start as int, i as int))
            } else {
                cap as int
            },
            cap == 9_223_372_036_854_775_809u64,
        decreases n - i,
    {
        let c = cs[i];
        if !('0' <= c && c <= '9') {
            proof {
                assert(body[i - start] == c);
                assert(!all_digits(body));
            }
            return None;
        }
        let d: u64 = (c as u32 - '0' as u32) as u64;
        let ghost pre = cs@.subrange(start as int, i as int);
        proof {
            assert(cs@.subrange(start as int, i + 1) =~= pre.push(c));
            lemma_digits_push(pre, c);
            assert(digits_value(pre) >= 0) by {
                lemma_digits_nonneg(pre);
            }
        }
        if mag >= cap {
            mag = cap;
            proof {
                assert(digits_value(pre) * 10 + d >= cap) by (nonlinear_arith)
                    requires
                        digits_value(pre) >= cap,
                        d >= 0,
                ;
            }
        } else {
            let next: u128 = mag as u128 * 10 + d as u128;
            mag = if next < cap as u128 {
                next as u64
            } else {
                cap
            };
        }
        i = i + 1;
    }
    assert(cs@.subrange(start as int, n as int) == body);
    if neg {
        if mag > 9_223_372_036_854_775_808 {
            None
        } else if mag == 9_223_372_036_854_775_808 {
            Some(i64::MIN)
        } else {
            Some(0i64 - mag as i64)
        }
    } else {
        if mag > 9_223_372_036_854_775_807 {
            None
        } else {
            Some(mag as i64)
        }
    }
}

proof fn lemma_digits_nonneg(s: Seq<char>)
    requires
        all_digits(s),
    ensures
        digits_value(s) >= 0,
    decreases s.len(),
{
    if s.len() > 0 {
        assert(all_digits(s.drop_last()));
        lemma_digits_nonneg(s.drop_last());
        assert('0' <= s[s.len() - 1]);
    }
}

} // verus!
