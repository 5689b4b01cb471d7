use vstd::prelude::*;

verus! {

/// The scheme word that may precede an access token in the `Authorization` header.
pub open spec fn scheme() -> Seq<char> {
    seq!['B', 'e', 'a', 'r', 'e', 'r']
}

/// Whether `s` begins with the scheme word.
pub open spec fn starts_with_scheme(s: Seq<char>) -> bool {
    s.len() >= 6 && s.subrange(0, 6) == scheme()
}

/// `s` with every leading repetition of the scheme word removed
/// (what `str::trim_start_matches("Bearer")` leaves).
pub open spec fn strip_scheme(s: Seq<char>) -> Seq<char>
    decreases s.len(),
{
    if starts_with_scheme(s) {
        strip_scheme(s.subrange(6, s.len() as int))
    } else {
        s
    }
}

/// Whether `c` has the Unicode `White_Space` property (what `char::is_whitespace`
/// answers).
pub open spec fn is_white_space(c: char) -> bool {
    let u = c as u32;
    ||| (0x09 <= u && u <= 0x0d)
    ||| u == 0x20
    ||| u == 0x85
    ||| u == 0xa0
    ||| u == 0x1680
    ||| (0x2000 <= u && u <= 0x200a)
    ||| u == 0x2028
    ||| u == 0x2029
    ||| u == 0x202f
    ||| u == 0x205f
    ||| u == 0x3000
}

/// `s` without its leading white space.
pub open spec fn trim_start(s: Seq<char>) -> Seq<char>
    decreases s.len(),
{
    if s.len() > 0 && is_white_space(s[0]) {
        trim_start(s.subrange(1, s.len() as int))
    } else {
        s
    }
}

/// `s` without its trailing white space.
pub open spec fn trim_end(s: Seq<char>) -> Seq<char>
    decreases s.len(),
{
    if s.len() > 0 && is_white_space(s[s.len() - 1]) {
        trim_end(s.subrange(0, s.len() - 1))
    } else {
        s
    }
}

/// The token that an `Authorization` header value carries: the value with its
/// leading scheme words removed, then trimmed of white space at both ends.
pub open spec fn token_of(header: Seq<char>) -> Seq<char> {
    trim_end(trim_start(strip_scheme(header)))
}

proof fn lemma_strip_scheme_shape(s: Seq<char>) -> (n: int)
    ensures
        0 <= n,
        6 * n <= s.len(),
        forall|k: int| 0 <= k < 6 * n ==> #[trigger] s[k] == scheme()[k % 6],
        !starts_with_scheme(s.subrange(6 * n, s.len() as int)),
        strip_scheme(s) == s.subrange(6 * n, s.len() as int),
    decreases s.len(),
{
    if starts_with_scheme(s) {
        let rest = s.subrange(6, s.len() as int);
        let m = lemma_strip_scheme_shape(rest);
        assert forall|k: int| 0 <= k < 6 * (m + 1) implies #[trigger] s[k] == scheme()[k % 6] by {
            if k < 6 {
                assert(s[k] == s.subrange(0, 6)[k]);
            } else {
                assert(s[k] == rest[k - 6]);
                assert((k - 6) % 6 == k % 6);
            }
        }
        assert(rest.subrange(6 * m, rest.len() as int) =~= s.subrange(6 * (m + 1), s.len() as int));
        m + 1
    } else {
        assert(s.subrange(0, s.len() as int) =~= s);
        0
    }
}

proof fn lemma_trim_start_shape(s: Seq<char>) -> (i: int)
    ensures
        0 <= i,
        i <= s.len(),
        forall|k: int| 0 <= k < i ==> is_white_space(#[trigger] s[k]),
        i < s.len() ==> !is_white_space(s[i]),
        trim_start(s) == s.subrange(i, s.len() as int),
    decreases s.len(),
{
    if s.len() > 0 && is_white_space(s[0]) {
        let rest = s.subrange(1, s.len() as int);
        let m = lemma_trim_start_shape(rest);
        assert forall|k: int| 0 <= k < m + 1 implies is_white_space(#[trigger] s[k]) by {
            if k > 0 {
                assert(s[k] == rest[k - 1]);
            }
        }
        if m + 1 < s.len() {
            assert(s[m + 1] == rest[m]);
        }
        assert(rest.subrange(m, rest.len() as int) =~= s.subrange(m + 1, s.len() as int));
        m + 1
    } else {
        assert(s.subrange(0, s.len() as int) =~= s);
        0
    }
}

proof fn lemma_trim_end_shape(s: Seq<char>) -> (j: int)
    ensures
        0 <= j,
        j <= s.len(),
        forall|k: int| j <= k < s.len() ==> is_white_space(#[trigger] s[k]),
        j > 0 ==> !is_white_space(s[j - 1]),
        trim_end(s) == s.subrange(0, j),
    decreases s.len(),
{
    if s.len() > 0 && is_white_space(s[s.len() - 1]) {
        let rest = s.subrange(0, s.len() - 1);
        let m = lemma_trim_end_shape(rest);
        assert forall|k: int| m <= k < s.len() implies is_white_space(#[trigger] s[k]) by {
            if k < s.len() - 1 {
                assert(s[k] == rest[k]);
            }
        }
        if m > 0 {
            assert(s[m - 1] == rest[m - 1]);
        }
        assert(rest.subrange(0, m) =~= s.subrange(0, m));
        m
    } else {
        assert(s.subrange(0, s.len() as int) =~= s);
        s.len() as int
    }
}

/// What the token of a header value is, over all header values: for some `n`, `i` and
/// `j`, the header begins with `n` copies of the scheme word, not followed by another;
/// then comes white space up to `i`; the token is the header from `i` to `j`, of any
/// length, neither starting nor ending with white space; and the header holds only
/// white space after `j`.
pub proof fn lemma_token_is_the_trimmed_rest(header: Seq<char>) -> (b: (int, int, int))
    ensures
        0 <= b.0,
        6 * b.0 <= b.1 <= b.2 <= header.len(),
        forall|k: int| 0 <= k < 6 * b.0 ==> #[trigger] header[k] == seq!['B', 'e', 'a', 'r', 'e', 'r'][k % 6],
        !(header.len() >= 6 * b.0 + 6 && header.subrange(6 * b.0, 6 * b.0 + 6) == seq![
            'B',
            'e',
            'a',
            'r',
            'e',
            'r',
        ]),
        forall|k: int| 6 * b.0 <= k < b.1 ==> is_white_space(#[trigger] header[k]),
        b.1 < b.2 ==> !is_white_space(header[b.1]) && !is_white_space(header[b.2 - 1]),
        forall|k: int| b.2 <= k < header.len() ==> is_white_space(#[trigger] header[k]),
        token_of(header) == header.subrange(b.1, b.2),
{
    let n = lemma_strip_scheme_shape(header);
    let s1 = header.subrange(6 * n, header.len() as int);
    let i1 = lemma_trim_start_shape(s1);
    let s2 = s1.subrange(i1, s1.len() as int);
    let j2 = lemma_trim_end_shape(s2);
    let i = 6 * n + i1;
    let j = i + j2;
    assert(s2 =~= header.subrange(i, header.len() as int));
    assert(s2.subrange(0, j2) =~= header.subrange(i, j));
    assert forall|k: int| 6 * n <= k < i implies is_white_space(#[trigger] header[k]) by {
        assert(header[k] == s1[k - 6 * n]);
    }
    assert forall|k: int| j <= k < header.len() implies is_white_space(#[trigger] header[k]) by {
        assert(header[k] == s2[k - i]);
    }
    if i < j {
        assert(header[i] == s2[0]);
        assert(s2[0] == s1[i1]);
        assert(header[j - 1] == s2[j2 - 1]);
    }
    if header.len() >= 6 * n + 6 {
        assert(s1.subrange(0, 6) =~= header.subrange(6 * n, 6 * n + 6));
    }
    assert(scheme() == seq!['B', 'e', 'a', 'r', 'e', 'r']);
    (n, i, j)
}

/// Whether `c` has the Unicode `White_Space` property.
pub fn is_white_space_char(c: char) -> (r: bool)
    ensures
        r == is_white_space(c),
{
    let u = c as u32;
    (0x09 <= u && u <= 0x0d) || u == 0x20 || u == 0x85 || u == 0xa0 || u == 0x1680 || (0x2000
        <= u && u <= 0x200a) || u == 0x2028 || u == 0x2029 || u == 0x202f || u == 0x205f || u
        == 0x3000
}

fn scheme_at(header: &str, n: usize, start: usize) -> (r: bool)
    requires
        n == header@.len(),
        start <= n,
    ensures
        r == starts_with_scheme(header@.subrange(start as int, n as int)),
{
    if n - start < 6 {
        return false;
    }
    let r = header.get_char(start) == 'B' && header.get_char(start + 1) == 'e'
        && header.get_char(start + 2) == 'a' && header.get_char(start + 3) == 'r'
        && header.get_char(start + 4) == 'e' && header.get_char(start + 5) == 'r';
    let ghost rest = header@.subrange(start as int, n as int);
    assert(r == (rest.subrange(0, 6) =~= scheme()));
    r
}

/// The access token carried by the header value `header`: leading `Bearer` words
/// removed, then white space trimmed at both ends.
pub fn bearer_token(header: &str) -> (r: String)
    ensures
        r@ == token_of(header@),
        r@ == trim_end(trim_start(strip_scheme(header@))),
{
    let n = header.unicode_len();
    let mut start: usize = 0;
    assert(header@.subrange(0, n as int) =~= header@);
    while scheme_at(header, n, start)
        invariant
            n == header@.len(),
            start <= n,
            strip_scheme(header@) == strip_scheme(header@.subrange(start as int, n as int)),
        decreases n - start,
    {
        let ghost rest = header@.subrange(start as int, n as int);
        assert(rest.subrange(6, rest.len() as int) =~= header@.subrange(start + 6, n as int));
        start = start + 6;
    }
    while start < n && is_white_space_char(header.get_char(start))
        invariant
            n == header@.len(),
            start <= n,
            trim_start(strip_scheme(header@)) == trim_start(header@.subrange(start as int, n as int)),
        decreases n - start,
    {
        let ghost rest = header@.subrange(start as int, n as int);
        assert(rest.subrange(1, rest.len() as int) =~= header@.subrange(start + 1, n as int));
        start = start + 1;
    }
    let mut end: usize = n;
    while start < end && is_white_space_char(header.get_char(end - 1))
        invariant
            n == header@.len(),
            start <= end <= n,
            token_of(header@) == trim_end(header@.subrange(start as int, end as int)),
        decreases end - start,
    {
        let ghost rest = header@.subrange(start as int, end as int);
        assert(rest.subrange(0, rest.len() - 1) =~= header@.subrange(start as int, end - 1));
        end = end - 1;
    }
    String::from_str(header.substring_char(start, end))
}

} // verus!
