use vstd::prelude::*;

verus! {

broadcast use {vstd::utf8::encode_utf8_decode_utf8, vstd::utf8::encode_utf8_valid_utf8};

/// Collects the characters of `s` into a vector.
pub fn chars_of(s: &str) -> (res: Vec<char>)
    ensures
        res@ == s@,
{
    let mut res: Vec<char> = Vec::new();
    for c in it: s.chars()
        invariant
            res@ == it.seq().take(it.index() as int),
            it.seq() == s@,
    {
        res.push(c);
    }
    res
}

/// Whether two strings hold the same characters.
pub fn str_eq(a: &str, b: &str) -> (res: bool)
    ensures
        res == (a@ == b@),
{
    let ab = a.as_bytes();
    let bb = b.as_bytes();
    proof {
        assert(vstd::utf8::decode_utf8(vstd::utf8::encode_utf8(a@)) == a@);
        assert(vstd::utf8::decode_utf8(vstd::utf8::encode_utf8(b@)) == b@);
    }
    if ab.len() != bb.len() {
        return false;
    }
    let n = ab.len();
    for i in 0..n
        invariant
            n == ab@.len(),
            n == bb@.len(),
            ab@ == vstd::utf8::encode_utf8(a@),
            bb@ == vstd::utf8::encode_utf8(b@),
            forall|j: int| 0 <= j < i ==> ab@[j] == bb@[j],
    {
        if ab[i] != bb[i] {
            return false;
        }
    }
    assert(ab@ =~= bb@);
    true
}


/// The characters of an optional string.
pub open spec fn opt_str_view(o: Option<&str>) -> Option<Seq<char>> {
    match o {
        Some(s) => Some(s@),
        None => None,
    }
}

/// `s` without its leading `prefix`, where `s` starts with it.
pub open spec fn seq_strip_prefix(s: Seq<char>, prefix: Seq<char>) -> Option<Seq<char>> {
    if prefix.len() <= s.len() && s.subrange(0, prefix.len() as int) == prefix {
        Some(s.subrange(prefix.len() as int, s.len() as int))
    } else {
        None
    }
}

/// `s` without its trailing `suffix`, where `s` ends with it.
pub open spec fn seq_strip_suffix(s: Seq<char>, suffix: Seq<char>) -> Option<Seq<char>> {
    if suffix.len() <= s.len() && s.subrange(s.len() - suffix.len(), s.len() as int) == suffix {
        Some(s.subrange(0, s.len() - suffix.len()))
    } else {
        None
    }
}

/// Whether `chars[start..start + part.len()]` is `part`.
fn chars_match_at(chars: &Vec<char>, start: usize, part: &Vec<char>) -> (res: bool)
    requires
        start + part@.len() <= chars@.len(),
    ensures
        res == (chars@.subrange(start as int, start + part@.len()) == part@),
{
    let n = part.len();
    let total = chars.len();
    for i in 0..n
        invariant
            n == part@.len(),
            start + n <= chars@.len(),
            total == chars@.len(),
            forall|j: int| 0 <= j < i ==> chars@[start + j] == part@[j],
    {
        if chars[start + i] != part[i] {
            assert(chars@.subrange(start as int, start + n)[i as int] != part@[i as int]);
            return false;
        }
    }
    assert(chars@.subrange(start as int, start + n) =~= part@);
    true
}

/// `s` without its leading `prefix`, if `s` starts with it.
pub fn strip_prefix<'a>(s: &'a str, prefix: &str) -> (res: Option<&'a str>)
    ensures
        opt_str_view(res) == seq_strip_prefix(s@, prefix@),
{
    let cs = chars_of(s);
    let cp = chars_of(prefix);
    if cp.len() > cs.len() {
        return None;
    }
    if chars_match_at(&cs, 0, &cp) {
        Some(s.substring_char(cp.len(), cs.len()))
    } else {
        None
    }
}

/// `s` without its trailing `suffix`, if `s` ends with it.
pub fn strip_suffix<'a>(s: &'a str, suffix: &str) -> (res: Option<&'a str>)
    ensures
        opt_str_view(res) == seq_strip_suffix(s@, suffix@),
{
    let cs = chars_of(s);
    let cx = chars_of(suffix);
    if cx.len() > cs.len() {
        return None;
    }
    if chars_match_at(&cs, cs.len() - cx.len(), &cx) {
        Some(s.substring_char(0, cs.len() - cx.len()))
    } else {
        None
    }
}

/// The concatenation of three strings.
pub fn concat3(a: &str, b: &str, c: &str) -> (res: String)
    ensures
        res@ == a@ + b@ + c@,
{
    let mut res = a.to_owned();
    res.append(b);
    res.append(c);
    res
}


/// Whether a character has the Unicode `White_Space` property, which `char::is_whitespace`
/// tests.
pub open spec fn is_whitespace(c: char) -> bool {
    ||| ('\u{9}' <= c && c <= '\u{d}')
    ||| c == ' '
    ||| c == '\u{85}'
    ||| c == '\u{a0}'
    ||| c == '\u{1680}'
    ||| ('\u{2000}' <= c && c <= '\u{200a}')
    ||| c == '\u{2028}'
    ||| c == '\u{2029}'
    ||| c == '\u{202f}'
    ||| c == '\u{205f}'
    ||| c == '\u{3000}'
}

/// Whether a character has the Unicode `White_Space` property.
pub fn char_is_whitespace(c: char) -> (res: bool)
    ensures
        res == is_whitespace(c),
{
    ('\u{9}' <= c && c <= '\u{d}') || c == ' ' || c == '\u{85}' || c == '\u{a0}' || c == '\u{1680}'
        || ('\u{2000}' <= c && c <= '\u{200a}') || c == '\u{2028}' || c == '\u{2029}' || c
        == '\u{202f}' || c == '\u{205f}' || c == '\u{3000}'
}

/// The number of leading whitespace characters of `s`.
pub open spec fn leading_whitespace(s: Seq<char>) -> nat
    decreases s.len(),
{
    if s.len() > 0 && is_whitespace(s[0]) {
        1 + leading_whitespace(s.drop_first())
    } else {
        0
    }
}

/// The number of trailing whitespace characters of `s`.
pub open spec fn trailing_whitespace(s: Seq<char>) -> nat
    decreases s.len(),
{
    if s.len() > 0 && is_whitespace(s.last()) {
        1 + trailing_whitespace(s.drop_last())
    } else {
        0
    }
}

/// `s` without its trailing whitespace.
pub open spec fn trim_end_seq(s: Seq<char>) -> Seq<char> {
    s.subrange(0, s.len() - trailing_whitespace(s))
}

/// `s` without its leading and trailing whitespace, as `str::trim` gives it.
pub open spec fn trim_seq(s: Seq<char>) -> Seq<char> {
    let rest = s.subrange(leading_whitespace(s) as int, s.len() as int);
    trim_end_seq(rest)
}

proof fn lemma_leading_whitespace(s: Seq<char>, i: int)
    requires
        0 <= i <= s.len(),
        forall|j: int| 0 <= j < i ==> is_whitespace(#[trigger] s[j]),
        i == s.len() || !is_whitespace(s[i]),
    ensures
        leading_whitespace(s) == i,
    decreases i,
{
    if i > 0 {
        assert forall|j: int| 0 <= j < i - 1 implies is_whitespace(#[trigger] s.drop_first()[j]) by {
            assert(s.drop_first()[j] == s[j + 1]);
        }
        if i - 1 < s.drop_first().len() {
            assert(s.drop_first()[i - 1] == s[i]);
        }
        lemma_leading_whitespace(s.drop_first(), i - 1);
    }
}

proof fn lemma_trailing_whitespace(s: Seq<char>, k: int)
    requires
        0 <= k <= s.len(),
        forall|j: int| k <= j < s.len() ==> is_whitespace(#[trigger] s[j]),
        k == 0 || !is_whitespace(s[k - 1]),
    ensures
        trailing_whitespace(s) == s.len() - k,
    decreases s.len() - k,
{
    if k < s.len() {
        assert forall|j: int| k <= j < s.drop_last().len() implies is_whitespace(#[trigger] s.drop_last()[j]) by {
            assert(s.drop_last()[j] == s[j]);
        }
        if k > 0 {
            assert(s.drop_last()[k - 1] == s[k - 1]);
        }
        lemma_trailing_whitespace(s.drop_last(), k);
    }
}

proof fn lemma_leading_whitespace_bounds(s: Seq<char>)
    ensures
        leading_whitespace(s) <= s.len(),
        forall|j: int| 0 <= j < leading_whitespace(s) ==> is_whitespace(#[trigger] s[j]),
        leading_whitespace(s) == s.len() || !is_whitespace(s[leading_whitespace(s) as int]),
    decreases s.len(),
{
    if s.len() > 0 && is_whitespace(s[0]) {
        let t = s.drop_first();
        lemma_leading_whitespace_bounds(t);
        assert forall|j: int| 0 <= j < leading_whitespace(s) implies is_whitespace(#[trigger] s[j]) by {
            if j > 0 {
                assert(s[j] == t[j - 1]);
            }
        }
        if leading_whitespace(s) < s.len() {
            assert(s[leading_whitespace(s) as int] == t[leading_whitespace(t) as int]);
        }
    }
}

proof fn lemma_trailing_whitespace_bounds(s: Seq<char>)
    ensures
        trailing_whitespace(s) <= s.len(),
        forall|j: int| s.len() - trailing_whitespace(s) <= j < s.len() ==> is_whitespace(#[trigger] s[j]),
        trailing_whitespace(s) == s.len() || !is_whitespace(s[s.len() - trailing_whitespace(s) - 1]),
    decreases s.len(),
{
    if s.len() > 0 && is_whitespace(s.last()) {
        let t = s.drop_last();
        lemma_trailing_whitespace_bounds(t);
        assert forall|j: int| s.len() - trailing_whitespace(s) <= j < s.len() implies is_whitespace(
            #[trigger] s[j],
        ) by {
            if j < s.len() - 1 {
                assert(s[j] == t[j]);
            }
        }
        if trailing_whitespace(s) < s.len() {
            assert(s[s.len() - trailing_whitespace(s) - 1] == t[t.len() - trailing_whitespace(t) - 1]);
        }
    }
}

/// Trimming keeps a contiguous part of the text and removes only whitespace around it: what is
/// kept neither starts nor ends with whitespace, and a text trimmed to nothing was all
/// whitespace.
pub proof fn lemma_trim_removes_only_surrounding_whitespace(s: Seq<char>)
    ensures
        exists|a: int, b: int|
            {
                &&& 0 <= a <= b <= s.len()
                &&& trim_seq(s) == s.subrange(a, b)
                &&& forall|j: int| 0 <= j < a ==> is_whitespace(#[trigger] s[j])
                &&& forall|j: int| b <= j < s.len() ==> is_whitespace(#[trigger] s[j])
                &&& (a < b ==> !is_whitespace(s[a]) && !is_whitespace(s[b - 1]))
            },
        trim_seq(s).len() == 0 ==> forall|j: int| 0 <= j < s.len() ==> is_whitespace(#[trigger] s[j]),
{
    lemma_leading_whitespace_bounds(s);
    let a = leading_whitespace(s) as int;
    let rest = s.subrange(a, s.len() as int);
    lemma_trailing_whitespace_bounds(rest);
    let b = a + rest.len() - trailing_whitespace(rest);
    assert(trim_seq(s) =~= s.subrange(a, b));
    assert forall|j: int| b <= j < s.len() implies is_whitespace(#[trigger] s[j]) by {
        assert(s[j] == rest[j - a]);
    }
    if a < b {
        assert(s[b - 1] == rest[rest.len() - trailing_whitespace(rest) - 1]);
    }
    assert forall|j: int| 0 <= j < s.len() && trim_seq(s).len() == 0 implies is_whitespace(
        #[trigger] s[j],
    ) by {
        if j >= a {
            assert(s[j] == rest[j - a]);
        }
    }
    assert({
        &&& 0 <= a <= b <= s.len()
        &&& trim_seq(s) == s.subrange(a, b)
        &&& forall|j: int| 0 <= j < a ==> is_whitespace(#[trigger] s[j])
        &&& forall|j: int| b <= j < s.len() ==> is_whitespace(#[trigger] s[j])
        &&& (a < b ==> !is_whitespace(s[a]) && !is_whitespace(s[b - 1]))
    });
}

/// A text without surrounding whitespace is left as it is by trimming.
pub proof fn lemma_trim_keeps_trimmed_text(s: Seq<char>)
    requires
        s.len() == 0 || (!is_whitespace(s[0]) && !is_whitespace(s.last())),
    ensures
        trim_seq(s) == s,
{
    if s.len() > 0 {
        lemma_leading_whitespace(s, 0);
        assert(s.subrange(0, s.len() as int) =~= s);
        lemma_trailing_whitespace(s, s.len() as int);
    } else {
        lemma_leading_whitespace_bounds(s);
        assert(trim_seq(s) =~= s);
    }
    assert(trim_seq(s) =~= s);
}

/// The bounds of `s[from..]` without its leading and trailing whitespace.
fn trim_bounds(cs: &Vec<char>, from: usize) -> (res: (usize, usize))
    requires
        from <= cs@.len(),
    ensures
        from <= res.0 <= res.1 <= cs@.len(),
        res.0 - from == leading_whitespace(cs@.subrange(from as int, cs@.len() as int)),
        cs@.subrange(res.0 as int, res.1 as int) == trim_end_seq(
            cs@.subrange(res.0 as int, cs@.len() as int),
        ),
{
    let n = cs.len();
    let mut start = from;
    while start < n && char_is_whitespace(cs[start])
        invariant
            n == cs@.len(),
            from <= start <= n,
            forall|j: int| from <= j < start ==> is_whitespace(#[trigger] cs@[j]),
        decreases n - start,
    {
        start = start + 1;
    }
    let ghost tail = cs@.subrange(from as int, n as int);
    proof {
        assert forall|j: int| 0 <= j < start - from implies is_whitespace(#[trigger] tail[j]) by {
            assert(tail[j] == cs@[from + j]);
        }
        if start < n {
            assert(tail[start - from] == cs@[start as int]);
        }
        lemma_leading_whitespace(tail, start - from);
    }
    let mut end = n;
    while end > start && char_is_whitespace(cs[end - 1])
        invariant
            n == cs@.len(),
            start <= end <= n,
            forall|j: int| end <= j < n ==> is_whitespace(#[trigger] cs@[j]),
        decreases end,
    {
        end = end - 1;
    }
    let ghost rest = cs@.subrange(start as int, n as int);
    proof {
        assert forall|j: int| end - start <= j < rest.len() implies is_whitespace(#[trigger] rest[j]) by {
            assert(rest[j] == cs@[start + j]);
        }
        if end > start {
            assert(rest[end - start - 1] == cs@[end - 1]);
        }
        lemma_trailing_whitespace(rest, end - start);
        assert(rest.subrange(0, end - start) =~= cs@.subrange(start as int, end as int));
    }
    (start, end)
}

/// `s` without its leading and trailing whitespace.
pub fn trim(s: &str) -> (res: &str)
    ensures
        res@ == trim_seq(s@),
{
    let cs = chars_of(s);
    let (start, end) = trim_bounds(&cs, 0);
    proof {
        assert(cs@.subrange(0, cs@.len() as int) =~= cs@);
    }
    s.substring_char(start, end)
}

/// The character of a decimal digit.
pub open spec fn digit_char(d: nat) -> char {
    if d == 0 { '0' } else if d == 1 { '1' } else if d == 2 { '2' } else if d == 3 { '3' }
    else if d == 4 { '4' } else if d == 5 { '5' } else if d == 6 { '6' } else if d == 7 { '7' }
    else if d == 8 { '8' } else { '9' }
}

/// The decimal digits of a natural number, without leading zeros.
pub open spec fn nat_decimal(n: nat) -> Seq<char>
    decreases n,
{
    if n < 10 {
        seq![digit_char(n)]
    } else {
        nat_decimal(n / 10) + seq![digit_char(n % 10)]
    }
}

/// The decimal form of an integer, with a leading `-` when it is negative.
pub open spec fn int_decimal(i: int) -> Seq<char> {
    if i < 0 {
        seq!['-'] + nat_decimal((-i) as nat)
    } else {
        nat_decimal(i as nat)
    }
}

fn digit_str(d: u64) -> (s: &'static str)
    requires
        d < 10,
    ensures
        s@ == seq![digit_char(d as nat)],
{
    proof {
        reveal_strlit("0");
        reveal_strlit("1");
        reveal_strlit("2");
        reveal_strlit("3");
        reveal_strlit("4");
        reveal_strlit("5");
        reveal_strlit("6");
        reveal_strlit("7");
        reveal_strlit("8");
        reveal_strlit("9");
    }
    if d == 0 { "0" } else if d == 1 { "1" } else if d == 2 { "2" } else if d == 3 { "3" }
    else if d == 4 { "4" } else if d == 5 { "5" } else if d == 6 { "6" } else if d == 7 { "7" }
    else if d == 8 { "8" } else { "9" }
}

/// Appends the decimal digits of `n` to `out`.
pub fn append_nat_decimal(out: &mut String, n: u64)
    ensures
        final(out)@ == old(out)@ + nat_decimal(n as nat),
    decreases n,
{
    if n >= 10 {
        append_nat_decimal(out, n / 10);
    }
    out.append(digit_str(n % 10));
    proof {
        if n >= 10 {
            assert(old(out)@ + nat_decimal((n / 10) as nat) + seq![digit_char((n % 10) as nat)]
                =~= old(out)@ + nat_decimal(n as nat));
        }
    }
}

/// Appends the decimal form of `i` to `out`.
pub fn append_i32_decimal(out: &mut String, i: i32)
    ensures
        final(out)@ == old(out)@ + int_decimal(i as int),
{
    proof {
        reveal_strlit("-");
    }
    if i < 0 {
        out.append("-");
        let magnitude: i64 = -(i as i64);
        append_nat_decimal(out, magnitude as u64);
        assert(out@ =~= old(out)@ + int_decimal(i as int));
    } else {
        append_nat_decimal(out, i as u64);
    }
}


/// The lower-case form of a string as `str::to_lowercase` gives it (Unicode's lower-case
/// mappings, with its rule for final sigma).
pub uninterp spec fn lowercase(s: Seq<char>) -> Seq<char>;

/// The lower-case form of a string, from `str::to_lowercase`.
#[verifier::external_body]
pub(crate) fn to_lowercase(s: &str) -> (res: String)
    ensures
        res@ == lowercase(s@),
{
    s.to_lowercase()
}

/// Whether `needle` occurs in `hay` at index `i`.
pub open spec fn occurs_at(hay: Seq<char>, needle: Seq<char>, i: int) -> bool {
    0 <= i <= hay.len() - needle.len() && hay.subrange(i, i + needle.len()) == needle
}

/// Whether `needle` occurs in `hay` as a contiguous run.
pub open spec fn seq_contains(hay: Seq<char>, needle: Seq<char>) -> bool {
    exists|i: int| #[trigger] occurs_at(hay, needle, i)
}

/// Whether `hay[start..start + needle.len()]` is `needle`, for every start below `upto`.
fn contains_chars(hay: &Vec<char>, needle: &Vec<char>, from: usize, to: usize) -> (res: bool)
    requires
        from <= to <= needle@.len(),
    ensures
        res == seq_contains(hay@, needle@.subrange(from as int, to as int)),
{
    let ghost w = needle@.subrange(from as int, to as int);
    let mut part: Vec<char> = Vec::new();
    let mut k = from;
    while k < to
        invariant
            from <= k <= to,
            to <= needle@.len(),
            part@ == needle@.subrange(from as int, k as int),
        decreases to - k,
    {
        part.push(needle[k]);
        k = k + 1;
        assert(part@ =~= needle@.subrange(from as int, k as int));
    }
    assert(part@ == w);
    let n = hay.len();
    let m = part.len();
    if m == 0 {
        assert(hay@.subrange(0, 0) =~= w);
        assert(occurs_at(hay@, w, 0));
        return true;
    }
    if m > n {
        return false;
    }
    let mut i: usize = 0;
    while i < n - m + 1
        invariant
            0 < m <= n,
            w == needle@.subrange(from as int, to as int),
            n == hay@.len(),
            m == w.len(),
            part@ == w,
            i <= n - m + 1,
            forall|j: int| 0 <= j < i ==> !#[trigger] occurs_at(hay@, w, j),
        decreases n - m + 1 - i,
    {
        if chars_match_at(hay, i, &part) {
            assert(occurs_at(hay@, w, i as int));
            return true;
        }
        i = i + 1;
    }
    false
}

/// Whether `q[i..j]` is a word of `q`: a maximal run of characters that are not whitespace.
pub open spec fn is_word(q: Seq<char>, i: int, j: int) -> bool {
    &&& 0 <= i < j <= q.len()
    &&& (i == 0 || is_whitespace(q[i - 1]))
    &&& (j == q.len() || is_whitespace(q[j]))
    &&& forall|k: int| i <= k < j ==> !is_whitespace(#[trigger] q[k])
}

/// Whether every whitespace-separated word of `query` occurs in `hay`.
pub open spec fn all_words_occur(hay: Seq<char>, query: Seq<char>) -> bool {
    forall|i: int, j: int| #[trigger] is_word(query, i, j) ==> seq_contains(hay, query.subrange(i, j))
}

/// Whether every whitespace-separated word of `query` occurs in `hay`.
pub fn all_words_contained(hay: &Vec<char>, query: &Vec<char>) -> (res: bool)
    ensures
        res == all_words_occur(hay@, query@),
{
    let n = query.len();
    let mut pos: usize = 0;
    while pos < n
        invariant
            n == query@.len(),
            pos <= n,
            pos == 0 || pos == n || is_whitespace(query@[pos as int]),
            forall|i: int, j: int|
                #[trigger] is_word(query@, i, j) && j <= pos ==> seq_contains(hay@, query@.subrange(i, j)),
        decreases n - pos,
    {
        let mut start = pos;
        while start < n && char_is_whitespace(query[start])
            invariant
                n == query@.len(),
                pos <= start <= n,
                forall|k: int| pos <= k < start ==> is_whitespace(#[trigger] query@[k]),
            decreases n - start,
        {
            start = start + 1;
        }
        if start == n {
            assert forall|i: int, j: int| #[trigger] is_word(query@, i, j) implies seq_contains(
                hay@,
                query@.subrange(i, j),
            ) by {
                if j > pos {
                    assert(!is_whitespace(query@[j - 1]));
                    if i < pos {
                        assert(!is_whitespace(query@[pos as int]));
                    }
                    if i >= pos {
                        assert(is_whitespace(query@[i]));
                    }
                }
            }
            assert(all_words_occur(hay@, query@));
            return true;
        }
        let mut end = start;
        while end < n && !char_is_whitespace(query[end])
            invariant
                n == query@.len(),
                start <= end <= n,
                forall|k: int| start <= k < end ==> !is_whitespace(#[trigger] query@[k]),
            decreases n - end,
        {
            end = end + 1;
        }
        assert(start < n && !is_whitespace(query@[start as int]));
        assert(is_word(query@, start as int, end as int)) by {
            if start > 0 {
                if start == pos {
                    assert(pos > 0);
                    assert(is_whitespace(query@[pos as int]));
                } else {
                    assert(is_whitespace(query@[start - 1]));
                }
            }
        }
        if !contains_chars(hay, query, start, end) {
            assert(!seq_contains(hay@, query@.subrange(start as int, end as int)));
            assert(!all_words_occur(hay@, query@));
            return false;
        }
        assert forall|i: int, j: int| #[trigger] is_word(query@, i, j) && j <= end implies seq_contains(
            hay@,
            query@.subrange(i, j),
        ) by {
            if j > pos {
                assert(!is_whitespace(query@[j - 1]));
                if i < pos {
                    assert(!is_whitespace(query@[pos as int]));
                }
                if i < start {
                    assert(!is_whitespace(query@[i]));
                }
                if i > start {
                    assert(!is_whitespace(query@[i - 1]));
                }
                if j < end {
                    assert(is_whitespace(query@[j]));
                }
                if j > end {
                    assert(!is_whitespace(query@[end as int]));
                }
                assert(i == start && j == end);
            }
        }
        pos = end;
    }
    true
}


/// Whether `w` is one of the whitespace-separated words of `q`.
pub open spec fn has_word(q: Seq<char>, w: Seq<char>) -> bool {
    exists|i: int, j: int| #[trigger] is_word(q, i, j) && q.subrange(i, j) == w
}

/// Whether every word of `q1` is also a word of `q2`.
pub open spec fn words_within(q1: Seq<char>, q2: Seq<char>) -> bool {
    forall|i: int, j: int| #[trigger] is_word(q1, i, j) ==> has_word(q2, q1.subrange(i, j))
}

/// A text that holds every word of a query holds every word of a query with fewer words.
pub proof fn lemma_fewer_words_still_occur(hay: Seq<char>, q1: Seq<char>, q2: Seq<char>)
    requires
        words_within(q1, q2),
        all_words_occur(hay, q2),
    ensures
        all_words_occur(hay, q1),
{
    assert forall|i: int, j: int| #[trigger] is_word(q1, i, j) implies seq_contains(
        hay,
        q1.subrange(i, j),
    ) by {
        assert(has_word(q2, q1.subrange(i, j)));
        let (k, l) = choose|k: int, l: int| #[trigger] is_word(q2, k, l) && q2.subrange(k, l)
            == q1.subrange(i, j);
        assert(seq_contains(hay, q2.subrange(k, l)));
    }
}

} // verus!
