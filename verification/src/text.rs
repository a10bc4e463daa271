//! Character-level helpers shared by the parsers and formatters.
use vstd::prelude::*;

verus! {

/// The Unicode `White_Space` property, which `char::is_whitespace` follows.
pub open spec fn is_ws(c: char) -> bool {
    ||| c == '\t' || c == '\n' || c == '\u{0B}' || c == '\u{0C}' || c == '\r' || c == ' '
    ||| c == '\u{85}' || c == '\u{A0}' || c == '\u{1680}'
    ||| ('\u{2000}' <= c && c <= '\u{200A}')
    ||| c == '\u{2028}' || c == '\u{2029}' || c == '\u{202F}' || c == '\u{205F}'
    ||| c == '\u{3000}'
}

/// Whether `c` is white space in the sense of `char::is_whitespace`.
pub fn is_whitespace(c: char) -> (b: bool)
    ensures
        b == is_ws(c),
{
    c == '\t' || c == '\n' || c == '\u{0B}' || c == '\u{0C}' || c == '\r' || c == ' '
        || c == '\u{85}' || c == '\u{A0}' || c == '\u{1680}' || ('\u{2000}' <= c && c
        <= '\u{200A}') || c == '\u{2028}' || c == '\u{2029}' || c == '\u{202F}' || c
        == '\u{205F}' || c == '\u{3000}'
}

/// Every character of `s` is white space (so `s.trim()` is empty).
pub open spec fn all_ws(s: Seq<char>) -> bool {
    forall|i: int| 0 <= i < s.len() ==> is_ws(#[trigger] s[i])
}

/// Some character of `s` is white space.
pub open spec fn has_ws(s: Seq<char>) -> bool {
    exists|i: int| 0 <= i < s.len() && is_ws(#[trigger] s[i])
}

/// The characters of a string slice, in order.
pub fn chars_of(s: &str) -> (v: Vec<char>)
    ensures
        v@ == s@,
{
    let mut v: Vec<char> = Vec::new();
    for c in it: s.chars()
        invariant
            v@ == it.seq().take(it.index() as int),
            it.seq() == s@,
    {
        v.push(c);
    }
    v
}

/// Builds a `String` from its characters.
#[verifier::external_body]
pub fn string_from_chars(v: &[char]) -> (s: String)
    ensures
        s@ == v@,
{
    String::from_iter(v.iter())
}

/// The `String` holding the characters of `s`.
pub fn owned(s: &str) -> (r: String)
    ensures
        r@ == s@,
{
    s.to_owned()
}

/// `s` without its leading white space (as `str::trim_start`).
pub open spec fn trim_start(s: Seq<char>) -> Seq<char>
    decreases s.len(),
{
    if s.len() == 0 {
        s
    } else if is_ws(s[0]) {
        trim_start(s.drop_first())
    } else {
        s
    }
}

/// `s` without its trailing white space (as `str::trim_end`).
pub open spec fn trim_end(s: Seq<char>) -> Seq<char>
    decreases s.len(),
{
    if s.len() == 0 {
        s
    } else if is_ws(s.last()) {
        trim_end(s.drop_last())
    } else {
        s
    }
}

/// `s` with leading and trailing white space removed (as `str::trim`).
pub open spec fn trim(s: Seq<char>) -> Seq<char> {
    trim_end(trim_start(s))
}

/// A trimmed string is empty exactly when the string is all white space.
pub proof fn lemma_trim_empty_iff_all_ws(s: Seq<char>)
    ensures
        (trim(s).len() == 0) == all_ws(s),
{
    lemma_trim_start_empty(s);
    lemma_trim_end_empty(trim_start(s));
    lemma_trim_start_head(s);
    if trim_start(s).len() > 0 {
        assert(!is_ws(trim_start(s)[0]));
    }
}

proof fn lemma_trim_start_empty(s: Seq<char>)
    ensures
        (trim_start(s).len() == 0) == all_ws(s),
    decreases s.len(),
{
    if s.len() > 0 {
        lemma_trim_start_empty(s.drop_first());
        if is_ws(s[0]) {
            assert forall|i: int| 0 <= i < s.len() && all_ws(s.drop_first()) implies is_ws(
                #[trigger] s[i],
            ) by {
                if i > 0 {
                    assert(s[i] == s.drop_first()[i - 1]);
                }
            }
            if all_ws(s) {
                assert forall|i: int| 0 <= i < s.drop_first().len() implies is_ws(
                    #[trigger] s.drop_first()[i],
                ) by {
                    assert(s.drop_first()[i] == s[i + 1]);
                }
            }
        } else {
            assert(!is_ws(s[0]));
        }
    }
}

proof fn lemma_trim_end_empty(s: Seq<char>)
    ensures
        (trim_end(s).len() == 0) == all_ws(s),
    decreases s.len(),
{
    if s.len() > 0 {
        lemma_trim_end_empty(s.drop_last());
        if is_ws(s.last()) {
            assert forall|i: int| 0 <= i < s.len() && all_ws(s.drop_last()) implies is_ws(
                #[trigger] s[i],
            ) by {
                if i < s.len() - 1 {
                    assert(s[i] == s.drop_last()[i]);
                }
            }
            if all_ws(s) {
                assert forall|i: int| 0 <= i < s.drop_last().len() implies is_ws(
                    #[trigger] s.drop_last()[i],
                ) by {
                    assert(s.drop_last()[i] == s[i]);
                }
            }
        } else {
            assert(!is_ws(s[s.len() - 1]));
        }
    }
}

proof fn lemma_trim_start_head(s: Seq<char>)
    ensures
        trim_start(s).len() > 0 ==> !is_ws(trim_start(s)[0]),
    decreases s.len(),
{
    if s.len() > 0 {
        lemma_trim_start_head(s.drop_first());
    }
}

/// A copy of `v[a..b]`.
pub fn copy_range<T: Copy>(v: &[T], a: usize, b: usize) -> (r: Vec<T>)
    requires
        a <= b <= v@.len(),
    ensures
        r@ == v@.subrange(a as int, b as int),
{
    let mut r: Vec<T> = Vec::new();
    let mut k = a;
    while k < b
        invariant
            a <= k <= b <= v@.len(),
            r@ == v@.subrange(a as int, k as int),
        decreases b - k,
    {
        r.push(v[k]);
        k = k + 1;
    }
    r
}

/// The characters of `v` with leading and trailing white space removed.
pub fn trim_chars(v: &[char]) -> (r: Vec<char>)
    ensures
        r@ == trim(v@),
{
    let n = v.len();
    let mut i: usize = 0;
    assert(v@.subrange(0, n as int) =~= v@);
    while i < n && is_whitespace(v[i])
        invariant
            i <= n == v@.len(),
            trim_start(v@) == trim_start(v@.subrange(i as int, n as int)),
        decreases n - i,
    {
        assert(v@.subrange(i as int, n as int).drop_first() =~= v@.subrange(i + 1, n as int));
        i = i + 1;
    }
    assert(trim_start(v@) == v@.subrange(i as int, n as int));
    let mut j: usize = n;
    while j > i && is_whitespace(v[j - 1])
        invariant
            i <= j <= n == v@.len(),
            trim(v@) == trim_end(v@.subrange(i as int, j as int)),
        decreases j,
    {
        assert(v@.subrange(i as int, j as int).drop_last() =~= v@.subrange(i as int, j - 1));
        j = j - 1;
    }
    copy_range(v, i, j)
}

/// Whether `s.trim()` is empty, that is, every character is white space.
pub fn is_blank(s: &[char]) -> (b: bool)
    ensures
        b == all_ws(s@),
        b == (trim(s@).len() == 0),
{
    proof {
        lemma_trim_empty_iff_all_ws(s@);
    }
    let mut i: usize = 0;
    while i < s.len()
        invariant
            i <= s@.len(),
            forall|k: int| 0 <= k < i ==> is_ws(#[trigger] s@[k]),
        decreases s@.len() - i,
    {
        if !is_whitespace(s[i]) {
            assert(!is_ws(s@[i as int]));
            assert(!all_ws(s@));
            proof {
                lemma_trim_empty_iff_all_ws(s@);
            }
            return false;
        }
        i = i + 1;
    }
    true
}

/// Whether some character of `s` is white space.
pub fn contains_whitespace(s: &[char]) -> (b: bool)
    ensures
        b == has_ws(s@),
{
    let mut i: usize = 0;
    while i < s.len()
        invariant
            i <= s@.len(),
            forall|k: int| 0 <= k < i ==> !is_ws(#[trigger] s@[k]),
        decreases s@.len() - i,
    {
        if is_whitespace(s[i]) {
            return true;
        }
        i = i + 1;
    }
    false
}

/// Length of the leading run of non-white-space characters.
pub open spec fn word_len(s: Seq<char>) -> nat
    decreases s.len(),
{
    if s.len() == 0 || is_ws(s[0]) {
        0
    } else {
        1 + word_len(s.drop_first())
    }
}

pub proof fn lemma_word_len_bound(s: Seq<char>)
    ensures
        word_len(s) <= s.len(),
    decreases s.len(),
{
    if s.len() > 0 {
        lemma_word_len_bound(s.drop_first());
    }
}

/// The white-space separated words of `s` (as `str::split_whitespace`).
pub open spec fn words(s: Seq<char>) -> Seq<Seq<char>>
    decreases s.len(),
{
    if s.len() == 0 {
        seq![]
    } else if is_ws(s[0]) {
        words(s.drop_first())
    } else {
        let k = word_len(s);
        proof {
            lemma_word_len_bound(s);
        }
        seq![s.subrange(0, k as int)] + words(s.subrange(k as int, s.len() as int))
    }
}

/// Splits `v` at white space, dropping empty pieces (as `str::split_whitespace`).
pub fn split_whitespace(v: &[char]) -> (r: Vec<String>)
    ensures
        r.deep_view() == words(v@),
{
    let n = v.len();
    let mut r: Vec<String> = Vec::new();
    let mut i: usize = 0;
    assert(v@.subrange(0, n as int) =~= v@);
    while i < n
        invariant
            i <= n == v@.len(),
            words(v@) == r.deep_view() + words(v@.subrange(i as int, n as int)),
        decreases n - i,
    {
        let ghost rest = v@.subrange(i as int, n as int);
        if is_whitespace(v[i]) {
            assert(rest.drop_first() =~= v@.subrange(i + 1, n as int));
            i = i + 1;
        } else {
            let mut j = i + 1;
            assert(rest.drop_first() =~= v@.subrange(i + 1, n as int));
            while j < n && !is_whitespace(v[j])
                invariant
                    i < j <= n == v@.len(),
                    rest == v@.subrange(i as int, n as int),
                    word_len(rest) == (j - i) + word_len(v@.subrange(j as int, n as int)),
                decreases n - j,
            {
                assert(v@.subrange(j as int, n as int).drop_first() =~= v@.subrange(
                    j + 1,
                    n as int,
                ));
                j = j + 1;
            }
            assert(word_len(v@.subrange(j as int, n as int)) == 0);
            let w = copy_range(v, i, j);
            let ws = string_from_chars(w.as_slice());
            assert(rest.subrange(0, (j - i) as int) =~= v@.subrange(i as int, j as int));
            assert(rest.subrange((j - i) as int, rest.len() as int) =~= v@.subrange(
                j as int,
                n as int,
            ));
            let ghost before = r.deep_view();
            r.push(ws);
            assert(r.deep_view() =~= before.push(ws@));
            assert(words(rest) == seq![v@.subrange(i as int, j as int)] + words(
                v@.subrange(j as int, n as int),
            ));
            i = j;
        }
    }
    assert(r.deep_view() + words(v@.subrange(n as int, n as int)) =~= r.deep_view());
    r
}

/// Number of characters before the first line feed (or the length).
pub open spec fn line_len(s: Seq<char>) -> nat
    decreases s.len(),
{
    if s.len() == 0 || s[0] == '\n' {
        0
    } else {
        1 + line_len(s.drop_first())
    }
}

pub proof fn lemma_line_len_bound(s: Seq<char>)
    ensures
        line_len(s) <= s.len(),
        line_len(s) < s.len() ==> s[line_len(s) as int] == '\n',
        forall|i: int| 0 <= i < line_len(s) ==> s[i] != '\n',
    decreases s.len(),
{
    if s.len() > 0 && s[0] != '\n' {
        lemma_line_len_bound(s.drop_first());
        assert forall|i: int| 0 <= i < line_len(s) implies s[i] != '\n' by {
            if i > 0 {
                assert(s[i] == s.drop_first()[i - 1]);
            }
        }
    }
}

/// A line without the carriage return of a `\r\n` ending.
pub open spec fn strip_cr(s: Seq<char>) -> Seq<char> {
    if s.len() > 0 && s.last() == '\r' {
        s.drop_last()
    } else {
        s
    }
}

/// The lines of `s` (as `str::lines`): split at `\n` or `\r\n`; a final
/// line ending does not start an empty line.
pub open spec fn lines(s: Seq<char>) -> Seq<Seq<char>>
    decreases s.len(),
{
    if s.len() == 0 {
        seq![]
    } else {
        let k = line_len(s);
        proof {
            lemma_line_len_bound(s);
        }
        if k == s.len() {
            seq![s]
        } else {
            seq![strip_cr(s.subrange(0, k as int))] + lines(s.subrange(k + 1int, s.len() as int))
        }
    }
}

/// The lines of `v` (as `str::lines`).
pub fn split_lines(v: &[char]) -> (r: Vec<Vec<char>>)
    ensures
        r.deep_view() == lines(v@),
{
    let n = v.len();
    let mut r: Vec<Vec<char>> = Vec::new();
    let mut i: usize = 0;
    assert(v@.subrange(0, n as int) =~= v@);
    while i < n
        invariant
            i <= n == v@.len(),
            lines(v@) == r.deep_view() + lines(v@.subrange(i as int, n as int)),
        decreases n - i,
    {
        let ghost rest = v@.subrange(i as int, n as int);
        let mut j = i;
        while j < n && v[j] != '\n'
            invariant
                i <= j <= n == v@.len(),
                rest == v@.subrange(i as int, n as int),
                line_len(rest) == (j - i) + line_len(v@.subrange(j as int, n as int)),
            decreases n - j,
        {
            assert(v@.subrange(j as int, n as int).drop_first() =~= v@.subrange(
                j + 1,
                n as int,
            ));
            j = j + 1;
        }
        assert(line_len(v@.subrange(j as int, n as int)) == 0);
        let ghost before = r.deep_view();
        if j == n {
            let w = copy_range(v, i, j);
            assert(w@ =~= rest);
            assert(w.deep_view() =~= w@);
            r.push(w);
            assert(r.deep_view() =~= before.push(rest));
            assert(lines(v@.subrange(n as int, n as int)) =~= seq![]);
            i = n;
        } else {
            let mut e = j;
            if e > i && v[e - 1] == '\r' {
                e = e - 1;
            }
            let w = copy_range(v, i, e);
            assert(w@ =~= strip_cr(rest.subrange(0, (j - i) as int)));
            assert(w.deep_view() =~= w@);
            r.push(w);
            assert(r.deep_view() =~= before.push(w@));
            assert(rest.subrange((j - i) + 1, rest.len() as int) =~= v@.subrange(
                j + 1,
                n as int,
            ));
            i = j + 1;
        }
    }
    assert(r.deep_view() + lines(v@.subrange(n as int, n as int)) =~= r.deep_view());
    r
}

/// `s` begins with `p`.
pub open spec fn has_prefix(s: Seq<char>, p: Seq<char>) -> bool {
    p.len() <= s.len() && s.subrange(0, p.len() as int) == p
}

/// `s` ends with `p`.
pub open spec fn has_suffix(s: Seq<char>, p: Seq<char>) -> bool {
    p.len() <= s.len() && s.subrange(s.len() - p.len(), s.len() as int) == p
}

/// Whether `s` starts with `p` (as `str::starts_with`).
pub fn starts_with(s: &[char], p: &[char]) -> (b: bool)
    ensures
        b == has_prefix(s@, p@),
{
    if p.len() > s.len() {
        return false;
    }
    let mut i: usize = 0;
    while i < p.len()
        invariant
            i <= p@.len() <= s@.len(),
            forall|k: int| 0 <= k < i ==> s@[k] == p@[k],
        decreases p@.len() - i,
    {
        if s[i] != p[i] {
            assert(s@.subrange(0, p@.len() as int)[i as int] != p@[i as int]);
            return false;
        }
        i = i + 1;
    }
    assert(s@.subrange(0, p@.len() as int) =~= p@);
    true
}

/// Whether `s` ends with `p` (as `str::ends_with`).
pub fn ends_with(s: &[char], p: &[char]) -> (b: bool)
    ensures
        b == has_suffix(s@, p@),
{
    if p.len() > s.len() {
        return false;
    }
    let off = s.len() - p.len();
    let mut i: usize = 0;
    while i < p.len()
        invariant
            i <= p@.len() <= s@.len(),
            off + p@.len() == s@.len(),
            off + p.len() == s.len(),
            forall|k: int| 0 <= k < i ==> s@[off + k] == p@[k],
        decreases p@.len() - i,
    {
        if s[off + i] != p[i] {
            assert(s@.subrange(off as int, s@.len() as int)[i as int] != p@[i as int]);
            return false;
        }
        i = i + 1;
    }
    assert(s@.subrange(off as int, s@.len() as int) =~= p@);
    true
}

/// Whether `a` and `b` hold the same characters.
pub fn chars_eq(a: &[char], b: &[char]) -> (r: bool)
    ensures
        r == (a@ == b@),
{
    if a.len() != b.len() {
        return false;
    }
    let mut i: usize = 0;
    while i < a.len()
        invariant
            i <= a@.len() == b@.len(),
            forall|k: int| 0 <= k < i ==> a@[k] == b@[k],
        decreases a@.len() - i,
    {
        if a[i] != b[i] {
            return false;
        }
        i = i + 1;
    }
    assert(a@ =~= b@);
    true
}

/// Whether `s` holds exactly the characters of the literal `lit`.
pub fn is_literal(s: &[char], lit: &str) -> (r: bool)
    ensures
        r == (s@ == lit@),
{
    let l = chars_of(lit);
    chars_eq(s, l.as_slice())
}

/// Whether `s` starts with the literal `lit`.
pub fn starts_with_literal(s: &[char], lit: &str) -> (r: bool)
    ensures
        r == has_prefix(s@, lit@),
{
    let l = chars_of(lit);
    starts_with(s, l.as_slice())
}

/// Whether `s` ends with the literal `lit`.
pub fn ends_with_literal(s: &[char], lit: &str) -> (r: bool)
    ensures
        r == has_suffix(s@, lit@),
{
    let l = chars_of(lit);
    ends_with(s, l.as_slice())
}

/// Whether two string slices hold the same characters.
pub fn str_eq(a: &str, b: &str) -> (r: bool)
    ensures
        r == (a@ == b@),
{
    let x = chars_of(a);
    let y = chars_of(b);
    chars_eq(x.as_slice(), y.as_slice())
}

/// `s` with leading and trailing white space removed, as a new `String`.
pub fn trimmed(s: &str) -> (r: String)
    ensures
        r@ == trim(s@),
{
    let v = chars_of(s);
    let t = trim_chars(v.as_slice());
    string_from_chars(t.as_slice())
}

/// The concatenation of two strings.
pub fn concat(a: &str, b: &str) -> (r: String)
    ensures
        r@ == a@ + b@,
{
    let mut v = chars_of(a);
    let w = chars_of(b);
    let mut i: usize = 0;
    let ghost start = v@;
    while i < w.len()
        invariant
            i <= w@.len(),
            v@ == start + w@.subrange(0, i as int),
        decreases w@.len() - i,
    {
        v.push(w[i]);
        assert(v@ =~= start + w@.subrange(0, i + 1));
        i = i + 1;
    }
    assert(w@.subrange(0, w@.len() as int) =~= w@);
    string_from_chars(v.as_slice())
}

/// The concatenation of three strings.
pub fn concat3(a: &str, b: &str, c: &str) -> (r: String)
    ensures
        r@ == a@ + b@ + c@,
{
    let ab = concat(a, b);
    concat(ab.as_str(), c)
}

/// A copy of a list of string pairs.
pub fn clone_pairs(v: &Vec<(String, String)>) -> (r: Vec<(String, String)>)
    ensures
        r@ == v@,
{
    let mut r: Vec<(String, String)> = Vec::new();
    let mut i: usize = 0;
    while i < v.len()
        invariant
            i <= v@.len(),
            r@ == v@.subrange(0, i as int),
        decreases v@.len() - i,
    {
        let (a, b) = &v[i];
        r.push((a.clone(), b.clone()));
        assert(r@ =~= v@.subrange(0, i + 1));
        i = i + 1;
    }
    assert(v@.subrange(0, v@.len() as int) =~= v@);
    r
}

/// What `str::to_lowercase` returns for a string with characters `s`.
pub uninterp spec fn lowercase(s: Seq<char>) -> Seq<char>;

/// ASCII lower-casing of one character.
pub open spec fn ascii_lower_char(c: char) -> char {
    if 'A' <= c && c <= 'Z' {
        ((c as int) + 32) as char
    } else {
        c
    }
}

/// ASCII lower-casing of every character.
pub open spec fn ascii_lower(s: Seq<char>) -> Seq<char> {
    s.map_values(|c: char| ascii_lower_char(c))
}

/// ASCII upper-casing of one character.
pub open spec fn ascii_upper_char(c: char) -> char {
    if 'a' <= c && c <= 'z' {
        ((c as int) - 32) as char
    } else {
        c
    }
}

/// ASCII upper-casing of every character.
pub open spec fn ascii_upper(s: Seq<char>) -> Seq<char> {
    s.map_values(|c: char| ascii_upper_char(c))
}

/// Every character is ASCII.
pub open spec fn is_ascii_seq(s: Seq<char>) -> bool {
    forall|i: int| 0 <= i < s.len() ==> (#[trigger] s[i] as int) < 128
}

/// Calls `str::to_lowercase`. Its result is named `lowercase`; of it the
/// contract states only what the documentation plainly gives for ASCII text:
/// each ASCII character is mapped to its ASCII lower case.
#[verifier::external_body]
pub fn to_lowercase(s: &str) -> (r: String)
    ensures
        r@ == lowercase(s@),
        is_ascii_seq(s@) ==> r@ == ascii_lower(s@),
{
    s.to_lowercase()
}

} // verus!
