//! A small ANSI escape code reader for shell output: it turns a line holding
//! SGR sequences (`ESC [ ... m`) into styled text segments.
use vstd::prelude::*;
use crate::num::{dec, parse_unsigned, parse_unsigned_exec};
use crate::text::string_from_chars;

verus! {

/// One SGR instruction.
#[derive(Debug, Clone, PartialEq, Eq, Structural)]
pub enum Style {
    Reset,
    Bold,
    /// 0-7 basic, 8-15 bright
    Fg(u8),
    Bg(u8),
}

/// A run of visible text with the style in force when it was written.
#[derive(Debug, Clone)]
pub struct StyledSpan {
    pub text: String,
    pub fg: Option<u8>,
    pub bg: Option<u8>,
    pub bold: bool,
}

/// A styled span as mathematical values.
pub struct SpanView {
    pub text: Seq<char>,
    pub fg: Option<u8>,
    pub bg: Option<u8>,
    pub bold: bool,
}

impl View for StyledSpan {
    type V = SpanView;

    open spec fn view(&self) -> SpanView {
        SpanView { text: self.text@, fg: self.fg, bg: self.bg, bold: self.bold }
    }
}

/// The style in force while reading a line.
#[derive(Clone, Copy)]
pub struct SgrState {
    pub fg: Option<u8>,
    pub bg: Option<u8>,
    pub bold: bool,
}

pub open spec fn plain() -> SgrState {
    SgrState { fg: None, bg: None, bold: false }
}

/// The effect of one SGR parameter `n`; unsupported codes change nothing.
pub open spec fn apply_sgr(st: SgrState, n: u8) -> SgrState {
    if n == 0 {
        plain()
    } else if n == 1 {
        SgrState { bold: true, ..st }
    } else if n == 22 {
        SgrState { bold: false, ..st }
    } else if 30 <= n <= 37 {
        SgrState { fg: Some((n - 30) as u8), ..st }
    } else if 40 <= n <= 47 {
        SgrState { bg: Some((n - 40) as u8), ..st }
    } else if 90 <= n <= 97 {
        SgrState { fg: Some((n - 90 + 8) as u8), ..st }
    } else if 100 <= n <= 107 {
        SgrState { bg: Some((n - 100 + 8) as u8), ..st }
    } else if n == 39 {
        SgrState { fg: None, ..st }
    } else if n == 49 {
        SgrState { bg: None, ..st }
    } else {
        st
    }
}

/// What each SGR code does to the style: `0` resets everything; `1` and
/// `22` set and clear bold; `30`–`37` and `90`–`97` pick the foreground
/// (`0`–`7`, bright `8`–`15`), `40`–`47` and `100`–`107` the background,
/// each leaving the other colour and bold as they were; `39` and `49` reset
/// one colour; every other code changes nothing.
pub proof fn law_sgr_codes(st: SgrState, n: u8)
    ensures
        n == 0 ==> apply_sgr(st, n) == plain(),
        n == 1 ==> apply_sgr(st, n).bold && apply_sgr(st, n).fg == st.fg && apply_sgr(st, n).bg
            == st.bg,
        n == 22 ==> !apply_sgr(st, n).bold && apply_sgr(st, n).fg == st.fg && apply_sgr(st, n).bg
            == st.bg,
        30 <= n <= 37 ==> apply_sgr(st, n).fg == Some((n - 30) as u8) && apply_sgr(st, n).bg
            == st.bg && apply_sgr(st, n).bold == st.bold,
        90 <= n <= 97 ==> apply_sgr(st, n).fg == Some((n - 82) as u8) && apply_sgr(st, n).bg
            == st.bg && apply_sgr(st, n).bold == st.bold,
        40 <= n <= 47 ==> apply_sgr(st, n).bg == Some((n - 40) as u8) && apply_sgr(st, n).fg
            == st.fg && apply_sgr(st, n).bold == st.bold,
        100 <= n <= 107 ==> apply_sgr(st, n).bg == Some((n - 92) as u8) && apply_sgr(st, n).fg
            == st.fg && apply_sgr(st, n).bold == st.bold,
        n == 39 ==> apply_sgr(st, n).fg is None && apply_sgr(st, n).bg == st.bg
            && apply_sgr(st, n).bold == st.bold,
        n == 49 ==> apply_sgr(st, n).bg is None && apply_sgr(st, n).fg == st.fg
            && apply_sgr(st, n).bold == st.bold,
        !(n <= 1 || n == 22 || 30 <= n <= 47 || n == 49 || 90 <= n <= 97 || 100 <= n <= 107)
            ==> apply_sgr(st, n) == st,
        plain().fg is None && plain().bg is None && !plain().bold,
{
}

/// One `;`-separated parameter: applied when it parses as a `u8`, ignored
/// otherwise.
pub open spec fn apply_piece(st: SgrState, p: Seq<char>) -> SgrState {
    match parse_unsigned(p, 255) {
        Ok(n) => apply_sgr(st, n as u8),
        Err(_) => st,
    }
}

/// First index in `[s, e)` holding character `x`, or `e`.
pub open spec fn find_char(c: Seq<char>, x: char, s: int, e: int) -> int
    decreases e - s,
{
    if s >= e {
        e
    } else if c[s] == x {
        s
    } else {
        find_char(c, x, s + 1, e)
    }
}

pub proof fn lemma_find_char_range(c: Seq<char>, x: char, s: int, e: int)
    requires
        s <= e,
    ensures
        s <= find_char(c, x, s, e) <= e,
    decreases e - s,
{
    if s < e && c[s] != x {
        lemma_find_char_range(c, x, s + 1, e);
    }
}

pub proof fn lemma_find_char(c: Seq<char>, x: char, s: int, e: int)
    requires
        0 <= s <= e <= c.len(),
    ensures
        s <= find_char(c, x, s, e) <= e,
        find_char(c, x, s, e) < e ==> c[find_char(c, x, s, e)] == x,
        forall|k: int| s <= k < find_char(c, x, s, e) ==> c[k] != x,
    decreases e - s,
{
    if s < e && c[s] != x {
        lemma_find_char(c, x, s + 1, e);
    }
}

/// The parameters `c[s..e]`, split at `;` (as `str::split(';')`), applied
/// left to right.
pub open spec fn apply_params(st: SgrState, c: Seq<char>, s: int, e: int) -> SgrState
    decreases e - s,
{
    let k = find_char(c, ';', s, e);
    let st2 = apply_piece(st, c.subrange(s, k));
    if s >= e || k >= e {
        st2
    } else {
        proof {
            lemma_find_char_range(c, ';', s, e);
        }
        apply_params(st2, c, k + 1, e)
    }
}

/// Adds the pending text as a span, unless it is empty.
pub open spec fn flush(spans: Seq<SpanView>, text: Seq<char>, st: SgrState) -> Seq<SpanView> {
    if text.len() > 0 {
        spans.push(SpanView { text, fg: st.fg, bg: st.bg, bold: st.bold })
    } else {
        spans
    }
}

/// Reads `c` from index `i` on, with `spans` already produced, `text`
/// pending and style `st` in force.
pub open spec fn ansi_from(
    c: Seq<char>,
    i: int,
    spans: Seq<SpanView>,
    text: Seq<char>,
    st: SgrState,
) -> Seq<SpanView>
    decreases c.len() - i,
{
    if i < 0 || i >= c.len() {
        flush(spans, text, st)
    } else if c[i] == '\x1b' && i + 1 < c.len() && c[i + 1] == '[' {
        let j = find_char(c, 'm', i + 2, c.len() as int);
        let next = if j < c.len() {
            j + 1
        } else {
            j
        };
        proof {
            lemma_find_char_range(c, 'm', i + 2, c.len() as int);
        }
        ansi_from(c, next, flush(spans, text, st), seq![], apply_params(st, c, i + 2, j))
    } else {
        ansi_from(c, i + 1, spans, text.push(c[i]), st)
    }
}

/// The styled segments of a line of shell output: escape sequences
/// (`ESC [ ... m`) are consumed, every other character is kept as visible
/// text.
pub open spec fn ansi_spans(line: Seq<char>) -> Seq<SpanView> {
    ansi_from(line, 0, seq![], seq![], plain())
}

/// The visible text of `c` from index `i` on: every escape sequence
/// removed, every other character kept.
pub open spec fn visible_from(c: Seq<char>, i: int) -> Seq<char>
    decreases c.len() - i,
{
    if i < 0 || i >= c.len() {
        seq![]
    } else if c[i] == '\x1b' && i + 1 < c.len() && c[i + 1] == '[' {
        let j = find_char(c, 'm', i + 2, c.len() as int);
        let next = if j < c.len() {
            j + 1
        } else {
            j
        };
        proof {
            lemma_find_char_range(c, 'm', i + 2, c.len() as int);
        }
        visible_from(c, next)
    } else {
        seq![c[i]] + visible_from(c, i + 1)
    }
}

/// A line of shell output without its escape sequences.
pub open spec fn visible_text(line: Seq<char>) -> Seq<char> {
    visible_from(line, 0)
}

/// The span texts one after another.
pub open spec fn span_texts(s: Seq<SpanView>) -> Seq<char>
    decreases s.len(),
{
    if s.len() == 0 {
        seq![]
    } else {
        span_texts(s.drop_last()) + s.last().text
    }
}

/// A colour index names one of the 16 terminal colours.
pub open spec fn color_ok(c: Option<u8>) -> bool {
    c matches Some(v) ==> v <= 15
}

pub open spec fn state_ok(st: SgrState) -> bool {
    color_ok(st.fg) && color_ok(st.bg)
}

/// A span holds some text, and its colours are among the 16.
pub open spec fn span_ok(x: SpanView) -> bool {
    x.text.len() > 0 && color_ok(x.fg) && color_ok(x.bg)
}

proof fn lemma_params_keep_state_ok(st: SgrState, c: Seq<char>, s: int, e: int)
    requires
        state_ok(st),
    ensures
        state_ok(apply_params(st, c, s, e)),
    decreases e - s,
{
    let k = find_char(c, ';', s, e);
    let st2 = apply_piece(st, c.subrange(s, k));
    assert(state_ok(st2));
    if !(s >= e || k >= e) {
        lemma_find_char_range(c, ';', s, e);
        lemma_params_keep_state_ok(st2, c, k + 1, e);
    }
}

proof fn lemma_ansi_from(c: Seq<char>, i: int, spans: Seq<SpanView>, text: Seq<char>, st: SgrState)
    requires
        0 <= i,
        state_ok(st),
        forall|k: int| 0 <= k < spans.len() ==> span_ok(#[trigger] spans[k]),
    ensures
        span_texts(ansi_from(c, i, spans, text, st)) == span_texts(spans) + text + visible_from(c, i),
        forall|k: int|
            0 <= k < ansi_from(c, i, spans, text, st).len() ==> span_ok(
                #[trigger] ansi_from(c, i, spans, text, st)[k],
            ),
    decreases c.len() - i,
{
    let f = flush(spans, text, st);
    assert(span_texts(f) == span_texts(spans) + text) by {
        if text.len() > 0 {
            assert(f.drop_last() =~= spans);
        } else {
            assert(text =~= seq![]);
            assert(span_texts(spans) + text =~= span_texts(spans));
        }
    }
    assert(forall|k: int| 0 <= k < f.len() ==> span_ok(#[trigger] f[k]));
    if i >= c.len() {
        assert(span_texts(spans) + text + visible_from(c, i) =~= span_texts(spans) + text);
    } else if c[i] == '\x1b' && i + 1 < c.len() && c[i + 1] == '[' {
        let j = find_char(c, 'm', i + 2, c.len() as int);
        lemma_find_char_range(c, 'm', i + 2, c.len() as int);
        let next = if j < c.len() {
            j + 1
        } else {
            j
        };
        lemma_params_keep_state_ok(st, c, i + 2, j);
        lemma_ansi_from(c, next, f, seq![], apply_params(st, c, i + 2, j));
        assert(span_texts(f) + seq![] =~= span_texts(f));
    } else {
        lemma_ansi_from(c, i + 1, spans, text.push(c[i]), st);
        assert(span_texts(spans) + text.push(c[i]) + visible_from(c, i + 1) =~= span_texts(spans)
            + text + (seq![c[i]] + visible_from(c, i + 1)));
    }
}

proof fn lemma_plain_tail(c: Seq<char>, i: int, spans: Seq<SpanView>, text: Seq<char>, st: SgrState)
    requires
        0 <= i <= c.len(),
        forall|k: int| i <= k < c.len() ==> c[k] != '\x1b',
    ensures
        ansi_from(c, i, spans, text, st) == flush(spans, text + c.subrange(i, c.len() as int), st),
    decreases c.len() - i,
{
    if i < c.len() {
        lemma_plain_tail(c, i + 1, spans, text.push(c[i]), st);
        assert(text.push(c[i]) + c.subrange(i + 1, c.len() as int) =~= text + c.subrange(
            i,
            c.len() as int,
        ));
    } else {
        assert(text + c.subrange(i, c.len() as int) =~= text);
    }
}

/// A line made of one SGR sequence `ESC [ n m` and then plain text reads
/// as one span holding that text, styled as code `n` sets it from the
/// plain style: `ESC[41mERROR` is `ERROR` on a red background.
pub proof fn law_one_code_then_text(n: u8, t: Seq<char>)
    requires
        t.len() > 0,
        forall|k: int| 0 <= k < t.len() ==> t[k] != '\x1b',
    ensures
        ({
            let st = apply_sgr(plain(), n);
            ansi_spans(seq!['\x1b', '['] + dec(n as nat) + seq!['m'] + t) == seq![
                SpanView { text: t, fg: st.fg, bg: st.bg, bold: st.bold },
            ]
        }),
{
    let d = dec(n as nat);
    let c = seq!['\x1b', '['] + d + seq!['m'] + t;
    let len = c.len() as int;
    let l = d.len() as int;
    crate::server::bore::lemma_dec_digits(n as nat);
    crate::server::bore::lemma_dec_parses_back(n as nat, 255);
    assert forall|k: int| 2 <= k < 2 + l implies c[k] != 'm' && c[k] != ';' by {
        assert(c[k] == d[k - 2]);
        assert(crate::num::is_digit(d[k - 2]));
    }
    assert(c[2 + l] == 'm');
    lemma_find_char(c, 'm', 2, len);
    let j = find_char(c, 'm', 2, len);
    assert(j == 2 + l) by {
        if j < 2 + l {
            assert(c[j] == 'm');
        }
        if j > 2 + l {
            assert(c[2 + l] != 'm');
        }
    }
    lemma_find_char(c, ';', 2, j);
    let k = find_char(c, ';', 2, j);
    assert(k == j) by {
        if k < j {
            assert(c[k] == ';');
        }
    }
    assert(c.subrange(2, k) =~= d);
    let st = apply_sgr(plain(), n);
    assert(apply_params(plain(), c, 2, j) == st);
    assert(c[0] == '\x1b' && c[1] == '[');
    assert forall|m: int| j + 1 <= m < len implies c[m] != '\x1b' by {
        assert(c[m] == t[m - j - 1]);
    }
    lemma_plain_tail(c, j + 1, seq![], seq![], st);
    assert(seq![] + c.subrange(j + 1, len) =~= t);
    assert(flush(seq![], seq![], plain()) == Seq::<SpanView>::empty());
    assert(ansi_spans(c) == ansi_from(c, j + 1, seq![], seq![], st));
}

/// Reading a line keeps exactly its visible text: the spans' texts, one
/// after another, are the line with its escape sequences removed. Every
/// span holds some text, and its colours are among the 16 terminal colours.
pub proof fn law_ansi_spans_rebuild_visible_text(line: Seq<char>)
    ensures
        span_texts(ansi_spans(line)) == visible_text(line),
        forall|k: int| 0 <= k < ansi_spans(line).len() ==> span_ok(#[trigger] ansi_spans(line)[k]),
{
    lemma_ansi_from(line, 0, seq![], seq![], plain());
    assert(span_texts(seq![]) + seq![] + visible_from(line, 0) =~= visible_from(line, 0));
}

pub open spec fn spans_view(v: Seq<StyledSpan>) -> Seq<SpanView> {
    v.map_values(|s: StyledSpan| s@)
}

fn apply_sgr_exec(st: SgrState, n: u8) -> (r: SgrState)
    ensures
        r == apply_sgr(st, n),
{
    if n == 0 {
        SgrState { fg: None, bg: None, bold: false }
    } else if n == 1 {
        SgrState { bold: true, ..st }
    } else if n == 22 {
        SgrState { bold: false, ..st }
    } else if 30 <= n && n <= 37 {
        SgrState { fg: Some(n - 30), ..st }
    } else if 40 <= n && n <= 47 {
        SgrState { bg: Some(n - 40), ..st }
    } else if 90 <= n && n <= 97 {
        SgrState { fg: Some(n - 90 + 8), ..st }
    } else if 100 <= n && n <= 107 {
        SgrState { bg: Some(n - 100 + 8), ..st }
    } else if n == 39 {
        SgrState { fg: None, ..st }
    } else if n == 49 {
        SgrState { bg: None, ..st }
    } else {
        st
    }
}

fn find_char_exec(c: &[char], x: char, s: usize, e: usize) -> (k: usize)
    requires
        s <= e <= c@.len(),
    ensures
        k == find_char(c@, x, s as int, e as int),
{
    let mut k = s;
    while k < e && c[k] != x
        invariant
            s <= k <= e <= c@.len(),
            find_char(c@, x, s as int, e as int) == find_char(c@, x, k as int, e as int),
        decreases e - k,
    {
        k = k + 1;
    }
    k
}

fn apply_piece_exec(st: SgrState, c: &[char], s: usize, e: usize) -> (r: SgrState)
    requires
        s <= e <= c@.len(),
    ensures
        r == apply_piece(st, c@.subrange(s as int, e as int)),
{
    let cs = crate::text::copy_range(c, s, e);
    match parse_unsigned_exec(cs.as_slice(), 255) {
        Ok(n) => {
            proof {
                crate::num::lemma_scan_bound(c@.subrange(s as int, e as int), 0, 255);
                crate::num::lemma_scan_bound(c@.subrange(s as int, e as int).drop_first(), 0, 255);
            }
            apply_sgr_exec(st, n as u8)
        },
        Err(_) => st,
    }
}

fn apply_params_exec(st: SgrState, c: &[char], s: usize, e: usize) -> (r: SgrState)
    requires
        s <= e <= c@.len(),
    ensures
        r == apply_params(st, c@, s as int, e as int),
{
    let mut cur = st;
    let mut p = s;
    loop
        invariant
            s <= p <= e <= c@.len(),
            apply_params(st, c@, s as int, e as int) == apply_params(cur, c@, p as int, e as int),
        decreases e - p,
    {
        let k = find_char_exec(c, ';', p, e);
        proof {
            lemma_find_char(c@, ';', p as int, e as int);
        }
        cur = apply_piece_exec(cur, c, p, k);
        if k >= e {
            return cur;
        }
        p = k + 1;
    }
}

/// Parse a line of shell output and split it into styled segments.
/// ANSI escape sequences are consumed; only visible text remains.
pub fn parse_ansi_line(line: &str) -> (spans: Vec<StyledSpan>)
    ensures
        spans_view(spans@) == ansi_spans(line@),
{
    let mut spans: Vec<StyledSpan> = Vec::new();
    let mut current_text: Vec<char> = Vec::new();
    let mut st = SgrState { fg: None, bg: None, bold: false };
    let chars = crate::text::chars_of(line);
    let c: &[char] = chars.as_slice();
    let n = c.len();
    let mut i: usize = 0;
    assert(spans_view(spans@) =~= seq![]);
    assert(current_text@ =~= seq![]);
    while i < n
        invariant
            i <= n == c@.len(),
            c@ == line@,
            ansi_spans(line@) == ansi_from(c@, i as int, spans_view(spans@), current_text@, st),
        decreases n - i,
    {
        if c[i] == '\x1b' && i + 1 < n && c[i + 1] == '[' {
            let ghost old_spans = spans_view(spans@);
            let ghost old_text = current_text@;
            let ghost old_st = st;
            if current_text.len() > 0 {
                let t = string_from_chars(current_text.as_slice());
                spans.push(StyledSpan { text: t, fg: st.fg, bg: st.bg, bold: st.bold });
                current_text = Vec::new();
            }
            assert(spans_view(spans@) =~= flush(old_spans, old_text, old_st));
            assert(current_text@ =~= seq![]);
            let j = find_char_exec(c, 'm', i + 2, n);
            proof {
                lemma_find_char(c@, 'm', (i + 2) as int, n as int);
            }
            st = apply_params_exec(st, c, i + 2, j);
            let ghost old_i = i;
            if j < n {
                i = j + 1;
            } else {
                i = j;
            }
            assert(ansi_from(c@, old_i as int, old_spans, old_text, old_st) == ansi_from(
                c@,
                i as int,
                spans_view(spans@),
                current_text@,
                st,
            ));
        } else {
            let ghost old_text = current_text@;
            current_text.push(c[i]);
            assert(current_text@ == old_text.push(c@[i as int]));
            i = i + 1;
        }
    }
    let ghost old_spans = spans_view(spans@);
    if current_text.len() > 0 {
        let t = string_from_chars(current_text.as_slice());
        spans.push(StyledSpan { text: t, fg: st.fg, bg: st.bg, bold: st.bold });
    }
    assert(spans_view(spans@) =~= flush(old_spans, current_text@, st));
    spans
}

} // verus!
