//! What goes into a deploy's source archive, the env files the deploy form
//! imports, and the lines the client shows for logs and the shell.
use vstd::prelude::*;
use crate::client::format::push_str;
use crate::client::model::pairs_view;
use crate::text::{
    chars_eq, chars_of, copy_range, ends_with, ends_with_literal, has_prefix, has_suffix,
    is_literal, lines, split_lines, starts_with, starts_with_literal, string_from_chars, trim,
    trim_chars,
};

verus! {

/// One `.gitignore` pattern; the flag says whether it was negated with `!`.
#[derive(Debug, Clone)]
pub enum GitignorePattern {
    /// A name that must match exactly.
    Exact(String, bool),
    /// `*.ext`: a name ending with `.ext`.
    Suffix(String, bool),
    /// `dir/`: a directory whose name starts with it, or equals it without
    /// its trailing slashes.
    Prefix(String, bool),
}

/// A pattern as mathematical values.
pub enum PatternView {
    Exact(Seq<char>, bool),
    Suffix(Seq<char>, bool),
    Prefix(Seq<char>, bool),
}

pub open spec fn pattern_view(p: GitignorePattern) -> PatternView {
    match p {
        GitignorePattern::Exact(v, n) => PatternView::Exact(v@, n),
        GitignorePattern::Suffix(v, n) => PatternView::Suffix(v@, n),
        GitignorePattern::Prefix(v, n) => PatternView::Prefix(v@, n),
    }
}

/// The patterns of one `.gitignore` file, in file order.
#[derive(Debug, Clone)]
pub struct GitignoreRules {
    pub patterns: Vec<GitignorePattern>,
}

impl View for GitignoreRules {
    type V = Seq<PatternView>;

    open spec fn view(&self) -> Seq<PatternView> {
        self.patterns@.map_values(|p: GitignorePattern| pattern_view(p))
    }
}

/// `s` without its trailing slashes.
pub open spec fn trim_slashes(s: Seq<char>) -> Seq<char>
    decreases s.len(),
{
    if s.len() > 0 && s.last() == '/' {
        trim_slashes(s.drop_last())
    } else {
        s
    }
}

/// Whether a pattern applies to an entry.
pub open spec fn pattern_hit(p: PatternView, name: Seq<char>, is_dir: bool) -> bool {
    match p {
        PatternView::Exact(v, _) => name == v,
        PatternView::Suffix(g, _) => has_suffix(name, g),
        PatternView::Prefix(g, _) => is_dir && (has_prefix(name, g) || name == trim_slashes(g)),
    }
}

pub open spec fn negated(p: PatternView) -> bool {
    match p {
        PatternView::Exact(_, n) => n,
        PatternView::Suffix(_, n) => n,
        PatternView::Prefix(_, n) => n,
    }
}

/// Whether the patterns ignore an entry: the last pattern that applies
/// decides (a negated one keeps the entry); none applying keeps it.
pub open spec fn ignored_by(ps: Seq<PatternView>, name: Seq<char>, is_dir: bool) -> bool
    decreases ps.len(),
{
    if ps.len() == 0 {
        false
    } else if pattern_hit(ps.last(), name, is_dir) {
        !negated(ps.last())
    } else {
        ignored_by(ps.drop_last(), name, is_dir)
    }
}

/// What each kind of pattern applies to: an exact name to any entry of
/// that name, file or directory; a `*.ext` ending to any entry whose name
/// ends with it; a `dir/` pattern only to directories, whose name starts
/// with it or equals it without its trailing slashes.
pub proof fn law_pattern_kinds(g: Seq<char>, neg: bool, name: Seq<char>, is_dir: bool)
    ensures
        pattern_hit(PatternView::Exact(g, neg), name, is_dir) <==> name =~= g,
        pattern_hit(PatternView::Exact(g, neg), g, true),
        pattern_hit(PatternView::Exact(g, neg), g, false),
        pattern_hit(PatternView::Suffix(g, neg), name, is_dir) <==> (g.len() <= name.len()
            && name.subrange(name.len() - g.len(), name.len() as int) =~= g),
        !is_dir ==> !pattern_hit(PatternView::Prefix(g, neg), name, is_dir),
        (is_dir && g.len() <= name.len() && name.subrange(0, g.len() as int) =~= g)
            ==> pattern_hit(PatternView::Prefix(g, neg), name, is_dir),
{
}

/// The last pattern that applies to an entry decides it: a plain pattern
/// ignores it, a negated (`!`) one keeps it, whatever came before; with no
/// pattern applying, the entry is kept.
pub proof fn law_last_hit_decides(ps: Seq<PatternView>, p: PatternView, name: Seq<char>, is_dir: bool)
    ensures
        pattern_hit(p, name, is_dir) ==> ignored_by(ps.push(p), name, is_dir) == !negated(p),
        !pattern_hit(p, name, is_dir) ==> ignored_by(ps.push(p), name, is_dir) == ignored_by(
            ps,
            name,
            is_dir,
        ),
        (forall|k: int| 0 <= k < ps.len() ==> !pattern_hit(#[trigger] ps[k], name, is_dir))
            ==> !ignored_by(ps, name, is_dir),
    decreases ps.len(),
{
    assert(ps.push(p).drop_last() =~= ps);
    if ps.len() > 0 {
        law_last_hit_decides(ps.drop_last(), ps.last(), name, is_dir);
        assert(ps.drop_last().push(ps.last()) =~= ps);
        if forall|k: int| 0 <= k < ps.len() ==> !pattern_hit(#[trigger] ps[k], name, is_dir) {
            assert(!pattern_hit(ps[ps.len() - 1], name, is_dir));
            assert forall|k: int| 0 <= k < ps.drop_last().len() implies !pattern_hit(
                #[trigger] ps.drop_last()[k],
                name,
                is_dir,
            ) by {
                assert(ps.drop_last()[k] == ps[k]);
            }
        }
    }
}

/// A `.gitignore` line holding just a name (no `#`, `!`, `/` or `*.`
/// syntax) ignores every entry of that name, files and directories alike,
/// when it is the file's last line: `dist` leaves out a `dist` folder.
pub proof fn law_plain_name_line_ignores_that_name(ls: Seq<Seq<char>>, w: Seq<char>, is_dir: bool)
    requires
        w.len() > 0,
        !crate::text::is_ws(w[0]),
        !crate::text::is_ws(w.last()),
        w[0] != '#',
        w[0] != '!',
        w[0] != '/',
        w.last() != '/',
        !(w.len() >= 2 && w[0] == '*' && w[1] == '.'),
    ensures
        line_pattern(w) == Some(PatternView::Exact(w, false)),
        ignored_by(file_patterns(ls.push(w)), w, is_dir),
{
    assert(crate::text::trim_start(w) == w);
    assert(crate::text::trim_end(w) == w);
    reveal_strlit("*.");
    assert(!has_prefix(w, "*."@)) by {
        if w.len() >= 2 && w.subrange(0, 2) == "*."@ {
            assert(w.subrange(0, 2)[0] == w[0] && w.subrange(0, 2)[1] == w[1]);
        }
    }
    assert(ls.push(w).drop_last() =~= ls);
    assert(ls.push(w).last() == w);
    let ps = file_patterns(ls);
    assert(file_patterns(ls.push(w)) =~= ps.push(PatternView::Exact(w, false)));
    law_last_hit_decides(ps, PatternView::Exact(w, false), w, is_dir);
}

/// The `.gitignore` line syntax, for a plain name `w`: `!w` keeps entries
/// named `w` (a negated exact pattern), `/w` is `w` anchored (the slash is
/// dropped), `w/` matches only directories, `#w` is a comment, and `*.x`
/// matches every name ending in `.x`.
pub proof fn law_gitignore_line_forms(w: Seq<char>, x: Seq<char>)
    requires
        w.len() > 0,
        !crate::text::is_ws(w[0]),
        !crate::text::is_ws(w.last()),
        w[0] != '#',
        w[0] != '!',
        w[0] != '/',
        w.last() != '/',
        !(w.len() >= 2 && w[0] == '*' && w[1] == '.'),
        x.len() > 0 ==> !crate::text::is_ws(x.last()) && x.last() != '/',
    ensures
        line_pattern(seq!['!'] + w) == Some(PatternView::Exact(w, true)),
        line_pattern(seq!['/'] + w) == Some(PatternView::Exact(w, false)),
        line_pattern(w + seq!['/']) == Some(PatternView::Prefix(w + seq!['/'], false)),
        line_pattern(seq!['#'] + w) is None,
        line_pattern(seq!['*', '.'] + x) == Some(PatternView::Suffix(seq!['.'] + x, false)),
{
    reveal_strlit("*.");
    assert(crate::text::trim_start(w) == w);
    assert(crate::text::trim_end(w) == w);
    assert(!has_prefix(w, "*."@)) by {
        if w.len() >= 2 && w.subrange(0, 2) == "*."@ {
            assert(w.subrange(0, 2)[0] == w[0] && w.subrange(0, 2)[1] == w[1]);
        }
    }
    let a = seq!['!'] + w;
    assert(crate::text::trim_start(a) == a);
    assert(a.last() == w.last());
    assert(crate::text::trim_end(a) == a);
    assert(a.skip(1) =~= w);
    let b = seq!['/'] + w;
    assert(crate::text::trim_start(b) == b);
    assert(b.last() == w.last());
    assert(crate::text::trim_end(b) == b);
    assert(b.skip(1) =~= w);
    let c = w + seq!['/'];
    assert(c[0] == w[0]);
    assert(crate::text::trim_start(c) == c);
    assert(crate::text::trim_end(c) == c);
    assert(!has_prefix(c, "*."@)) by {
        if c.len() >= 2 && c.subrange(0, 2) == "*."@ {
            assert(c.subrange(0, 2)[0] == c[0] && c.subrange(0, 2)[1] == c[1]);
            if w.len() >= 2 {
                assert(c[1] == w[1]);
            } else {
                assert(c[1] == '/');
            }
        }
    }
    let d = seq!['#'] + w;
    assert(crate::text::trim_start(d) == d);
    assert(d.last() == w.last());
    assert(crate::text::trim_end(d) == d);
    let e = seq!['*', '.'] + x;
    assert(crate::text::trim_start(e) == e);
    assert(e.last() == if x.len() > 0 { x.last() } else { '.' });
    assert(crate::text::trim_end(e) == e);
    assert(e.subrange(0, 2) =~= "*."@);
    assert(e.skip(1) =~= seq!['.'] + x);
}

/// Which entries are left out of a source archive: the fixed names
/// (`.git`, `target`, `node_modules`, ...) always, whatever the rules say;
/// hidden directories always; database and env files unless `plain`; and
/// otherwise exactly the entries that the folder's own or the inherited
/// `.gitignore` rules ignore.
pub proof fn law_skip_entry(
    name: Seq<char>,
    is_dir: bool,
    local: Seq<PatternView>,
    parent: Seq<PatternView>,
    plain: bool,
)
    ensures
        (name == ".git"@ || name == "target"@ || name == "node_modules"@ || name == "__pycache__"@
            || name == ".venv"@ || name == "venv"@ || name == ".DS_Store"@) ==> skip_entry(
            name,
            is_dir,
            local,
            parent,
            plain,
        ),
        (is_dir && name.len() > 0 && name[0] == '.') ==> skip_entry(name, is_dir, local, parent, plain),
        !plain && (has_suffix(name, ".db"@) || has_suffix(name, ".env"@) || has_suffix(
            name,
            ".sqlite"@,
        )) ==> skip_entry(name, is_dir, local, parent, plain),
        ignored_by(local, name, is_dir) ==> skip_entry(name, is_dir, local, parent, plain),
        ignored_by(parent, name, is_dir) ==> skip_entry(name, is_dir, local, parent, plain),
        (!always_ignored_name(name) && (plain || !always_ignored_suffix(name)) && !(is_dir
            && name.len() > 0 && name[0] == '.')) ==> (skip_entry(name, is_dir, local, parent, plain)
            == (ignored_by(local, name, is_dir) || ignored_by(parent, name, is_dir))),
{
    reveal_strlit(".");
    if is_dir && name.len() > 0 && name[0] == '.' {
        assert(name.subrange(0, 1) =~= "."@);
    }
    if is_dir && has_prefix(name, "."@) {
        assert(name.subrange(0, 1)[0] == name[0]);
    }
}

/// The pattern of one line of a `.gitignore` file, if it holds one: blank
/// lines and `#` comments hold none; `!` negates; one leading `/` is
/// dropped; a trailing `/` makes a directory pattern and `*.` a suffix one.
pub open spec fn line_pattern(line: Seq<char>) -> Option<PatternView> {
    let t = trim(line);
    if t.len() == 0 || t[0] == '#' {
        None
    } else {
        let neg = t[0] == '!';
        let e0 = if neg {
            trim(t.skip(1))
        } else {
            t
        };
        let e = if e0.len() > 0 && e0[0] == '/' {
            e0.skip(1)
        } else {
            e0
        };
        Some(
            if e.len() > 0 && e.last() == '/' {
                PatternView::Prefix(e, neg)
            } else if has_prefix(e, "*."@) {
                PatternView::Suffix(e.skip(1), neg)
            } else {
                PatternView::Exact(e, neg)
            },
        )
    }
}

/// The patterns of a `.gitignore` file, line by line.
pub open spec fn file_patterns(ls: Seq<Seq<char>>) -> Seq<PatternView>
    decreases ls.len(),
{
    if ls.len() == 0 {
        seq![]
    } else {
        file_patterns(ls.drop_last()) + match line_pattern(ls.last()) {
            Some(p) => seq![p],
            None => seq![],
        }
    }
}

/// The pattern of a line in the plain reading: negated lines are skipped
/// and nothing is stripped.
pub open spec fn plain_line_pattern(line: Seq<char>) -> Option<PatternView> {
    let t = trim(line);
    if t.len() == 0 || t[0] == '#' || t[0] == '!' {
        None
    } else {
        Some(
            if t.last() == '/' {
                PatternView::Prefix(t, false)
            } else if has_prefix(t, "*."@) {
                PatternView::Suffix(t.skip(1), false)
            } else {
                PatternView::Exact(t, false)
            },
        )
    }
}

/// The patterns of a `.gitignore` file in the plain reading.
pub open spec fn plain_file_patterns(ls: Seq<Seq<char>>) -> Seq<PatternView>
    decreases ls.len(),
{
    if ls.len() == 0 {
        seq![]
    } else {
        plain_file_patterns(ls.drop_last()) + match plain_line_pattern(ls.last()) {
            Some(p) => seq![p],
            None => seq![],
        }
    }
}

fn trim_trailing_slashes(v: &[char]) -> (r: Vec<char>)
    ensures
        r@ == trim_slashes(v@),
{
    let mut j = v.len();
    assert(v@.subrange(0, j as int) =~= v@);
    while j > 0 && v[j - 1] == '/'
        invariant
            j <= v@.len(),
            trim_slashes(v@) == trim_slashes(v@.subrange(0, j as int)),
        decreases j,
    {
        assert(v@.subrange(0, j as int).drop_last() =~= v@.subrange(0, j - 1));
        j = j - 1;
    }
    copy_range(v, 0, j)
}

fn hit(p: &GitignorePattern, name: &[char], is_dir: bool) -> (b: bool)
    ensures
        b == pattern_hit(pattern_view(*p), name@, is_dir),
{
    match p {
        GitignorePattern::Exact(v, _) => {
            let c = chars_of(v.as_str());
            chars_eq(name, c.as_slice())
        },
        GitignorePattern::Suffix(g, _) => {
            let c = chars_of(g.as_str());
            ends_with(name, c.as_slice())
        },
        GitignorePattern::Prefix(g, _) => {
            if !is_dir {
                return false;
            }
            let c = chars_of(g.as_str());
            if starts_with(name, c.as_slice()) {
                return true;
            }
            let t = trim_trailing_slashes(c.as_slice());
            chars_eq(name, t.as_slice())
        },
    }
}

fn is_negated(p: &GitignorePattern) -> (b: bool)
    ensures
        b == negated(pattern_view(*p)),
{
    match p {
        GitignorePattern::Exact(_, n) => *n,
        GitignorePattern::Suffix(_, n) => *n,
        GitignorePattern::Prefix(_, n) => *n,
    }
}

fn copy_pattern(p: &GitignorePattern) -> (q: GitignorePattern)
    ensures
        pattern_view(q) == pattern_view(*p),
{
    match p {
        GitignorePattern::Exact(v, n) => GitignorePattern::Exact(v.clone(), *n),
        GitignorePattern::Suffix(v, n) => GitignorePattern::Suffix(v.clone(), *n),
        GitignorePattern::Prefix(v, n) => GitignorePattern::Prefix(v.clone(), *n),
    }
}

impl GitignoreRules {
    /// No patterns: nothing is ignored.
    pub fn empty() -> (r: Self)
        ensures
            r@ == Seq::<PatternView>::empty(),
    {
        let r = GitignoreRules { patterns: Vec::new() };
        assert(r@ =~= Seq::<PatternView>::empty());
        r
    }

    /// The rules in force in a subfolder: these (inherited) ones, then the
    /// subfolder's own `.gitignore` patterns.
    pub fn inherited_by(&self, local: &GitignoreRules) -> (r: GitignoreRules)
        ensures
            r@ == self@ + local@,
    {
        let mut out: Vec<GitignorePattern> = Vec::new();
        let mut i: usize = 0;
        while i < self.patterns.len()
            invariant
                i <= self.patterns@.len(),
                out@.map_values(|p: GitignorePattern| pattern_view(p)) =~= self@.take(i as int),
            decreases self.patterns@.len() - i,
        {
            let ghost before = out@;
            out.push(copy_pattern(&self.patterns[i]));
            assert(out@.map_values(|p: GitignorePattern| pattern_view(p)) =~= before.map_values(
                |p: GitignorePattern| pattern_view(p),
            ).push(self@[i as int]));
            assert(self@.take(i + 1) =~= self@.take(i as int).push(self@[i as int]));
            i = i + 1;
        }
        let mut k: usize = 0;
        while k < local.patterns.len()
            invariant
                k <= local.patterns@.len(),
                out@.map_values(|p: GitignorePattern| pattern_view(p)) =~= self@ + local@.take(
                    k as int,
                ),
            decreases local.patterns@.len() - k,
        {
            let ghost before = out@;
            out.push(copy_pattern(&local.patterns[k]));
            assert(out@.map_values(|p: GitignorePattern| pattern_view(p)) =~= before.map_values(
                |p: GitignorePattern| pattern_view(p),
            ).push(local@[k as int]));
            assert(local@.take(k + 1) =~= local@.take(k as int).push(local@[k as int]));
            k = k + 1;
        }
        GitignoreRules { patterns: out }
    }

    /// Whether these patterns ignore an entry with this name.
    pub fn matches(&self, name: &str, is_dir: bool) -> (b: bool)
        ensures
            b == ignored_by(self@, name@, is_dir),
    {
        let n = chars_of(name);
        let mut ignored = false;
        let mut i: usize = 0;
        while i < self.patterns.len()
            invariant
                i <= self.patterns@.len(),
                n@ == name@,
                ignored == ignored_by(self@.take(i as int), name@, is_dir),
            decreases self.patterns@.len() - i,
        {
            assert(self@.take(i + 1).drop_last() =~= self@.take(i as int));
            if hit(&self.patterns[i], n.as_slice(), is_dir) {
                ignored = !is_negated(&self.patterns[i]);
            }
            i = i + 1;
        }
        assert(self@.take(i as int) =~= self@);
        ignored
    }
}

fn pattern_of_line(line: &[char]) -> (r: Option<GitignorePattern>)
    ensures
        match r {
            Some(p) => line_pattern(line@) == Some(pattern_view(p)),
            None => line_pattern(line@) is None,
        },
{
    let t = trim_chars(line);
    if t.len() == 0 || t[0] == '#' {
        return None;
    }
    let neg = t[0] == '!';
    let e0 = if neg {
        let rest = copy_range(t.as_slice(), 1, t.len());
        assert(rest@ =~= t@.skip(1));
        trim_chars(rest.as_slice())
    } else {
        t
    };
    let e = if e0.len() > 0 && e0[0] == '/' {
        let r = copy_range(e0.as_slice(), 1, e0.len());
        assert(r@ =~= e0@.skip(1));
        r
    } else {
        e0
    };
    if e.len() > 0 && e[e.len() - 1] == '/' {
        Some(GitignorePattern::Prefix(string_from_chars(e.as_slice()), neg))
    } else if starts_with_literal(e.as_slice(), "*.") {
        proof {
            reveal_strlit("*.");
        }
        let r = copy_range(e.as_slice(), 1, e.len());
        assert(r@ =~= e@.skip(1));
        Some(GitignorePattern::Suffix(string_from_chars(r.as_slice()), neg))
    } else {
        Some(GitignorePattern::Exact(string_from_chars(e.as_slice()), neg))
    }
}

fn plain_pattern_of_line(line: &[char]) -> (r: Option<GitignorePattern>)
    ensures
        match r {
            Some(p) => plain_line_pattern(line@) == Some(pattern_view(p)),
            None => plain_line_pattern(line@) is None,
        },
{
    let t = trim_chars(line);
    if t.len() == 0 || t[0] == '#' || t[0] == '!' {
        return None;
    }
    if t[t.len() - 1] == '/' {
        Some(GitignorePattern::Prefix(string_from_chars(t.as_slice()), false))
    } else if starts_with_literal(t.as_slice(), "*.") {
        let r = copy_range(t.as_slice(), 1, t.len());
        assert(r@ =~= t@.skip(1));
        Some(GitignorePattern::Suffix(string_from_chars(r.as_slice()), false))
    } else {
        Some(GitignorePattern::Exact(string_from_chars(t.as_slice()), false))
    }
}

/// The patterns of the text of a `.gitignore` file.
pub fn parse_gitignore(contents: &str) -> (r: GitignoreRules)
    ensures
        r@ == file_patterns(lines(contents@)),
{
    let c = chars_of(contents);
    let ls = split_lines(c.as_slice());
    let ghost lv = ls.deep_view();
    let mut r = GitignoreRules::empty();
    let mut i: usize = 0;
    while i < ls.len()
        invariant
            i <= ls@.len(),
            lv == ls.deep_view(),
            lv == lines(contents@),
            r@ == file_patterns(lv.take(i as int)),
        decreases ls@.len() - i,
    {
        assert(lv.take(i + 1).drop_last() =~= lv.take(i as int));
        assert(lv.take(i + 1).last() == ls@[i as int]@);
        match pattern_of_line(ls[i].as_slice()) {
            Some(p) => {
                let ghost before = r.patterns@;
                r.patterns.push(p);
                assert(r@ =~= before.map_values(|q: GitignorePattern| pattern_view(q)).push(
                    pattern_view(p),
                ));
            },
            None => {},
        }
        assert(r@ =~= file_patterns(lv.take(i + 1)));
        i = i + 1;
    }
    assert(lv.take(i as int) =~= lv);
    r
}

/// The patterns of the text of a `.gitignore` file in the plain reading,
/// which knows no negation.
pub fn parse_gitignore_plain(contents: &str) -> (r: GitignoreRules)
    ensures
        r@ == plain_file_patterns(lines(contents@)),
{
    let c = chars_of(contents);
    let ls = split_lines(c.as_slice());
    let ghost lv = ls.deep_view();
    let mut r = GitignoreRules::empty();
    let mut i: usize = 0;
    while i < ls.len()
        invariant
            i <= ls@.len(),
            lv == ls.deep_view(),
            lv == lines(contents@),
            r@ == plain_file_patterns(lv.take(i as int)),
        decreases ls@.len() - i,
    {
        assert(lv.take(i + 1).drop_last() =~= lv.take(i as int));
        assert(lv.take(i + 1).last() == ls@[i as int]@);
        match plain_pattern_of_line(ls[i].as_slice()) {
            Some(p) => {
                let ghost before = r.patterns@;
                r.patterns.push(p);
                assert(r@ =~= before.map_values(|q: GitignorePattern| pattern_view(q)).push(
                    pattern_view(p),
                ));
            },
            None => {},
        }
        assert(r@ =~= plain_file_patterns(lv.take(i + 1)));
        i = i + 1;
    }
    assert(lv.take(i as int) =~= lv);
    r
}

/// Names never packaged.
pub open spec fn always_ignored_name(name: Seq<char>) -> bool {
    name == ".git"@ || name == "target"@ || name == "node_modules"@ || name == "__pycache__"@
        || name == ".venv"@ || name == "venv"@ || name == ".DS_Store"@
}

/// Endings of names never packaged: databases and env files.
pub open spec fn always_ignored_suffix(name: Seq<char>) -> bool {
    has_suffix(name, ".sqlite"@) || has_suffix(name, ".sqlite3"@) || has_suffix(name, ".db"@)
        || has_suffix(name, ".duckdb"@) || has_suffix(name, ".env"@)
}

/// Whether an entry is left out of the source archive: a name never
/// packaged (or, unless `plain`, a name with a database or env ending), a
/// hidden directory, or an entry the local or inherited rules ignore.
pub open spec fn skip_entry(
    name: Seq<char>,
    is_dir: bool,
    local: Seq<PatternView>,
    parent: Seq<PatternView>,
    plain: bool,
) -> bool {
    always_ignored_name(name) || (!plain && always_ignored_suffix(name)) || (is_dir
        && has_prefix(name, "."@)) || ignored_by(local, name, is_dir) || ignored_by(
        parent,
        name,
        is_dir,
    )
}

/// Whether an entry of the source folder is left out of the archive.
/// `plain` selects the single-device client's list, which has no endings.
pub fn should_skip(
    name: &str,
    is_dir: bool,
    local: &GitignoreRules,
    parent: &GitignoreRules,
    plain: bool,
) -> (b: bool)
    ensures
        b == skip_entry(name@, is_dir, local@, parent@, plain),
{
    let c = chars_of(name);
    let n = c.as_slice();
    if is_literal(n, ".git") || is_literal(n, "target") || is_literal(n, "node_modules")
        || is_literal(n, "__pycache__") || is_literal(n, ".venv") || is_literal(n, "venv")
        || is_literal(n, ".DS_Store") {
        return true;
    }
    if !plain && (ends_with_literal(n, ".sqlite") || ends_with_literal(n, ".sqlite3")
        || ends_with_literal(n, ".db") || ends_with_literal(n, ".duckdb") || ends_with_literal(
        n,
        ".env",
    )) {
        return true;
    }
    if is_dir && starts_with_literal(n, ".") {
        return true;
    }
    local.matches(name, is_dir) || parent.matches(name, is_dir)
}

/// The position of the first `c` in `s`, or -1.
pub open spec fn first_index_of(s: Seq<char>, c: char) -> int
    decreases s.len(),
{
    if s.len() == 0 {
        -1
    } else if s.last() == c && first_index_of(s.drop_last(), c) == -1 {
        s.len() - 1
    } else {
        first_index_of(s.drop_last(), c)
    }
}

/// The variable of one line of an env file: blank lines and `#` comments
/// hold none, nor do lines without `=`; key and value are trimmed.
pub open spec fn env_line(line: Seq<char>) -> Option<(Seq<char>, Seq<char>)> {
    let t = trim(line);
    if t.len() == 0 || t[0] == '#' {
        None
    } else {
        let i = first_index_of(t, '=');
        if i < 0 {
            None
        } else {
            Some((trim(t.take(i)), trim(t.skip(i + 1))))
        }
    }
}

/// The variables of an env file, line by line.
pub open spec fn env_pairs(ls: Seq<Seq<char>>) -> Seq<(Seq<char>, Seq<char>)>
    decreases ls.len(),
{
    if ls.len() == 0 {
        seq![]
    } else {
        env_pairs(ls.drop_last()) + match env_line(ls.last()) {
            Some(p) => seq![p],
            None => seq![],
        }
    }
}

fn find_char(t: &[char], c: char) -> (r: Option<usize>)
    ensures
        match r {
            Some(i) => i as int == first_index_of(t@, c) && i < t@.len(),
            None => first_index_of(t@, c) == -1,
        },
{
    let mut i: usize = 0;
    while i < t.len()
        invariant
            i <= t@.len(),
            first_index_of(t@.take(i as int), c) == -1,
        decreases t@.len() - i,
    {
        assert(t@.take(i + 1).drop_last() =~= t@.take(i as int));
        if t[i] == c {
            proof {
                lemma_first_index_prefix(t@, c, i as int + 1);
            }
            return Some(i);
        }
        i = i + 1;
    }
    assert(t@.take(i as int) =~= t@);
    None
}

proof fn lemma_first_index_prefix(s: Seq<char>, c: char, k: int)
    requires
        0 <= k <= s.len(),
        first_index_of(s.take(k), c) != -1,
    ensures
        first_index_of(s, c) == first_index_of(s.take(k), c),
    decreases s.len() - k,
{
    if k < s.len() {
        assert(s.take(k + 1).drop_last() =~= s.take(k));
        lemma_first_index_prefix(s, c, k + 1);
    } else {
        assert(s.take(k) =~= s);
    }
}

fn env_of_line(line: &[char]) -> (r: Option<(String, String)>)
    ensures
        match r {
            Some(p) => env_line(line@) == Some((p.0@, p.1@)),
            None => env_line(line@) is None,
        },
{
    let t = trim_chars(line);
    if t.len() == 0 || t[0] == '#' {
        return None;
    }
    match find_char(t.as_slice(), '=') {
        None => None,
        Some(i) => {
            let k = copy_range(t.as_slice(), 0, i);
            let v = copy_range(t.as_slice(), i + 1, t.len());
            assert(k@ =~= t@.take(i as int));
            assert(v@ =~= t@.skip(i + 1));
            let kt = trim_chars(k.as_slice());
            let vt = trim_chars(v.as_slice());
            Some((string_from_chars(kt.as_slice()), string_from_chars(vt.as_slice())))
        },
    }
}

/// The variables of the text of an env file.
pub fn parse_env_file(contents: &str) -> (r: Vec<(String, String)>)
    ensures
        pairs_view(r@) == env_pairs(lines(contents@)),
{
    let c = chars_of(contents);
    let ls = split_lines(c.as_slice());
    let ghost lv = ls.deep_view();
    let mut r: Vec<(String, String)> = Vec::new();
    let mut i: usize = 0;
    while i < ls.len()
        invariant
            i <= ls@.len(),
            lv == ls.deep_view(),
            lv == lines(contents@),
            pairs_view(r@) == env_pairs(lv.take(i as int)),
        decreases ls@.len() - i,
    {
        assert(lv.take(i + 1).drop_last() =~= lv.take(i as int));
        assert(lv.take(i + 1).last() == ls@[i as int]@);
        match env_of_line(ls[i].as_slice()) {
            Some(p) => {
                let ghost before = r@;
                r.push(p);
                assert(pairs_view(r@) =~= pairs_view(before).push((p.0@, p.1@)));
            },
            None => {},
        }
        assert(pairs_view(r@) =~= env_pairs(lv.take(i + 1)));
        i = i + 1;
    }
    assert(lv.take(i as int) =~= lv);
    r
}

/// How many shell lines the client keeps.
pub const SHELL_HISTORY_LINES: usize = 500;

/// The shell lines kept after new output: its lines are appended and only
/// the last 500 lines are kept.
pub open spec fn shell_after(buf: Seq<Seq<char>>, text: Seq<char>) -> Seq<Seq<char>> {
    let all = buf + lines(text);
    if all.len() > SHELL_HISTORY_LINES {
        all.skip(all.len() - SHELL_HISTORY_LINES)
    } else {
        all
    }
}

/// Appends shell output to the kept lines.
pub fn append_shell_output(buf: &mut Vec<String>, text: &str)
    requires
        old(buf)@.len() + text@.len() <= usize::MAX,
    ensures
        final(buf).deep_view() == shell_after(old(buf).deep_view(), text@),
{
    let c = chars_of(text);
    let ls = split_lines(c.as_slice());
    let ghost start = buf.deep_view();
    let ghost lv = ls.deep_view();
    proof {
        lemma_lines_len(text@);
    }
    let mut i: usize = 0;
    while i < ls.len()
        invariant
            i <= ls@.len(),
            lv == ls.deep_view(),
            lv == lines(text@),
            lv.len() <= text@.len(),
            start.len() + text@.len() <= usize::MAX,
            buf.deep_view() == start + lv.take(i as int),
        decreases ls@.len() - i,
    {
        let line = string_from_chars(ls[i].as_slice());
        assert(lv[i as int] == ls@[i as int]@);
        let ghost before = buf.deep_view();
        buf.push(line);
        assert(buf.deep_view() =~= before.push(line@));
        assert(lv.take(i + 1) =~= lv.take(i as int).push(line@));
        assert(start + lv.take(i + 1) =~= (start + lv.take(i as int)).push(line@));
        i = i + 1;
    }
    assert(lv.take(i as int) =~= lv);
    let ghost all = buf.deep_view();
    if buf.len() > SHELL_HISTORY_LINES {
        let excess = buf.len() - SHELL_HISTORY_LINES;
        let mut k: usize = 0;
        while k < excess
            invariant
                k <= excess,
                excess == all.len() - SHELL_HISTORY_LINES,
                buf.deep_view() == all.skip(k as int),
            decreases excess - k,
        {
            assert(buf@.len() == buf.deep_view().len());
            let ghost before = buf.deep_view();
            let _gone = buf.remove(0);
            assert(buf.deep_view() =~= before.drop_first());
            assert(all.skip(k as int).drop_first() =~= all.skip(k + 1));
            k = k + 1;
        }
    }
}

/// There are no more lines than characters.
pub proof fn lemma_lines_len(s: Seq<char>)
    ensures
        lines(s).len() <= s.len(),
    decreases s.len(),
{
    if s.len() > 0 {
        crate::text::lemma_line_len_bound(s);
        let k = crate::text::line_len(s);
        if k < s.len() {
            lemma_lines_len(s.subrange(k + 1int, s.len() as int));
        }
    }
}

/// How many log lines the client shows for an app.
pub const LOG_LINE_LIMIT: usize = 100;

/// A log line as shown: the time of day (or `--:--:--` when unknown), a
/// space, and the line.
pub open spec fn log_line_text(entry: crate::proto::LogEntry) -> Seq<char> {
    let ts = match entry.timestamp {
        Some(t) => crate::client::format::timestamp_text(t.millis as int),
        None => "--:--:--"@,
    };
    ts + " "@ + entry.line@
}

/// The text shown for one log entry.
pub fn log_line(entry: &crate::proto::LogEntry) -> (s: String)
    ensures
        s@ == log_line_text(*entry),
{
    let ts = match entry.timestamp {
        Some(t) => crate::client::format::format_timestamp(t.millis),
        None => crate::text::owned("--:--:--"),
    };
    crate::text::concat3(ts.as_str(), " ", entry.line.as_str())
}

} // verus!
