//! Server metrics: reading `/proc/meminfo` and `df -k` output.
use vstd::prelude::*;
use crate::num::{int_error_message, parse_unsigned, parse_unsigned_exec, IntErrorKind};
use crate::text::{chars_of, has_prefix, lines, split_lines, split_whitespace, words};
use crate::client::format::{push_chars, push_str};

verus! {

/// What `parse_kb_value` gives: the first white-space separated word of `s`
/// parsed as a `u64`.
pub open spec fn kb_value(s: Seq<char>) -> Result<u64, Seq<char>> {
    if words(s).len() == 0 {
        Err("empty value"@)
    } else {
        match parse_unsigned(words(s)[0], u64::MAX as nat) {
            Ok(v) => Ok(v as u64),
            Err(k) => Err("parse meminfo value '"@ + words(s)[0] + "': "@ + int_error_message(k)),
        }
    }
}

fn parse_error_message(word: &[char], k: IntErrorKind) -> (s: String)
    ensures
        s@ == "parse meminfo value '"@ + word@ + "': "@ + int_error_message(k),
{
    let mut out: Vec<char> = Vec::new();
    push_str(&mut out, "parse meminfo value '");
    push_chars(&mut out, word);
    push_str(&mut out, "': ");
    push_str(&mut out, k.message());
    crate::text::string_from_chars(out.as_slice())
}

fn kb_value_chars(s: &[char]) -> (r: Result<u64, String>)
    ensures
        match kb_value(s@) {
            Ok(v) => r == Ok::<u64, String>(v),
            Err(m) => r is Err && r->Err_0@ == m,
        },
{
    let ws = split_whitespace(s);
    if ws.len() == 0 {
        return Err(crate::text::owned("empty value"));
    }
    assert(ws.deep_view()[0] == ws@[0]@);
    let w = chars_of(ws[0].as_str());
    match parse_unsigned_exec(w.as_slice(), u64::MAX) {
        Ok(v) => Ok(v),
        Err(k) => Err(parse_error_message(w.as_slice(), k)),
    }
}

/// Parses the number at the start of a `/proc/meminfo` value such as
/// `" 8162348 kB"`.
pub fn parse_kb_value(s: &str) -> (r: Result<u64, String>)
    ensures
        match kb_value(s@) {
            Ok(v) => r == Ok::<u64, String>(v),
            Err(m) => r is Err && r->Err_0@ == m,
        },
{
    let v = chars_of(s);
    kb_value_chars(v.as_slice())
}

/// The first pass over the lines of `/proc/meminfo` from line `i` on:
/// `MemTotal:` and `MemAvailable:` values are taken as they come, a bad
/// value stops the scan with its error, and the scan stops early once both
/// are known.
pub open spec fn scan_main(
    ls: Seq<Seq<char>>,
    i: int,
    total: Option<u64>,
    avail: Option<u64>,
) -> Result<(Option<u64>, Option<u64>), Seq<char>>
    decreases ls.len() - i,
{
    if i < 0 || i >= ls.len() {
        Ok((total, avail))
    } else {
        let line = ls[i];
        let step: Result<(Option<u64>, Option<u64>), Seq<char>> = if has_prefix(line, "MemTotal:"@) {
            match kb_value(line.subrange("MemTotal:"@.len() as int, line.len() as int)) {
                Ok(v) => Ok((Some(v), avail)),
                Err(e) => Err(e),
            }
        } else if has_prefix(line, "MemAvailable:"@) {
            match kb_value(line.subrange("MemAvailable:"@.len() as int, line.len() as int)) {
                Ok(v) => Ok((total, Some(v))),
                Err(e) => Err(e),
            }
        } else {
            Ok((total, avail))
        };
        match step {
            Err(e) => Err(e),
            Ok((t, a)) => if t is Some && a is Some {
                Ok((t, a))
            } else {
                scan_main(ls, i + 1, t, a)
            },
        }
    }
}

/// The fallback pass: the value of the first `MemFree:` line from line `i`
/// on, if any.
pub open spec fn scan_free(ls: Seq<Seq<char>>, i: int) -> Result<Option<u64>, Seq<char>>
    decreases ls.len() - i,
{
    if i < 0 || i >= ls.len() {
        Ok(None)
    } else if has_prefix(ls[i], "MemFree:"@) {
        match kb_value(ls[i].subrange("MemFree:"@.len() as int, ls[i].len() as int)) {
            Ok(v) => Ok(Some(v)),
            Err(e) => Err(e),
        }
    } else {
        scan_free(ls, i + 1)
    }
}

/// What reading `/proc/meminfo` with contents `c` gives: `(total, available)`
/// in kB, using `MemFree:` when `MemAvailable:` is absent.
pub open spec fn meminfo(c: Seq<char>) -> Result<(u64, u64), Seq<char>> {
    let ls = lines(c);
    match scan_main(ls, 0, None, None) {
        Err(e) => Err(e),
        Ok((t, a)) => {
            let a2: Result<Option<u64>, Seq<char>> = if a is None {
                scan_free(ls, 0)
            } else {
                Ok(a)
            };
            match a2 {
                Err(e) => Err(e),
                Ok(a3) => match t {
                    None => Err("MemTotal not found in /proc/meminfo"@),
                    Some(tv) => match a3 {
                        None => Err("MemAvailable/MemFree not found in /proc/meminfo"@),
                        Some(av) => Ok((tv, av)),
                    },
                },
            }
        },
    }
}

fn value_after(line: &[char], prefix: &str) -> (r: Option<Result<u64, String>>)
    ensures
        has_prefix(line@, prefix@) ==> r is Some && match kb_value(
            line@.subrange(prefix@.len() as int, line@.len() as int),
        ) {
            Ok(v) => r->Some_0 == Ok::<u64, String>(v),
            Err(m) => r->Some_0 is Err && r->Some_0->Err_0@ == m,
        },
        !has_prefix(line@, prefix@) ==> r is None,
{
    let p = chars_of(prefix);
    if crate::text::starts_with(line, p.as_slice()) {
        let rest = crate::text::copy_range(line, p.len(), line.len());
        Some(kb_value_chars(rest.as_slice()))
    } else {
        None
    }
}

/// Parses the contents of `/proc/meminfo` into `(total, available)` kB.
pub fn parse_meminfo(contents: &str) -> (r: Result<(u64, u64), String>)
    ensures
        match meminfo(contents@) {
            Ok(p) => r == Ok::<(u64, u64), String>(p),
            Err(m) => r is Err && r->Err_0@ == m,
        },
{
    let c = chars_of(contents);
    let ls = split_lines(c.as_slice());
    let ghost lv = lines(contents@);
    assert(ls.deep_view() == lv);
    let mut total: Option<u64> = None;
    let mut avail: Option<u64> = None;
    let mut i: usize = 0;
    let mut done = false;
    while i < ls.len() && !done
        invariant
            i <= ls@.len(),
            ls.deep_view() == lv,
            lv == lines(contents@),
            !done ==> scan_main(lv, 0, None, None) == scan_main(lv, i as int, total, avail),
            done ==> scan_main(lv, 0, None, None) == Ok::<
                (Option<u64>, Option<u64>),
                Seq<char>,
            >((total, avail)),
        decreases ls@.len() - i + (if done { 0int } else { 1int }),
    {
        assert(ls@[i as int]@ == lv[i as int]);
        let line = ls[i].as_slice();
        match value_after(line, "MemTotal:") {
            Some(Ok(v)) => {
                total = Some(v);
            },
            Some(Err(e)) => {
                return Err(e);
            },
            None => match value_after(line, "MemAvailable:") {
                Some(Ok(v)) => {
                    avail = Some(v);
                },
                Some(Err(e)) => {
                    return Err(e);
                },
                None => {},
            },
        }
        if total.is_some() && avail.is_some() {
            done = true;
        } else {
            i = i + 1;
        }
    }
    assert(scan_main(lv, 0, None, None) == Ok::<(Option<u64>, Option<u64>), Seq<char>>(
        (total, avail),
    ));
    if avail.is_none() {
        let mut j: usize = 0;
        let mut found = false;
        while j < ls.len() && !found
            invariant
                j <= ls@.len(),
                ls.deep_view() == lv,
                lv == lines(contents@),
                scan_main(lv, 0, None, None) == Ok::<(Option<u64>, Option<u64>), Seq<char>>(
                    (total, None),
                ),
                !found ==> avail is None && scan_free(lv, 0) == scan_free(lv, j as int),
                found ==> scan_free(lv, 0) == Ok::<Option<u64>, Seq<char>>(avail),
            decreases ls@.len() - j + (if found { 0int } else { 1int }),
        {
            assert(ls@[j as int]@ == lv[j as int]);
            match value_after(ls[j].as_slice(), "MemFree:") {
                Some(Ok(v)) => {
                    avail = Some(v);
                    found = true;
                },
                Some(Err(e)) => {
                    return Err(e);
                },
                None => {
                    j = j + 1;
                },
            }
        }
    }
    match total {
        None => Err(crate::text::owned("MemTotal not found in /proc/meminfo")),
        Some(t) => match avail {
            None => Err(crate::text::owned("MemAvailable/MemFree not found in /proc/meminfo")),
            Some(a) => Ok((t, a)),
        },
    }
}

/// RAM `(used, total)` in bytes from meminfo `(total, available)` kB; a
/// failed read gives `(0, 0)`.
pub open spec fn ram_bytes(m: Result<(u64, u64), Seq<char>>) -> (nat, nat) {
    match m {
        Ok((total, available)) => {
            let used: nat = if total >= available {
                (total - available) as nat
            } else {
                0
            };
            (used * 1024, total as nat * 1024)
        },
        Err(_) => (0, 0),
    }
}

/// RAM usage in bytes, from the contents of `/proc/meminfo`.
pub fn ram_usage_from(contents: &str) -> (r: (u64, u64))
    requires
        meminfo(contents@) matches Ok((total, _)) ==> total * 1024 <= u64::MAX,
    ensures
        (r.0 as nat, r.1 as nat) == ram_bytes(meminfo(contents@)),
{
    match parse_meminfo(contents) {
        Ok((total, available)) => {
            let used = total.saturating_sub(available);
            (used * 1024, total * 1024)
        },
        Err(_) => (0, 0),
    }
}

/// The value of a `df` field: its number, or 0 when it does not parse.
pub open spec fn df_field(w: Seq<char>) -> nat {
    match parse_unsigned(w, u64::MAX as nat) {
        Ok(v) => v,
        Err(_) => 0,
    }
}

/// Disk `(used, total)` in bytes from the output of `df -k <path>`: the
/// second line's second and third fields in kB; `None` when that line is
/// missing or has fewer than four fields.
pub open spec fn df_usage(out: Seq<char>) -> Option<(nat, nat)> {
    let ls = lines(out);
    if ls.len() < 2 {
        None
    } else {
        let f = words(ls[1]);
        if f.len() >= 4 {
            Some((df_field(f[2]) * 1024, df_field(f[1]) * 1024))
        } else {
            None
        }
    }
}

fn df_field_exec(w: &String) -> (v: u64)
    ensures
        v == df_field(w@),
{
    let c = chars_of(w.as_str());
    match parse_unsigned_exec(c.as_slice(), u64::MAX) {
        Ok(v) => v,
        Err(_) => 0,
    }
}

/// Parses the output of `df -k <path>` into disk `(used, total)` bytes.
pub fn parse_df_output(stdout: &str) -> (r: Option<(u64, u64)>)
    requires
        df_usage(stdout@) matches Some((u, t)) ==> u <= u64::MAX && t <= u64::MAX,
    ensures
        match df_usage(stdout@) {
            Some((u, t)) => r == Some((u as u64, t as u64)),
            None => r is None,
        },
{
    let c = chars_of(stdout);
    let ls = split_lines(c.as_slice());
    if ls.len() < 2 {
        return None;
    }
    assert(ls@[1]@ == lines(stdout@)[1]);
    let fields = split_whitespace(ls[1].as_slice());
    if fields.len() >= 4 {
        assert(fields@[1]@ == words(lines(stdout@)[1])[1]);
        assert(fields@[2]@ == words(lines(stdout@)[1])[2]);
        let used_kb = df_field_exec(&fields[2]);
        let total_kb = df_field_exec(&fields[1]);
        Some((used_kb * 1024, total_kb * 1024))
    } else {
        None
    }
}

} // verus!
