//! Display formatting used by the client screens: durations, byte sizes,
//! clock times, shortened paths, and the labels of wire codes.
use vstd::prelude::*;
use crate::num::{dec, push_dec, push_dec_padded, zero_pad};
use crate::text::{chars_of, string_from_chars};

verus! {

/// Appends the characters of `lit`.
pub fn push_str(out: &mut Vec<char>, lit: &str)
    ensures
        final(out)@ == old(out)@ + lit@,
{
    let l = chars_of(lit);
    push_chars(out, l.as_slice());
}

/// Appends the characters of `s`.
pub fn push_chars(out: &mut Vec<char>, s: &[char])
    ensures
        final(out)@ == old(out)@ + s@,
{
    let ghost start = out@;
    let mut i: usize = 0;
    while i < s.len()
        invariant
            i <= s@.len(),
            out@ == start + s@.subrange(0, i as int),
        decreases s@.len() - i,
    {
        out.push(s[i]);
        assert(out@ =~= start + s@.subrange(0, i + 1));
        i = i + 1;
    }
    assert(s@.subrange(0, s@.len() as int) =~= s@);
}

/// `format_uptime` as text: the two or three largest non-zero units.
pub open spec fn uptime_text(seconds: nat) -> Seq<char> {
    let days = seconds / 86400;
    let hours = (seconds % 86400) / 3600;
    let mins = (seconds % 3600) / 60;
    let secs = seconds % 60;
    if days > 0 {
        dec(days) + "d "@ + dec(hours) + "h "@ + dec(mins) + "m"@
    } else if hours > 0 {
        dec(hours) + "h "@ + dec(mins) + "m"@
    } else if mins > 0 {
        dec(mins) + "m "@ + dec(secs) + "s"@
    } else {
        dec(secs) + "s"@
    }
}

/// An uptime of `d` days, `h` hours, `m` minutes and `x` seconds reads as
/// its two or three largest units, each the count of that unit: days,
/// hours and minutes when there are days; hours and minutes when there are
/// hours; minutes and seconds when there are minutes; seconds otherwise.
pub proof fn law_uptime_units(d: nat, h: nat, m: nat, x: nat)
    requires
        h < 24,
        m < 60,
        x < 60,
    ensures
        ({
            let t = uptime_text(d * 86400 + h * 3600 + m * 60 + x);
            &&& d > 0 ==> t == dec(d) + "d "@ + dec(h) + "h "@ + dec(m) + "m"@
            &&& d == 0 && h > 0 ==> t == dec(h) + "h "@ + dec(m) + "m"@
            &&& d == 0 && h == 0 && m > 0 ==> t == dec(m) + "m "@ + dec(x) + "s"@
            &&& d == 0 && h == 0 && m == 0 ==> t == dec(x) + "s"@
        }),
{
    let s: int = (d * 86400 + h * 3600 + m * 60 + x) as int;
    let r: int = (h * 3600 + m * 60 + x) as int;
    let q1: int = (d * 24 + h) as int;
    let q2: int = (d * 1440 + h * 60 + m) as int;
    let mx: int = (m * 60 + x) as int;
    assert(s == d * 86400 + r);
    assert(0 <= r < 86400);
    vstd::arithmetic::div_mod::lemma_fundamental_div_mod_converse(s, 86400, d as int, r);
    vstd::arithmetic::div_mod::lemma_fundamental_div_mod_converse(r, 3600, h as int, mx);
    assert(s == q1 * 3600 + mx) by (nonlinear_arith)
        requires
            s == d * 86400 + h * 3600 + m * 60 + x,
            q1 == d * 24 + h,
            mx == m * 60 + x,
    ;
    vstd::arithmetic::div_mod::lemma_fundamental_div_mod_converse(s, 3600, q1, mx);
    vstd::arithmetic::div_mod::lemma_fundamental_div_mod_converse(mx, 60, m as int, x as int);
    assert(s == q2 * 60 + x) by (nonlinear_arith)
        requires
            s == d * 86400 + h * 3600 + m * 60 + x,
            q2 == d * 1440 + h * 60 + m,
    ;
    vstd::arithmetic::div_mod::lemma_fundamental_div_mod_converse(s, 60, q2, x as int);
}

/// Human-readable uptime string from seconds.
pub fn format_uptime(seconds: u32) -> (s: String)
    ensures
        s@ == uptime_text(seconds as nat),
{
    let days = seconds / 86400;
    let hours = (seconds % 86400) / 3600;
    let mins = (seconds % 3600) / 60;
    let secs = seconds % 60;
    let mut out: Vec<char> = Vec::new();
    if days > 0 {
        push_dec(&mut out, days as u64);
        push_str(&mut out, "d ");
        push_dec(&mut out, hours as u64);
        push_str(&mut out, "h ");
        push_dec(&mut out, mins as u64);
        push_str(&mut out, "m");
    } else if hours > 0 {
        push_dec(&mut out, hours as u64);
        push_str(&mut out, "h ");
        push_dec(&mut out, mins as u64);
        push_str(&mut out, "m");
    } else if mins > 0 {
        push_dec(&mut out, mins as u64);
        push_str(&mut out, "m ");
        push_dec(&mut out, secs as u64);
        push_str(&mut out, "s");
    } else {
        push_dec(&mut out, secs as u64);
        push_str(&mut out, "s");
    }
    assert(out@ =~= uptime_text(seconds as nat));
    string_from_chars(out.as_slice())
}

/// The second of the day (UTC) of a Unix time in milliseconds: Euclidean
/// quotient and remainder, so times before 1970 count back from midnight.
pub open spec fn second_of_day(millis: int) -> int {
    (millis / 1000) % 86400
}

/// `format_timestamp` as text: `HH:MM:SS` of the time of day in UTC.
pub open spec fn timestamp_text(millis: int) -> Seq<char> {
    let t = second_of_day(millis);
    zero_pad(dec((t / 3600) as nat), 2) + ":"@ + zero_pad(dec(((t % 3600) / 60) as nat), 2) + ":"@
        + zero_pad(dec((t % 60) as nat), 2)
}

/// A time `h:m:x` (plus `ms` milliseconds) on any day `k` before or after
/// 1970 shows as that time of day, each field as two digits.
pub proof fn law_timestamp_time_of_day(k: int, h: nat, m: nat, x: nat, ms: nat)
    requires
        h < 24,
        m < 60,
        x < 60,
        ms < 1000,
    ensures
        timestamp_text((k * 86400 + h * 3600 + m * 60 + x) * 1000 + ms) == zero_pad(dec(h), 2)
            + ":"@ + zero_pad(dec(m), 2) + ":"@ + zero_pad(dec(x), 2),
{
    let t: int = (h * 3600 + m * 60 + x) as int;
    let q: int = k * 86400 + t;
    let millis: int = (k * 86400 + h * 3600 + m * 60 + x) * 1000 + ms;
    assert(millis == q * 1000 + ms);
    vstd::arithmetic::div_mod::lemma_fundamental_div_mod_converse(millis, 1000, q, ms as int);
    vstd::arithmetic::div_mod::lemma_fundamental_div_mod_converse(q, 86400, k, t);
    let mx: int = (m * 60 + x) as int;
    vstd::arithmetic::div_mod::lemma_fundamental_div_mod_converse(t, 3600, h as int, mx);
    vstd::arithmetic::div_mod::lemma_fundamental_div_mod_converse(mx, 60, m as int, x as int);
    assert(t == (h * 60 + m) * 60 + x) by (nonlinear_arith)
        requires
            t == h * 3600 + m * 60 + x,
    ;
    vstd::arithmetic::div_mod::lemma_fundamental_div_mod_converse(t, 60, (h * 60 + m) as int, x as int);
}

/// The second of the day, computed on unsigned magnitudes.
fn second_of_day_exec(millis: i64) -> (t: u64)
    ensures
        t == second_of_day(millis as int),
        t < 86400,
{
    if millis >= 0 {
        let secs = (millis as u64) / 1000;
        secs % 86400
    } else {
        let mag: u64 = (-(millis as i128)) as u64;
        let c = (mag + 999) / 1000;
        let r = c % 86400;
        let t = if r == 0 { 0 } else { 86400 - r };
        proof {
            let m = millis as int;
            let q = m / 1000;
            assert(m == -(mag as int));
            assert(q == -(c as int)) by (nonlinear_arith)
                requires
                    m == -(mag as int),
                    mag >= 1,
                    c == (mag + 999) / 1000,
                    q == m / 1000,
            ;
            assert((-(c as int)) % 86400 == t) by (nonlinear_arith)
                requires
                    r == c % 86400,
                    t == if r == 0 { 0int } else { 86400 - r },
            ;
        }
        t
    }
}

/// Format a timestamp millis value into HH:MM:SS.
pub fn format_timestamp(millis: i64) -> (s: String)
    ensures
        s@ == timestamp_text(millis as int),
{
    let t = second_of_day_exec(millis);
    let mut out: Vec<char> = Vec::new();
    push_dec_padded(&mut out, t / 3600, 2);
    push_str(&mut out, ":");
    push_dec_padded(&mut out, (t % 3600) / 60, 2);
    push_str(&mut out, ":");
    push_dec_padded(&mut out, t % 60, 2);
    assert(out@ =~= timestamp_text(millis as int));
    string_from_chars(out.as_slice())
}

/// The smallest power of two `p >= start` (doubling from `start`) with
/// `b / p < 2^53`.
pub open spec fn scale_from(b: nat, p: nat) -> nat
    decreases b - p,
{
    if p == 0 || b / p < 0x20_0000_0000_0000 {
        p
    } else {
        proof {
            lemma_double_below(b, p);
        }
        scale_from(b, 2 * p)
    }
}

pub proof fn lemma_double_below(b: nat, p: nat)
    requires
        p > 0,
        b / p >= 0x20_0000_0000_0000,
    ensures
        2 * p <= b,
{
    assert(b >= p * (b / p)) by (nonlinear_arith)
        requires
            p > 0,
    ;
    assert(p * (b / p) >= p * 2) by (nonlinear_arith)
        requires
            p > 0,
            b / p >= 2,
    ;
}

/// The value of `b as f64`: `b` rounded to 53 significant bits, ties to an
/// even last bit.
pub open spec fn f64_value(b: nat) -> nat {
    let p = scale_from(b, 1);
    let q = b / p;
    let r = b % p;
    let q2 = if p > 1 && (2 * r > p || (2 * r == p && q % 2 == 1)) {
        q + 1
    } else {
        q
    };
    q2 * p
}

/// `n / d` rounded to the nearest integer, ties to even.
pub open spec fn round_half_even(n: nat, d: nat) -> nat {
    let q = n / d;
    let r = n % d;
    if 2 * r > d || (2 * r == d && q % 2 == 1) {
        q + 1
    } else {
        q
    }
}

/// `{:.1}` of `v / unit` followed by `suffix`, where `v / unit` is exact in
/// binary: the value in tenths, rounded half to even.
pub open spec fn one_decimal(v: nat, unit: nat, suffix: Seq<char>) -> Seq<char> {
    let t = round_half_even(v * 10, unit);
    dec(t / 10) + "."@ + dec(t % 10) + suffix
}

/// `format_bytes` as text.
pub open spec fn bytes_text(bytes: nat) -> Seq<char> {
    if bytes >= 1_073_741_824 {
        one_decimal(f64_value(bytes), 1_073_741_824, " GB"@)
    } else if bytes >= 1_048_576 {
        one_decimal(f64_value(bytes), 1_048_576, " MB"@)
    } else if bytes >= 1024 {
        one_decimal(f64_value(bytes), 1024, " KB"@)
    } else {
        dec(bytes) + " B"@
    }
}

/// Sizes below 1024 bytes show in bytes; a whole number `q` of KB, MB or
/// GB (below the next unit, or below 2^23 GB) shows as `q.0` of that unit.
pub proof fn law_bytes_units(b: nat, q: nat)
    requires
        1 <= q < 1024,
    ensures
        b < 1024 ==> bytes_text(b) == dec(b) + " B"@,
        bytes_text(q * 1024) == dec(q) + ".0 KB"@,
        bytes_text(q * 1_048_576) == dec(q) + ".0 MB"@,
        bytes_text(q * 1_073_741_824) == dec(q) + ".0 GB"@,
{
    lemma_whole_units(q, 1024, " KB"@);
    lemma_whole_units(q, 1_048_576, " MB"@);
    lemma_whole_units(q, 1_073_741_824, " GB"@);
    reveal_strlit(".0");
    reveal_strlit(" KB");
    reveal_strlit(".0 KB");
    reveal_strlit(" MB");
    reveal_strlit(".0 MB");
    reveal_strlit(" GB");
    reveal_strlit(".0 GB");
    assert(dec(q) + ".0"@ + " KB"@ =~= dec(q) + ".0 KB"@);
    assert(dec(q) + ".0"@ + " MB"@ =~= dec(q) + ".0 MB"@);
    assert(dec(q) + ".0"@ + " GB"@ =~= dec(q) + ".0 GB"@);
    assert(q * 1024 < 1_048_576) by (nonlinear_arith)
        requires
            q < 1024,
    ;
    assert(q * 1_048_576 < 1_073_741_824) by (nonlinear_arith)
        requires
            q < 1024,
    ;
    assert(q * 1024 >= 1024 && q * 1_048_576 >= 1_048_576 && q * 1_073_741_824 >= 1_073_741_824)
        by (nonlinear_arith)
        requires
            q >= 1,
    ;
}

proof fn lemma_whole_units(q: nat, unit: nat, suffix: Seq<char>)
    requires
        1 <= q < 1024,
        1024 <= unit <= 1_073_741_824,
    ensures
        one_decimal(f64_value(q * unit), unit, suffix) == dec(q) + ".0"@ + suffix,
{
    let b = q * unit;
    assert(b < 0x20_0000_0000_0000) by (nonlinear_arith)
        requires
            q < 1024,
            unit <= 1_073_741_824,
            b == q * unit,
    ;
    assert(scale_from(b, 1) == 1);
    assert(f64_value(b) == b);
    let n = b * 10;
    assert(n == (q * 10) * unit + 0) by (nonlinear_arith)
        requires
            n == b * 10,
            b == q * unit,
    ;
    vstd::arithmetic::div_mod::lemma_fundamental_div_mod_converse(n as int, unit as int, (q * 10) as int, 0);
    assert(round_half_even(n, unit) == q * 10);
    vstd::arithmetic::div_mod::lemma_fundamental_div_mod_converse((q * 10) as int, 10, q as int, 0);
    reveal_strlit(".0");
    reveal_strlit(".");
    assert(dec(0) == seq!['0']);
    assert(dec(q) + "."@ + dec(0) + suffix =~= dec(q) + ".0"@ + suffix);
}

fn f64_value_exec(b: u64) -> (v: u128)
    ensures
        v == f64_value(b as nat),
        v <= 0x2_0000_0000_0000_0000,
{
    let bb = b as u128;
    let mut p: u128 = 1;
    while bb / p >= 0x20_0000_0000_0000
        invariant
            1 <= p <= bb + 1,
            bb == b,
            scale_from(b as nat, 1) == scale_from(b as nat, p as nat),
        decreases bb + 1 - p,
    {
        proof {
            lemma_double_below(b as nat, p as nat);
            assert(scale_from(b as nat, p as nat) == scale_from(b as nat, 2 * p as nat));
        }
        p = 2 * p;
    }
    let q = bb / p;
    let r = bb % p;
    assert(q * p + r == bb && r < p) by (nonlinear_arith)
        requires
            q == bb / p,
            r == bb % p,
            p >= 1,
    ;
    let q2 = if p > 1 && (2 * r > p || (2 * r == p && q % 2 == 1)) {
        q + 1
    } else {
        q
    };
    assert(q2 * p <= bb + p) by (nonlinear_arith)
        requires
            q * p + r == bb,
            q2 <= q + 1,
            p >= 1,
    ;
    q2 * p
}

fn one_decimal_exec(out: &mut Vec<char>, v: u128, unit: u128, suffix: &str)
    requires
        v <= 0x2_0000_0000_0000_0000,
        1024 <= unit <= 0x4000_0000,
    ensures
        final(out)@ == old(out)@ + one_decimal(v as nat, unit as nat, suffix@),
{
    let n = v * 10;
    let q = n / unit;
    let r = n % unit;
    let t = if 2 * r > unit || (2 * r == unit && q % 2 == 1) {
        q + 1
    } else {
        q
    };
    assert(q <= n / 1024) by (nonlinear_arith)
        requires
            q == n / unit,
            unit >= 1024,
    ;
    assert(t <= 0x1_0000_0000_0000_0000);
    push_dec(out, (t / 10) as u64);
    push_str(out, ".");
    push_dec(out, (t % 10) as u64);
    push_str(out, suffix);
}

/// Format bytes into human-readable form.
pub fn format_bytes(bytes: u64) -> (s: String)
    ensures
        s@ == bytes_text(bytes as nat),
{
    let mut out: Vec<char> = Vec::new();
    if bytes >= 1_073_741_824 {
        one_decimal_exec(&mut out, f64_value_exec(bytes), 1_073_741_824, " GB");
    } else if bytes >= 1_048_576 {
        one_decimal_exec(&mut out, f64_value_exec(bytes), 1_048_576, " MB");
    } else if bytes >= 1024 {
        one_decimal_exec(&mut out, f64_value_exec(bytes), 1024, " KB");
    } else {
        push_dec(&mut out, bytes);
        push_str(&mut out, " B");
    }
    assert(out@ =~= bytes_text(bytes as nat));
    string_from_chars(out.as_slice())
}

/// `truncate_path` as text: short values unchanged, long ones keep equally
/// many characters from each end around `...`; below three characters of
/// room, as many dots as fit.
pub open spec fn truncated_text(v: Seq<char>, max_chars: nat) -> Seq<char> {
    if v.len() <= max_chars {
        v
    } else if max_chars < 3 {
        "..."@.subrange(0, max_chars as int)
    } else {
        let keep = ((max_chars - 3) / 2) as nat;
        v.subrange(0, keep as int) + "..."@ + v.subrange(v.len() - keep, v.len() as int)
    }
}

/// Truncate a path to fit within a maximum character count, preserving both ends.
pub fn truncate_path(value: &str, max_chars: usize) -> (s: String)
    ensures
        s@ == truncated_text(value@, max_chars as nat),
        s@.len() <= max_chars || s@ == value@,
{
    let v = chars_of(value);
    if v.len() <= max_chars {
        return string_from_chars(v.as_slice());
    }
    let mut out: Vec<char> = Vec::new();
    if max_chars < 3 {
        let dots = chars_of("...");
        proof {
            reveal_strlit("...");
        }
        let fit = crate::text::copy_range(dots.as_slice(), 0, max_chars);
        return string_from_chars(fit.as_slice());
    }
    let keep = (max_chars - 3) / 2;
    let start = crate::text::copy_range(v.as_slice(), 0, keep);
    push_chars(&mut out, start.as_slice());
    push_str(&mut out, "...");
    let end = crate::text::copy_range(v.as_slice(), v.len() - keep, v.len());
    push_chars(&mut out, end.as_slice());
    proof {
        reveal_strlit("...");
    }
    string_from_chars(out.as_slice())
}

/// Truncate a value in the middle to at most about `max_chars` characters.
pub fn truncate_middle(value: &str, max_chars: usize) -> (s: String)
    ensures
        s@ == truncated_text(value@, max_chars as nat),
        s@.len() <= max_chars || s@ == value@,
{
    truncate_path(value, max_chars)
}

} // verus!
