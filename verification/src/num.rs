//! Decimal integers: parsing (as `str::parse` for unsigned types) and printing.
use vstd::prelude::*;

verus! {

/// Why an integer could not be parsed, as `core::num::IntErrorKind`.
#[derive(Debug, Clone, Copy, PartialEq, Eq, Structural)]
pub enum IntErrorKind {
    Empty,
    InvalidDigit,
    PosOverflow,
}

impl IntErrorKind {
    /// The text that `ParseIntError` displays for this kind.
    pub fn message(&self) -> (m: &'static str)
        ensures
            m@ == int_error_message(*self),
    {
        match self {
            IntErrorKind::Empty => "cannot parse integer from empty string",
            IntErrorKind::InvalidDigit => "invalid digit found in string",
            IntErrorKind::PosOverflow => "number too large to fit in target type",
        }
    }
}

/// The text that `ParseIntError` displays.
pub open spec fn int_error_message(k: IntErrorKind) -> Seq<char> {
    match k {
        IntErrorKind::Empty => "cannot parse integer from empty string"@,
        IntErrorKind::InvalidDigit => "invalid digit found in string"@,
        IntErrorKind::PosOverflow => "number too large to fit in target type"@,
    }
}

pub open spec fn is_digit(c: char) -> bool {
    '0' <= c && c <= '9'
}

pub open spec fn digit_value(c: char) -> nat {
    (c as int - '0' as int) as nat
}

/// Left-to-right scan of decimal digits starting from `acc`: the first
/// non-digit is an invalid digit; a value above `max` is an overflow.
pub open spec fn scan_digits(d: Seq<char>, acc: nat, max: nat) -> Result<nat, IntErrorKind>
    decreases d.len(),
{
    if d.len() == 0 {
        Ok(acc)
    } else if !is_digit(d[0]) {
        Err(IntErrorKind::InvalidDigit)
    } else if acc * 10 + digit_value(d[0]) > max {
        Err(IntErrorKind::PosOverflow)
    } else {
        scan_digits(d.drop_first(), acc * 10 + digit_value(d[0]), max)
    }
}

/// `s.parse()` for an unsigned integer type whose largest value is `max`.
pub open spec fn parse_unsigned(s: Seq<char>, max: nat) -> Result<nat, IntErrorKind> {
    if s.len() == 0 {
        Err(IntErrorKind::Empty)
    } else if (s[0] == '+' || s[0] == '-') && s.len() == 1 {
        Err(IntErrorKind::InvalidDigit)
    } else if s[0] == '+' {
        scan_digits(s.drop_first(), 0, max)
    } else {
        scan_digits(s, 0, max)
    }
}

/// The decimal digits of `n`, most significant first, without leading zeros.
pub open spec fn dec(n: nat) -> Seq<char>
    decreases n,
{
    if n < 10 {
        seq![digit_char(n)]
    } else {
        dec(n / 10).push(digit_char(n % 10))
    }
}

pub open spec fn digit_char(d: nat) -> char {
    if d == 0 {
        '0'
    } else if d == 1 {
        '1'
    } else if d == 2 {
        '2'
    } else if d == 3 {
        '3'
    } else if d == 4 {
        '4'
    } else if d == 5 {
        '5'
    } else if d == 6 {
        '6'
    } else if d == 7 {
        '7'
    } else if d == 8 {
        '8'
    } else {
        '9'
    }
}

fn digit_of(c: char) -> (d: u64)
    requires
        is_digit(c),
    ensures
        d == digit_value(c),
        d <= 9,
{
    (c as u32 - '0' as u32) as u64
}

fn scan_digits_exec(d: &[char], start: usize, max: u64) -> (r: Result<u64, IntErrorKind>)
    requires
        start <= d@.len(),
        max >= 9,
    ensures
        match scan_digits(d@.subrange(start as int, d@.len() as int), 0, max as nat) {
            Ok(v) => r == Ok::<u64, IntErrorKind>(v as u64),
            Err(k) => r == Err::<u64, IntErrorKind>(k),
        },
{
    let n = d.len();
    let mut acc: u64 = 0;
    let mut i = start;
    assert(d@.subrange(start as int, n as int) =~= d@.subrange(start as int, n as int));
    while i < n
        invariant
            start <= i <= n == d@.len(),
            max >= 9,
            acc <= max,
            scan_digits(d@.subrange(start as int, n as int), 0, max as nat) == scan_digits(
                d@.subrange(i as int, n as int),
                acc as nat,
                max as nat,
            ),
        decreases n - i,
    {
        let ghost rest = d@.subrange(i as int, n as int);
        assert(rest.drop_first() =~= d@.subrange(i + 1, n as int));
        assert(rest[0] == d@[i as int]);
        let c = d[i];
        if !('0' <= c && c <= '9') {
            return Err(IntErrorKind::InvalidDigit);
        }
        let v = digit_of(c);
        if acc > (max - v) / 10 {
            assert(acc * 10 + v > max) by (nonlinear_arith)
                requires
                    acc > (max - v) / 10,
                    v <= 9,
                    max >= 9,
            ;
            return Err(IntErrorKind::PosOverflow);
        }
        assert(acc * 10 + v <= max) by (nonlinear_arith)
            requires
                acc <= (max - v) / 10,
                v <= 9,
                max >= 9,
        ;
        acc = acc * 10 + v;
        i = i + 1;
    }
    assert(d@.subrange(n as int, n as int).len() == 0);
    Ok(acc)
}

/// Parses `s` as `str::parse` does for an unsigned integer type whose largest
/// value is `max` (`u8::MAX`, `u16::MAX`, `u64::MAX`, ...).
pub fn parse_unsigned_exec(s: &[char], max: u64) -> (r: Result<u64, IntErrorKind>)
    requires
        max >= 9,
    ensures
        match parse_unsigned(s@, max as nat) {
            Ok(v) => r == Ok::<u64, IntErrorKind>(v as u64) && v <= max,
            Err(k) => r == Err::<u64, IntErrorKind>(k),
        },
{
    proof {
        lemma_parse_bound(s@, max as nat);
    }
    if s.len() == 0 {
        return Err(IntErrorKind::Empty);
    }
    if (s[0] == '+' || s[0] == '-') && s.len() == 1 {
        return Err(IntErrorKind::InvalidDigit);
    }
    if s[0] == '+' {
        assert(s@.subrange(1, s@.len() as int) =~= s@.drop_first());
        scan_digits_exec(s, 1, max)
    } else {
        assert(s@.subrange(0, s@.len() as int) =~= s@);
        scan_digits_exec(s, 0, max)
    }
}

/// A successfully parsed value never exceeds the bound.
pub proof fn lemma_scan_bound(d: Seq<char>, acc: nat, max: nat)
    requires
        acc <= max,
    ensures
        scan_digits(d, acc, max) is Ok ==> scan_digits(d, acc, max)->Ok_0 <= max,
    decreases d.len(),
{
    if d.len() > 0 && is_digit(d[0]) && acc * 10 + digit_value(d[0]) <= max {
        lemma_scan_bound(d.drop_first(), acc * 10 + digit_value(d[0]), max);
    }
}

/// A parsed value never exceeds the type's largest value.
pub proof fn lemma_parse_bound(s: Seq<char>, max: nat)
    ensures
        parse_unsigned(s, max) is Ok ==> parse_unsigned(s, max)->Ok_0 <= max,
{
    lemma_scan_bound(s, 0, max);
    if s.len() > 0 {
        lemma_scan_bound(s.drop_first(), 0, max);
    }
}

fn digit_char_exec(d: u64) -> (c: char)
    requires
        d <= 9,
    ensures
        c == digit_char(d as nat),
{
    if d == 0 {
        '0'
    } else if d == 1 {
        '1'
    } else if d == 2 {
        '2'
    } else if d == 3 {
        '3'
    } else if d == 4 {
        '4'
    } else if d == 5 {
        '5'
    } else if d == 6 {
        '6'
    } else if d == 7 {
        '7'
    } else if d == 8 {
        '8'
    } else {
        '9'
    }
}

/// Appends the decimal digits of `n` to `out` (as `{}` formatting does).
pub fn push_dec(out: &mut Vec<char>, n: u64)
    ensures
        final(out)@ == old(out)@ + dec(n as nat),
    decreases n,
{
    if n >= 10 {
        push_dec(out, n / 10);
    }
    let ghost mid = out@;
    out.push(digit_char_exec(n % 10));
    if n >= 10 {
        assert(out@ =~= old(out)@ + dec(n as nat));
    } else {
        assert(out@ =~= old(out)@ + dec(n as nat));
    }
}

/// Appends `n` printed with at least `width` digits, padded with leading
/// zeros (as `{:0width$}` for a non-negative number).
pub fn push_dec_padded(out: &mut Vec<char>, n: u64, width: usize)
    ensures
        final(out)@ == old(out)@ + zero_pad(dec(n as nat), width as nat),
{
    let mut digits: Vec<char> = Vec::new();
    push_dec(&mut digits, n);
    assert(digits@ =~= dec(n as nat));
    let mut k = digits.len();
    let ghost start = out@;
    while k < width
        invariant
            digits@ == dec(n as nat),
            k >= digits@.len(),
            k <= width || k == digits@.len(),
            out@ == start + Seq::new((k - digits@.len()) as nat, |i: int| '0'),
        decreases width - k,
    {
        out.push('0');
        assert(out@ =~= start + Seq::new((k + 1 - digits@.len()) as nat, |i: int| '0'));
        k = k + 1;
    }
    let ghost zeros = out@;
    let mut i: usize = 0;
    while i < digits.len()
        invariant
            i <= digits@.len(),
            out@ == zeros + digits@.subrange(0, i as int),
        decreases digits@.len() - i,
    {
        out.push(digits[i]);
        assert(out@ =~= zeros + digits@.subrange(0, i + 1));
        i = i + 1;
    }
    assert(digits@.subrange(0, digits@.len() as int) =~= digits@);
    if digits.len() >= width {
        assert(Seq::new((k - digits@.len()) as nat, |i: int| '0') =~= Seq::<char>::empty());
    }
    assert(out@ =~= start + zero_pad(dec(n as nat), width as nat));
}

/// `d` preceded by enough zeros to have at least `width` characters.
pub open spec fn zero_pad(d: Seq<char>, width: nat) -> Seq<char> {
    if d.len() >= width {
        d
    } else {
        Seq::new((width - d.len()) as nat, |i: int| '0') + d
    }
}

} // verus!
