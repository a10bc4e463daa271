//! Bore tunnel configuration: the public address and the port to reuse.
use vstd::prelude::*;
use crate::client::format::{push_chars, push_str};
use crate::num::{dec, parse_unsigned, parse_unsigned_exec, push_dec};
use crate::text::{chars_of, owned, string_from_chars};

verus! {

/// Configuration for the bore tunnel client.
#[derive(Debug, Clone)]
pub struct BoreConfig {
    /// Address of the bore server (e.g. "bore.pub").
    pub server_host: String,
    /// Optional secret for authenticated tunnels.
    pub secret: Option<String>,
    /// The local port to expose (our gRPC server).
    pub local_port: u16,
    /// Previously assigned remote port — will be reused on reconnect.
    pub remote_port: Option<u16>,
}

impl Default for BoreConfig {
    fn default() -> (c: Self)
        ensures
            c.server_host@ == "bore.pub"@,
            c.secret is None,
            c.local_port == 9050,
            c.remote_port is None,
    {
        BoreConfig { server_host: owned("bore.pub"), secret: None, local_port: 9050, remote_port: None }
    }
}

impl BoreConfig {
    /// The remote port to ask for: the previously assigned one, or 0 for any.
    pub fn preferred_port(&self) -> (p: u16)
        ensures
            p == match self.remote_port {
                Some(q) => q,
                None => 0u16,
            },
    {
        match self.remote_port {
            Some(q) => q,
            None => 0,
        }
    }
}

/// Seconds to wait before reconnecting after an established tunnel drops.
pub const RECONNECT_AFTER_LOSS_SECS: u64 = 5;

/// Seconds to wait before trying again after a tunnel could not be made.
pub const RETRY_AFTER_FAILURE_SECS: u64 = 10;

/// The port to ask for after the bore server refused `requested`: a
/// specific (previously assigned) port falls back to any port (0); when any
/// port was already asked for, there is nothing left to try.
pub fn fallback_port(requested: u16) -> (r: Option<u16>)
    ensures
        requested != 0 ==> r == Some(0u16),
        requested == 0 ==> r is None,
        r matches Some(p) ==> fallback_port_spec(p) is None,
{
    if requested != 0 {
        Some(0)
    } else {
        None
    }
}

/// `fallback_port` as a value.
pub open spec fn fallback_port_spec(requested: u16) -> Option<u16> {
    if requested != 0 {
        Some(0u16)
    } else {
        None
    }
}

/// The error when no tunnel could be made to `host`.
pub open spec fn connect_failure_text(host: Seq<char>) -> Seq<char> {
    "Failed to connect to bore server '"@ + host
        + "'. Make sure the server is running and reachable from this network."@
}

/// The error reported when the bore server at `host` cannot be reached.
pub fn connect_failure_message(host: &str) -> (m: String)
    ensures
        m@ == connect_failure_text(host@),
{
    let mut out: Vec<char> = Vec::new();
    push_str(&mut out, "Failed to connect to bore server '");
    let h = chars_of(host);
    push_chars(&mut out, h.as_slice());
    push_str(&mut out, "'. Make sure the server is running and reachable from this network.");
    string_from_chars(out.as_slice())
}

/// `"{host}:{port}"`.
pub open spec fn address_text(host: Seq<char>, port: nat) -> Seq<char> {
    host + ":"@ + dec(port)
}

/// The public address of a tunnel on `host` with remote port `port`.
pub fn public_address(host: &str, port: u16) -> (a: String)
    ensures
        a@ == address_text(host@, port as nat),
{
    let mut out: Vec<char> = Vec::new();
    let h = chars_of(host);
    push_chars(&mut out, h.as_slice());
    push_str(&mut out, ":");
    push_dec(&mut out, port as u64);
    string_from_chars(out.as_slice())
}

/// Index just after the last `:` in `s`, or 0 when there is none.
pub open spec fn after_last_colon(s: Seq<char>) -> int
    decreases s.len(),
{
    if s.len() == 0 {
        0
    } else if s.last() == ':' {
        s.len() as int
    } else {
        after_last_colon(s.drop_last())
    }
}

proof fn lemma_after_last_colon(s: Seq<char>)
    ensures
        0 <= after_last_colon(s) <= s.len(),
        forall|i: int| after_last_colon(s) <= i < s.len() ==> s[i] != ':',
        after_last_colon(s) > 0 ==> s[after_last_colon(s) - 1] == ':',
    decreases s.len(),
{
    if s.len() > 0 && s.last() != ':' {
        lemma_after_last_colon(s.drop_last());
        assert forall|i: int| after_last_colon(s) <= i < s.len() implies s[i] != ':' by {
            if i < s.len() - 1 {
                assert(s[i] == s.drop_last()[i]);
            }
        }
    }
}

/// The remote port of a public address: the text after the last `:`
/// parsed as a `u16` (as `addr.split(':').last()` then `parse().ok()`).
pub open spec fn port_of_address(a: Seq<char>) -> Option<u16> {
    match parse_unsigned(a.subrange(after_last_colon(a), a.len() as int), u16::MAX as nat) {
        Ok(v) => Some(v as u16),
        Err(_) => None,
    }
}

/// The remote port of a public address, to reuse after a reconnect.
pub fn remote_port_of(address: &str) -> (p: Option<u16>)
    ensures
        p == port_of_address(address@),
{
    let a = chars_of(address);
    let mut k = a.len();
    assert(a@.subrange(0, a@.len() as int) =~= a@);
    while k > 0 && a[k - 1] != ':'
        invariant
            k <= a@.len(),
            a@ == address@,
            after_last_colon(address@) == after_last_colon(a@.subrange(0, k as int)),
        decreases k,
    {
        assert(a@.subrange(0, k as int).drop_last() =~= a@.subrange(0, k - 1));
        k = k - 1;
    }
    proof {
        assert(a@.subrange(0, a@.len() as int) =~= a@);
    }
    let tail = crate::text::copy_range(a.as_slice(), k, a.len());
    match parse_unsigned_exec(tail.as_slice(), 65535) {
        Ok(v) => Some(v as u16),
        Err(_) => None,
    }
}

/// Printing `{n}` and parsing it back as a number gives `n`.
pub proof fn lemma_dec_parses_back(n: nat, max: nat)
    requires
        n <= max,
        max >= 9,
    ensures
        parse_unsigned(dec(n), max) == Ok::<nat, crate::num::IntErrorKind>(n),
        forall|i: int| 0 <= i < dec(n).len() ==> #[trigger] dec(n)[i] != ':',
{
    lemma_dec_scan(n, max);
    lemma_dec_digits(n);
    assert(dec(n).len() > 0 && dec(n)[0] != '+' && dec(n)[0] != '-');
}

pub proof fn lemma_dec_digits(n: nat)
    ensures
        dec(n).len() > 0,
        forall|i: int| 0 <= i < dec(n).len() ==> crate::num::is_digit(#[trigger] dec(n)[i]),
    decreases n,
{
    if n >= 10 {
        lemma_dec_digits(n / 10);
        assert forall|i: int| 0 <= i < dec(n).len() implies crate::num::is_digit(
            #[trigger] dec(n)[i],
        ) by {
            if i < dec(n / 10).len() {
                assert(dec(n)[i] == dec(n / 10)[i]);
            }
        }
    }
}

/// Scanning digits left to right: the scan of `d + [c]` extends the scan of `d`.
proof fn lemma_scan_push(d: Seq<char>, c: char, acc: nat, max: nat)
    requires
        crate::num::scan_digits(d, acc, max) is Ok,
        crate::num::is_digit(c),
        crate::num::scan_digits(d, acc, max)->Ok_0 * 10 + crate::num::digit_value(c) <= max,
    ensures
        crate::num::scan_digits(d.push(c), acc, max) == Ok::<nat, crate::num::IntErrorKind>(
            crate::num::scan_digits(d, acc, max)->Ok_0 * 10 + crate::num::digit_value(c),
        ),
    decreases d.len(),
{
    reveal_with_fuel(crate::num::scan_digits, 2);
    if d.len() > 0 {
        assert(d.push(c).drop_first() =~= d.drop_first().push(c));
        assert(d.push(c)[0] == d[0]);
        lemma_scan_push(d.drop_first(), c, acc * 10 + crate::num::digit_value(d[0]), max);
    } else {
        assert(d.push(c) =~= seq![c]);
        assert(seq![c].drop_first() =~= Seq::<char>::empty());
        assert(seq![c][0] == c);
    }
}

proof fn lemma_scan_mono(d: Seq<char>, acc: nat, max: nat)
    requires
        crate::num::scan_digits(d, acc, max) is Ok,
    ensures
        acc <= crate::num::scan_digits(d, acc, max)->Ok_0,
    decreases d.len(),
{
    if d.len() > 0 {
        lemma_scan_mono(d.drop_first(), acc * 10 + crate::num::digit_value(d[0]), max);
    }
}

proof fn lemma_dec_scan(n: nat, max: nat)
    requires
        n <= max,
    ensures
        crate::num::scan_digits(dec(n), 0, max) == Ok::<nat, crate::num::IntErrorKind>(n),
    decreases n,
{
    reveal_with_fuel(crate::num::scan_digits, 2);
    lemma_digit_char_value(n % 10);
    if n < 10 {
        assert(dec(n) =~= seq![crate::num::digit_char(n)]);
        assert(dec(n).drop_first() =~= Seq::<char>::empty());
    } else {
        lemma_dec_scan(n / 10, max);
        assert(n / 10 * 10 + n % 10 == n);
        lemma_scan_push(dec(n / 10), crate::num::digit_char(n % 10), 0, max);
        assert(dec(n) == dec(n / 10).push(crate::num::digit_char(n % 10)));
    }
}

proof fn lemma_digit_char_value(d: nat)
    requires
        d < 10,
    ensures
        crate::num::is_digit(crate::num::digit_char(d)),
        crate::num::digit_value(crate::num::digit_char(d)) == d,
{
}

/// The port written into a public address is the port read back from it,
/// whatever the host.
pub proof fn law_address_port_roundtrip(host: Seq<char>, port: u16)
    ensures
        port_of_address(address_text(host, port as nat)) == Some(port),
{
    let a = address_text(host, port as nat);
    let d = dec(port as nat);
    lemma_dec_parses_back(port as nat, u16::MAX as nat);
    reveal_strlit(":");
    lemma_after_last_colon(a);
    let k: int = host.len() as int + 1;
    assert(a[k - 1] == ':');
    assert(forall|i: int| k <= i < a.len() ==> a[i] == d[i - k]);
    assert(after_last_colon(a) == k) by {
        if after_last_colon(a) < k {
            assert(a[k - 1] != ':');
        }
        if after_last_colon(a) > k {
            assert(a[after_last_colon(a) - 1] == d[after_last_colon(a) - 1 - k]);
        }
    }
    assert(a.subrange(k, a.len() as int) =~= d);
}

} // verus!
