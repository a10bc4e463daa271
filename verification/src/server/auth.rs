//! Pairing tokens and API key authentication.
use vstd::prelude::*;
use crate::client::format::{push_chars, push_str};
use crate::text::{chars_of, string_from_chars};
use rand::Rng;
use sha2::Digest;

verus! {

/// What SHA-256 gives for `data`.
pub uninterp spec fn sha256_digest(data: Seq<u8>) -> Seq<u8>;

/// Calls `sha2::Sha256::digest`. The digest is named `sha256_digest`; the
/// contract adds only that it is 32 bytes long, as the algorithm fixes.
#[verifier::external_body]
fn sha256(data: &[u8]) -> (r: Vec<u8>)
    ensures
        r@ == sha256_digest(data@),
        r@.len() == 32,
{
    sha2::Sha256::digest(data).to_vec()
}

/// A letter or digit of ASCII.
pub open spec fn is_ascii_alphanumeric(c: char) -> bool {
    ('0' <= c && c <= '9') || ('a' <= c && c <= 'z') || ('A' <= c && c <= 'Z')
}

/// Draws `n` characters from `rand::distributions::Alphanumeric` with the
/// thread-local generator. The characters are random; the contract states
/// only how many there are and that each is an ASCII letter or digit.
#[verifier::external_body]
fn random_alphanumeric(n: usize) -> (s: String)
    ensures
        s@.len() == n,
        forall|i: int| 0 <= i < n ==> is_ascii_alphanumeric(#[trigger] s@[i]),
{
    rand::thread_rng().sample_iter(&rand::distributions::Alphanumeric).take(n).map(char::from).collect()
}

/// The two lowercase hexadecimal digits of a byte.
pub open spec fn hex_digit(d: nat) -> char {
    if d < 10 {
        crate::num::digit_char(d)
    } else if d == 10 {
        'a'
    } else if d == 11 {
        'b'
    } else if d == 12 {
        'c'
    } else if d == 13 {
        'd'
    } else if d == 14 {
        'e'
    } else {
        'f'
    }
}

/// Lowercase hexadecimal text of a byte string (as `{:x}` of a digest).
pub open spec fn lower_hex(b: Seq<u8>) -> Seq<char>
    decreases b.len(),
{
    if b.len() == 0 {
        seq![]
    } else {
        lower_hex(b.drop_last()) + seq![hex_digit(b.last() as nat / 16), hex_digit(b.last() as nat % 16)]
    }
}

fn hex_digit_exec(d: u8) -> (c: char)
    requires
        d < 16,
    ensures
        c == hex_digit(d as nat),
{
    match d {
        0 => '0',
        1 => '1',
        2 => '2',
        3 => '3',
        4 => '4',
        5 => '5',
        6 => '6',
        7 => '7',
        8 => '8',
        9 => '9',
        10 => 'a',
        11 => 'b',
        12 => 'c',
        13 => 'd',
        14 => 'e',
        _ => 'f',
    }
}

/// The stored form of a token: the lowercase hex SHA-256 of its UTF-8 bytes.
pub open spec fn token_hash(token: Seq<char>) -> Seq<char> {
    lower_hex(sha256_digest(vstd::utf8::encode_utf8(token)))
}

/// Hash a token with SHA-256 for storage.
pub fn hash_token(token: &str) -> (h: String)
    ensures
        h@ == token_hash(token@),
        h@.len() == 64,
{
    let digest = sha256(token.as_bytes());
    lower_hex_string(digest.as_slice())
}

/// The lowercase hexadecimal text of some bytes, two digits per byte.
pub fn lower_hex_string(digest: &[u8]) -> (h: String)
    ensures
        h@ == lower_hex(digest@),
        h@.len() == 2 * digest@.len(),
{
    let mut out: Vec<char> = Vec::new();
    let mut i: usize = 0;
    while i < digest.len()
        invariant
            i <= digest@.len(),
            out@ == lower_hex(digest@.subrange(0, i as int)),
            out@.len() == 2 * i,
        decreases digest@.len() - i,
    {
        let b = digest[i];
        out.push(hex_digit_exec(b / 16));
        out.push(hex_digit_exec(b % 16));
        assert(digest@.subrange(0, i + 1).drop_last() =~= digest@.subrange(0, i as int));
        i = i + 1;
    }
    assert(digest@.subrange(0, digest@.len() as int) =~= digest@);
    string_from_chars(out.as_slice())
}

/// `"{prefix}-"` followed by 32 random ASCII letters and digits.
pub open spec fn is_token_for(prefix: Seq<char>, t: Seq<char>) -> bool {
    &&& t.len() == prefix.len() + 33
    &&& t.subrange(0, prefix.len() as int) == prefix
    &&& t[prefix.len() as int] == '-'
    &&& forall|i: int| prefix.len() + 1 <= i < t.len() ==> is_ascii_alphanumeric(#[trigger] t[i])
}

/// A token: the prefix, a `-`, then the drawn random part.
pub fn token_from(prefix: &str, random_part: &str) -> (t: String)
    ensures
        t@ == prefix@ + "-"@ + random_part@,
{
    let r = chars_of(random_part);
    let p = chars_of(prefix);
    let mut out: Vec<char> = Vec::new();
    push_chars(&mut out, p.as_slice());
    push_str(&mut out, "-");
    push_chars(&mut out, r.as_slice());
    string_from_chars(out.as_slice())
}

/// Generate a random token with the given prefix.
pub fn generate_random_token(prefix: &str) -> (t: String)
    ensures
        is_token_for(prefix@, t@),
{
    let random_part = random_alphanumeric(32);
    let t = token_from(prefix, random_part.as_str());
    proof {
        reveal_strlit("-");
        assert(t@.subrange(0, prefix@.len() as int) =~= prefix@);
        assert forall|i: int| prefix@.len() + 1 <= i < t@.len() implies is_ascii_alphanumeric(
            #[trigger] t@[i],
        ) by {
            assert(t@[i] == random_part@[i - prefix@.len() - 1]);
        }
    }
    t
}

/// The character for a 6-bit value in the URL-safe base64 alphabet
/// (`A-Z a-z 0-9 - _`).
pub open spec fn b64_char(v: int) -> char {
    if v < 26 {
        (65 + v) as char
    } else if v < 52 {
        (97 + v - 26) as char
    } else if v < 62 {
        (48 + v - 52) as char
    } else if v == 62 {
        '-'
    } else {
        '_'
    }
}

/// The four base64 characters of a 24-bit group `n`, most significant
/// six bits first.
#[verifier::opaque]
pub open spec fn b64_digits(n: int) -> Seq<char> {
    seq![b64_char(n / 262144), b64_char((n / 4096) % 64), b64_char((n / 64) % 64), b64_char(n % 64)]
}

/// URL-safe base64 without padding: each 3 bytes give 4 characters, a
/// final 2 bytes give 3 and a final byte gives 2.
#[verifier::opaque]
pub open spec fn base64url_text(b: Seq<u8>) -> Seq<char>
    decreases b.len(),
{
    if b.len() >= 3 {
        b64_digits(b[0] * 65536 + b[1] * 256 + b[2]) + base64url_text(b.subrange(3, b.len() as int))
    } else if b.len() == 2 {
        b64_digits(b[0] * 65536 + b[1] * 256).take(3)
    } else if b.len() == 1 {
        b64_digits(b[0] * 65536).take(2)
    } else {
        seq![]
    }
}

/// `4n/3` characters, rounded up, for `n` bytes.
pub proof fn lemma_base64url_len(b: Seq<u8>)
    ensures
        base64url_text(b).len() == (4 * b.len() + 2) / 3,
    decreases b.len(),
{
    reveal(base64url_text);
    reveal(b64_digits);
    if b.len() >= 3 {
        lemma_base64url_len(b.subrange(3, b.len() as int));
    }
}

/// One step of the encoding from byte `i` on: a full group, then the rest.
pub proof fn lemma_base64url_step(b: Seq<u8>, i: int)
    requires
        0 <= i,
        i + 3 <= b.len(),
    ensures
        base64url_text(b.subrange(i, b.len() as int)) == b64_digits(
            b[i] * 65536 + b[i + 1] * 256 + b[i + 2],
        ) + base64url_text(b.subrange(i + 3, b.len() as int)),
{
    reveal(base64url_text);
    let rest = b.subrange(i, b.len() as int);
    assert(rest.subrange(3, rest.len() as int) =~= b.subrange(i + 3, b.len() as int));
    assert(rest[0] == b[i] && rest[1] == b[i + 1] && rest[2] == b[i + 2]);
}

/// The end of the encoding: fewer than three bytes from `i` on.
pub proof fn lemma_base64url_tail(b: Seq<u8>, i: int)
    requires
        0 <= i <= b.len() < i + 3,
    ensures
        b.len() == i + 2 ==> base64url_text(b.subrange(i, b.len() as int)) == b64_digits(
            b[i] * 65536 + b[i + 1] * 256,
        ).take(3),
        b.len() == i + 1 ==> base64url_text(b.subrange(i, b.len() as int)) == b64_digits(
            b[i] * 65536,
        ).take(2),
        b.len() == i ==> base64url_text(b.subrange(i, b.len() as int)) == Seq::<char>::empty(),
{
    reveal(base64url_text);
    let rest = b.subrange(i, b.len() as int);
    if b.len() > i {
        assert(rest[0] == b[i]);
    }
    if b.len() > i + 1 {
        assert(rest[1] == b[i + 1]);
    }
}

fn b64_char_exec(v: u32) -> (c: char)
    requires
        v < 64,
    ensures
        c == b64_char(v as int),
{
    if v < 26 {
        ((65 + v) as u8) as char
    } else if v < 52 {
        ((97 + v - 26) as u8) as char
    } else if v < 62 {
        ((48 + v - 52) as u8) as char
    } else if v == 62 {
        '-'
    } else {
        '_'
    }
}

/// Appends the first `k` characters of `b64_digits(n)`.
fn push_b64_digits(out: &mut Vec<char>, n: u32, k: usize)
    requires
        n < 16777216,
        2 <= k <= 4,
    ensures
        final(out)@ == old(out)@ + b64_digits(n as int).take(k as int),
{
    reveal(b64_digits);
    let ghost start = out@;
    out.push(b64_char_exec(n / 262144));
    out.push(b64_char_exec((n / 4096) % 64));
    if k >= 3 {
        out.push(b64_char_exec((n / 64) % 64));
    }
    if k >= 4 {
        out.push(b64_char_exec(n % 64));
    }
    assert(out@ =~= start + b64_digits(n as int).take(k as int));
}

/// Encodes bytes as URL-safe base64 without padding.
pub fn base64url(data: &[u8]) -> (s: String)
    ensures
        s@ == base64url_text(data@),
{
    let mut out: Vec<char> = Vec::new();
    let len = data.len();
    let mut i: usize = 0;
    assert(data@.subrange(0, len as int) =~= data@);
    assert(out@ + base64url_text(data@) =~= base64url_text(data@));
    while len - i >= 3
        invariant
            i <= len == data@.len(),
            out@ + base64url_text(data@.subrange(i as int, len as int)) == base64url_text(data@),
        decreases len - i,
    {
        let n: u32 = (data[i] as u32) * 65536 + (data[i + 1] as u32) * 256 + data[i + 2] as u32;
        let ghost before = out@;
        proof {
            lemma_base64url_step(data@, i as int);
            reveal(b64_digits);
            assert(b64_digits(n as int).take(4) =~= b64_digits(n as int));
        }
        push_b64_digits(&mut out, n, 4);
        assert(out@ + base64url_text(data@.subrange(i + 3, len as int)) =~= before
            + base64url_text(data@.subrange(i as int, len as int)));
        i = i + 3;
    }
    proof {
        lemma_base64url_tail(data@, i as int);
    }
    let ghost before = out@;
    if len - i == 2 {
        let n: u32 = (data[i] as u32) * 65536 + (data[i + 1] as u32) * 256;
        push_b64_digits(&mut out, n, 3);
    } else if len - i == 1 {
        let n: u32 = (data[i] as u32) * 65536;
        push_b64_digits(&mut out, n, 2);
    }
    assert(out@ =~= before + base64url_text(data@.subrange(i as int, len as int)));
    string_from_chars(out.as_slice())
}

/// Fills `n` bytes from the thread-local generator
/// (`rand::RngCore::fill_bytes` on `rand::thread_rng()`). The bytes are
/// random; the contract states only how many there are.
#[verifier::external_body]
fn random_bytes(n: usize) -> (b: Vec<u8>)
    ensures
        b@.len() == n,
{
    let mut b = vec![0u8; n];
    rand::RngCore::fill_bytes(&mut rand::thread_rng(), &mut b);
    b
}

/// An API key: `rover-key-` followed by 32 bytes in URL-safe base64.
pub open spec fn is_api_key(k: Seq<char>) -> bool {
    exists|b: Seq<u8>| b.len() == 32 && k == "rover-key-"@ + #[trigger] base64url_text(b)
}

/// The API key for a drawn 32-byte value.
pub fn api_key_from(random: &[u8]) -> (k: String)
    ensures
        k@ == "rover-key-"@ + base64url_text(random@),
{
    let enc = base64url(random);
    let k = token_from("rover-key", enc.as_str());
    proof {
        reveal_strlit("rover-key-");
        reveal_strlit("rover-key");
        reveal_strlit("-");
        assert("rover-key"@ + "-"@ =~= "rover-key-"@);
        assert(k@ =~= "rover-key-"@ + base64url_text(random@));
    }
    k
}

/// A fresh API key: 32 random bytes, URL-safe base64, after `rover-key-`
/// (53 characters in all).
pub fn generate_api_key() -> (k: String)
    ensures
        is_api_key(k@),
        k@.len() == 53,
{
    let bytes = random_bytes(32);
    let k = api_key_from(bytes.as_slice());
    proof {
        reveal_strlit("rover-key-");
        lemma_base64url_len(bytes@);
        assert(bytes@.len() == 32 && k@ == "rover-key-"@ + base64url_text(bytes@));
    }
    k
}

/// The pairing token to show: the stored one if there is one, otherwise a
/// fresh `rover-pair-...` token that must then be stored (`store_it`).
pub fn choose_pairing_token(existing: Option<String>) -> (r: (String, bool))
    ensures
        existing matches Some(t) ==> r.0 == t && !r.1,
        existing is None ==> r.1 && is_token_for("rover-pair"@, r.0@),
{
    match existing {
        Some(t) => (t, false),
        None => (generate_random_token("rover-pair"), true),
    }
}

/// What a successful pairing hands out: the API key for the client, and the
/// hash under which the server stores it. The pairing token is consumed.
pub struct PairGrant {
    pub api_key: String,
    pub key_hash: String,
}

/// The contract of a successful pairing: a fresh `rover-key-...` key and
/// its stored hash.
pub open spec fn is_grant(g: PairGrant) -> bool {
    &&& is_api_key(g.api_key@)
    &&& g.key_hash@ == token_hash(g.api_key@)
}

/// Checks a pairing token against the stored one. On a match, a new API key
/// is minted; on a mismatch, or when no token is stored, pairing is refused
/// with `"invalid pairing token"`.
pub fn pair(stored: Option<String>, token: &str) -> (r: Result<PairGrant, String>)
    ensures
        (stored matches Some(t) && t@ == token@) ==> (r matches Ok(g) && is_grant(g)),
        !(stored matches Some(t) && t@ == token@) ==> (r matches Err(e) && e@
            == "invalid pairing token"@),
{
    match stored {
        Some(t) => {
            let a = chars_of(t.as_str());
            let b = chars_of(token);
            if crate::text::chars_eq(a.as_slice(), b.as_slice()) {
                let api_key = generate_api_key();
                let key_hash = hash_token(api_key.as_str());
                Ok(PairGrant { api_key, key_hash })
            } else {
                Err(crate::text::owned("invalid pairing token"))
            }
        },
        None => Err(crate::text::owned("invalid pairing token")),
    }
}

/// The authentication data the server keeps: the pending pairing token and
/// the hashes of the API keys handed out.
pub struct AuthRecords {
    pub pairing_token: Option<Seq<char>>,
    pub key_hashes: Seq<Seq<char>>,
}

/// The records after a successful pairing: token consumed, key hash kept.
pub open spec fn after_pairing(a: AuthRecords, g: PairGrant) -> AuthRecords {
    AuthRecords { pairing_token: None, key_hashes: a.key_hashes.push(g.key_hash@) }
}

/// Whether an API key is accepted: its hash is among the stored ones.
pub open spec fn key_accepted(a: AuthRecords, key: Seq<char>) -> bool {
    a.key_hashes.contains(token_hash(key))
}

/// Pairing is one-time: the API key it hands out is then accepted, keys
/// accepted before stay accepted, and the same pairing token is refused
/// afterwards.
pub proof fn law_pairing_is_one_time(a: AuthRecords, g: PairGrant, other: Seq<char>)
    requires
        is_grant(g),
    ensures
        key_accepted(after_pairing(a, g), g.api_key@),
        key_accepted(a, other) ==> key_accepted(after_pairing(a, g), other),
        after_pairing(a, g).pairing_token is None,
{
    vstd::seq_lib::lemma_seq_contains_after_push(a.key_hashes, g.key_hash@, g.key_hash@);
    vstd::seq_lib::lemma_seq_contains_after_push(a.key_hashes, g.key_hash@, token_hash(other));
}

/// The pairing token and the API key hashes the server keeps, as plain
/// values; the server's store saves them.
pub struct AuthManager {
    pub pairing_token: Option<String>,
    pub key_hashes: Vec<String>,
}

impl View for AuthManager {
    type V = AuthRecords;

    open spec fn view(&self) -> AuthRecords {
        AuthRecords {
            pairing_token: match self.pairing_token {
                Some(t) => Some(t@),
                None => None,
            },
            key_hashes: self.key_hashes@.map_values(|h: String| h@),
        }
    }
}

impl AuthManager {
    /// No pairing token and no API keys.
    pub fn new() -> (r: Self)
        ensures
            r@.pairing_token is None,
            r@.key_hashes == Seq::<Seq<char>>::empty(),
    {
        let r = AuthManager { pairing_token: None, key_hashes: Vec::new() };
        assert(r@.key_hashes =~= Seq::<Seq<char>>::empty());
        r
    }

    /// Returns the pairing token, making and keeping a fresh `rover-pair-...`
    /// one when there is none.
    pub fn ensure_pairing_token(&mut self) -> (t: String)
        ensures
            old(self)@.pairing_token matches Some(p) ==> t@ == p && final(self)@ == old(self)@,
            old(self)@.pairing_token is None ==> is_token_for("rover-pair"@, t@) && final(self)@
                == (AuthRecords { pairing_token: Some(t@), ..old(self)@ }),
    {
        match &self.pairing_token {
            Some(t) => t.clone(),
            None => {
                let t = generate_random_token("rover-pair");
                self.pairing_token = Some(t.clone());
                t
            },
        }
    }

    /// Pairs with a pairing token: when it is the kept one, it is consumed
    /// and a fresh `rover-key-...` API key is handed out and accepted from
    /// then on; otherwise pairing is refused and nothing changes.
    pub fn pair(&mut self, token: &str) -> (r: Result<String, String>)
        ensures
            (old(self)@.pairing_token matches Some(p) && p == token@) ==> (r matches Ok(k) && {
                &&& is_api_key(k@)
                &&& final(self)@ == (AuthRecords {
                    pairing_token: None,
                    key_hashes: old(self)@.key_hashes.push(token_hash(k@)),
                })
            }),
            !(old(self)@.pairing_token matches Some(p) && p == token@) ==> (r matches Err(e) && e@
                == "invalid pairing token"@ && final(self)@ == old(self)@),
    {
        let stored = match &self.pairing_token {
            Some(t) => Some(t.clone()),
            None => None,
        };
        match pair(stored, token) {
            Ok(g) => {
                self.pairing_token = None;
                let ghost before = self.key_hashes@;
                self.key_hashes.push(g.key_hash);
                assert(self.key_hashes@.map_values(|h: String| h@) =~= before.map_values(
                    |h: String| h@,
                ).push(g.key_hash@));
                Ok(g.api_key)
            },
            Err(e) => Err(e),
        }
    }

    /// Whether an API key is accepted: its hash is among the kept ones.
    pub fn verify_api_key(&self, key: &str) -> (b: bool)
        ensures
            b == key_accepted(self@, key@),
    {
        let h = hash_token(key);
        let ghost m = self.key_hashes@.map_values(|x: String| x@);
        let mut i: usize = 0;
        while i < self.key_hashes.len()
            invariant
                i <= self.key_hashes@.len(),
                m == self.key_hashes@.map_values(|x: String| x@),
                h@ == token_hash(key@),
                forall|k: int| 0 <= k < i ==> m[k] != h@,
            decreases self.key_hashes@.len() - i,
        {
            if self.key_hashes[i] == h {
                assert(m[i as int] == h@);
                assert(m.contains(h@));
                return true;
            }
            i = i + 1;
        }
        assert(!m.contains(h@)) by {
            if m.contains(h@) {
                let k = choose|k: int| 0 <= k < m.len() && m[k] == h@;
                assert(m[k] != h@);
            }
        }
        false
    }
}

} // verus!
