use vstd::prelude::*;
use crate::error::SessionError;
use crate::text::{chars_of, dec_of, push_decimal, push_str, string_of};
use rsa::PublicKey;

verus! {

/// The lowercase hexadecimal digit for a value below sixteen.
pub open spec fn hex_digit(v: u8) -> char {
    if v < 10 {
        (('0' as u8) + v) as char
    } else {
        (('a' as u8) + (v - 10)) as char
    }
}

/// Two lowercase hexadecimal digits for each byte, most significant first.
pub open spec fn hex_of(b: Seq<u8>) -> Seq<char>
    decreases b.len(),
{
    if b.len() == 0 {
        Seq::empty()
    } else {
        hex_of(b.drop_last()) + seq![hex_digit(b.last() / 16), hex_digit(b.last() % 16)]
    }
}

fn hex_char(v: u8) -> (c: char)
    requires
        v < 16,
    ensures
        c == hex_digit(v),
{
    if v < 10 {
        (('0' as u8) + v) as char
    } else {
        (('a' as u8) + (v - 10)) as char
    }
}

/// Renders each byte as two lowercase hexadecimal digits.
pub fn to_hex(bytes: &Vec<u8>) -> (r: String)
    ensures
        r@ == hex_of(bytes@),
{
    let mut out: Vec<char> = Vec::new();
    let mut i: usize = 0;
    while i < bytes.len()
        invariant
            i <= bytes.len(),
            out@ == hex_of(bytes@.take(i as int)),
        decreases bytes.len() - i,
    {
        let b = bytes[i];
        out.push(hex_char(b / 16));
        out.push(hex_char(b % 16));
        assert(bytes@.take(i as int + 1).drop_last() == bytes@.take(i as int));
        i = i + 1;
    }
    assert(bytes@.take(bytes.len() as int) == bytes@);
    string_of(&out)
}

/// The text that is encrypted for a refresh timestamp: `refresh_` and the decimal timestamp.
pub open spec fn plaintext_of(timestamp: nat) -> Seq<char> {
    "refresh_"@ + dec_of(timestamp)
}

/// Builds the plaintext `refresh_<timestamp>`.
pub fn refresh_plaintext(timestamp: u128) -> (r: String)
    ensures
        r@ == plaintext_of(timestamp as nat),
{
    let mut out: Vec<char> = Vec::new();
    push_str(&mut out, "refresh_");
    push_decimal(&mut out, timestamp);
    string_of(&out)
}

} // verus!

verus! {

/// Modulus of the public key that encrypts refresh timestamps (base64url, no padding).
pub const KEY_MODULUS: &'static str = "y4HdjgJHBlbaBN04VERG4qNBIFHP6a3GozCl75AihQloSWCXC5HDNgyinEnhaQ_4-gaMud_GF50elYXLlCToR9se9Z8z433U3KjM-3Yx7ptKkmQNAMggQwAVKgq3zYAoidNEWuxpkY_mAitTSRLnsJW-NCTa0bqBFF6Wm1MxgfE";

/// Public exponent of that key (base64url, no padding).
pub const KEY_EXPONENT: &'static str = "AQAB";

/// Smallest public exponent that rsa accepts.
pub const MIN_EXPONENT: u64 = 2;

/// Largest public exponent that rsa accepts (2^33 - 1).
pub const MAX_EXPONENT: u64 = 8589934591;

/// Largest modulus that rsa accepts, in bytes (4096 bits).
pub const MAX_MODULUS_BYTES: usize = 512;

/// Smallest modulus, in bytes, that holds the longest plaintext (47 bytes) under OAEP with
/// SHA-256, which adds 66 bytes.
pub const MIN_MODULUS_BYTES: usize = 113;

/// What OAEP with SHA-256 adds to a message, in bytes.
pub const OAEP_OVERHEAD: usize = 66;

#[verifier::external_type_specification]
#[verifier::external_body]
pub struct ExRsaError(rsa::errors::Error);

/// What `base64::decode_config` with the URL-safe, unpadded alphabet gives for a text.
pub uninterp spec fn b64url_decoded(s: Seq<char>) -> Option<Seq<u8>>;

/// Relies on `base64::decode_config(_, URL_SAFE_NO_PAD)`: the decoded bytes, or `None`
/// where the text is not valid base64url; the result depends on the text alone.
#[verifier::external_body]
fn decode_b64url(s: &str) -> (r: Option<Vec<u8>>)
    ensures
        match r {
            Some(v) => b64url_decoded(s@) == Some(v@),
            None => b64url_decoded(s@).is_none(),
        },
{
    base64::decode_config(s, base64::URL_SAFE_NO_PAD).ok()
}

/// The length in bytes of a big-endian number, leading zero bytes left out.
pub open spec fn modulus_len(n: Seq<u8>) -> nat
    decreases n.len(),
{
    if n.len() == 0 {
        0
    } else if n[0] == 0 {
        modulus_len(n.drop_first())
    } else {
        n.len()
    }
}

/// The value of big-endian bytes.
pub open spec fn be_value(b: Seq<u8>) -> nat
    decreases b.len(),
{
    if b.len() == 0 {
        0
    } else {
        be_value(b.drop_last()) * 256 + b.last() as nat
    }
}

/// A modulus and exponent that `rsa::RsaPublicKey::new` accepts: a modulus of at most
/// 4096 bits and an exponent from 2 to 2^33 - 1.
pub open spec fn rsa_key_accepted(n: Seq<u8>, e: Seq<u8>) -> bool {
    &&& modulus_len(n) <= MAX_MODULUS_BYTES
    &&& MIN_EXPONENT <= be_value(e) <= MAX_EXPONENT
}

/// A key that rsa accepts and that is large enough for every refresh plaintext.
pub open spec fn key_usable(n: Seq<u8>, e: Seq<u8>) -> bool {
    rsa_key_accepted(n, e) && modulus_len(n) >= MIN_MODULUS_BYTES
}

/// The configured modulus and exponent decode and form a usable key.
pub open spec fn key_config_ok() -> bool {
    &&& b64url_decoded(KEY_MODULUS@) is Some
    &&& b64url_decoded(KEY_EXPONENT@) is Some
    &&& key_usable(b64url_decoded(KEY_MODULUS@)->Some_0, b64url_decoded(KEY_EXPONENT@)->Some_0)
}

/// The length in bytes of the configured modulus.
pub open spec fn key_len() -> nat {
    modulus_len(b64url_decoded(KEY_MODULUS@)->Some_0)
}

/// Relies on `rsa::RsaPublicKey::new` over big-endian modulus and exponent bytes and on
/// `rsa::PublicKey::encrypt` with OAEP padding, SHA-256 as hash and mask hash, and fresh
/// randomness from `rand::thread_rng`. The key is refused exactly as `rsa_key_accepted`
/// says; OAEP then fails only for a message longer than the modulus length less 66 bytes,
/// and a ciphertext is always as long as the modulus. The padding is random, so nothing
/// ties two ciphertexts to each other.
#[verifier::external_body]
fn encrypt_oaep_sha256(n: &Vec<u8>, e: &Vec<u8>, msg: &Vec<u8>) -> (r: Result<Vec<u8>, rsa::errors::Error>)
    ensures
        r is Ok ==> rsa_key_accepted(n@, e@) && r->Ok_0@.len() == modulus_len(n@),
        rsa_key_accepted(n@, e@) && msg@.len() + OAEP_OVERHEAD <= modulus_len(n@) ==> r is Ok,
{
    let key = rsa::RsaPublicKey::new(rsa::BigUint::from_bytes_be(n), rsa::BigUint::from_bytes_be(e))?;
    let mut rng = rand::thread_rng();
    key.encrypt(&mut rng, rsa::PaddingScheme::new_oaep::<sha2::Sha256>(), msg.as_slice())
}

fn significant_len(b: &Vec<u8>) -> (r: usize)
    ensures
        r == modulus_len(b@),
{
    let mut i: usize = 0;
    assert(b@.subrange(0, b.len() as int) == b@);
    while i < b.len() && b[i] == 0
        invariant
            i <= b.len(),
            modulus_len(b@) == modulus_len(b@.subrange(i as int, b.len() as int)),
        decreases b.len() - i,
    {
        assert(b@.subrange(i as int, b.len() as int).drop_first() == b@.subrange(
            i + 1,
            b.len() as int,
        ));
        i = i + 1;
    }
    b.len() - i
}

proof fn lemma_be_prefix(s: Seq<u8>, i: int)
    requires
        0 <= i <= s.len(),
    ensures
        be_value(s.take(i)) <= be_value(s),
    decreases s.len() - i,
{
    if i < s.len() {
        lemma_be_prefix(s, i + 1);
        assert(s.take(i + 1).drop_last() == s.take(i));
    } else {
        assert(s.take(i) == s);
    }
}

fn exponent_in_range(e: &Vec<u8>) -> (r: bool)
    ensures
        r == (MIN_EXPONENT <= be_value(e@) <= MAX_EXPONENT),
{
    let mut v: u64 = 0;
    let mut i: usize = 0;
    while i < e.len()
        invariant
            i <= e.len(),
            v == be_value(e@.take(i as int)),
            v <= MAX_EXPONENT,
        decreases e.len() - i,
    {
        assert(e@.take(i as int + 1).drop_last() == e@.take(i as int));
        let next: u64 = v * 256 + e[i] as u64;
        if next > MAX_EXPONENT {
            proof {
                lemma_be_prefix(e@, i as int + 1);
            }
            return false;
        }
        v = next;
        i = i + 1;
    }
    assert(e@.take(e.len() as int) == e@);
    v >= MIN_EXPONENT
}

/// Whether the modulus and exponent form a key that rsa accepts and that holds every
/// refresh plaintext.
pub fn usable_key(n: &Vec<u8>, e: &Vec<u8>) -> (r: bool)
    ensures
        r == key_usable(n@, e@),
{
    let len = significant_len(n);
    MIN_MODULUS_BYTES <= len && len <= MAX_MODULUS_BYTES && exponent_in_range(e)
}

/// Decodes the configured modulus and exponent, or `BadKey` where they do not decode or do
/// not form a usable key.
pub fn configured_key() -> (r: Result<(Vec<u8>, Vec<u8>), SessionError>)
    ensures
        r is Ok <==> key_config_ok(),
        match r {
            Ok((n, e)) => b64url_decoded(KEY_MODULUS@) == Some(n@) && b64url_decoded(
                KEY_EXPONENT@,
            ) == Some(e@),
            Err(err) => err == SessionError::BadKey,
        },
{
    let n = match decode_b64url(KEY_MODULUS) {
        Some(n) => n,
        None => return Err(SessionError::BadKey),
    };
    let e = match decode_b64url(KEY_EXPONENT) {
        Some(e) => e,
        None => return Err(SessionError::BadKey),
    };
    if usable_key(&n, &e) {
        Ok((n, e))
    } else {
        Err(SessionError::BadKey)
    }
}

/// `10` to the power `k`.
pub open spec fn pow10(k: nat) -> nat
    decreases k,
{
    if k == 0 {
        1
    } else {
        10 * pow10((k - 1) as nat)
    }
}

proof fn lemma_dec_len(n: nat, k: nat)
    requires
        k >= 1,
        n < pow10(k),
    ensures
        dec_of(n).len() <= k,
    decreases k,
{
    if n >= 10 {
        if k == 1 {
            assert(pow10(1) == 10) by {
                assert(pow10(0) == 1);
            }
        } else {
            let q = pow10((k - 1) as nat);
            assert(n / 10 < q) by (nonlinear_arith)
                requires
                    n < 10 * q,
            ;
            lemma_dec_len(n / 10, (k - 1) as nat);
        }
    }
}

/// The decimal numeral of a `u128` has at most 39 digits, so a refresh plaintext has at
/// most 47 characters.
proof fn lemma_plaintext_len(t: u128)
    ensures
        plaintext_of(t as nat).len() <= 47,
{
    reveal_strlit("refresh_");
    reveal_with_fuel(pow10, 40);
    assert(pow10(39) == 1000000000000000000000000000000000000000nat);
    lemma_dec_len(t as nat, 39);
}

/// The bytes of `refresh_<timestamp>` (all of its characters are ASCII).
pub open spec fn plaintext_bytes(timestamp: nat) -> Seq<u8> {
    plaintext_of(timestamp).map_values(|c: char| c as u8)
}

fn refresh_plaintext_bytes(timestamp: u128) -> (r: Vec<u8>)
    ensures
        r@ == plaintext_bytes(timestamp as nat),
        r@.len() <= 47,
{
    let cs = chars_of(refresh_plaintext(timestamp).as_str());
    let mut out: Vec<u8> = Vec::new();
    let mut i: usize = 0;
    while i < cs.len()
        invariant
            i <= cs.len(),
            cs@ == plaintext_of(timestamp as nat),
            out@ == cs@.take(i as int).map_values(|c: char| c as u8),
        decreases cs.len() - i,
    {
        out.push(cs[i] as u8);
        assert(cs@.take(i as int + 1).map_values(|c: char| c as u8) =~= out@);
        i = i + 1;
    }
    assert(cs@.take(cs.len() as int) == cs@);
    proof {
        lemma_plaintext_len(timestamp);
    }
    out
}

proof fn lemma_hex_len(b: Seq<u8>)
    ensures
        hex_of(b).len() == 2 * b.len(),
    decreases b.len(),
{
    if b.len() > 0 {
        lemma_hex_len(b.drop_last());
    }
}

/// The correspondence path for a ciphertext: its bytes in lowercase hexadecimal.
pub fn correspond_path_of(ciphertext: &Vec<u8>) -> (r: String)
    ensures
        r@ == hex_of(ciphertext@),
        r@.len() == 2 * ciphertext@.len(),
{
    proof {
        lemma_hex_len(ciphertext@);
    }
    to_hex(ciphertext)
}

/// Encrypts `refresh_<timestamp>` under the key with modulus `n` and exponent `e` and
/// renders the ciphertext in lowercase hexadecimal: two digits for each byte of a
/// ciphertext as long as the modulus. With a usable key this always succeeds; otherwise
/// the failure is a protocol error.
pub fn correspond_path_with(n: &Vec<u8>, e: &Vec<u8>, timestamp: u128) -> (r: Result<
    String,
    SessionError,
>)
    ensures
        key_usable(n@, e@) ==> r is Ok,
        match r {
            Ok(p) => p@.len() == 2 * modulus_len(n@) && exists|c: Seq<u8>|
                c.len() == modulus_len(n@) && p@ == #[trigger] hex_of(c),
            Err(err) => err == SessionError::ProtocolViolation,
        },
{
    let plain = refresh_plaintext_bytes(timestamp);
    match encrypt_oaep_sha256(n, e, &plain) {
        Ok(c) => Ok(correspond_path_of(&c)),
        Err(_) => Err(SessionError::ProtocolViolation),
    }
}

/// Encrypts `refresh_<timestamp>` under the configured key and renders the ciphertext
/// in lowercase hexadecimal. It fails, with `BadKey`, exactly when the configuration is
/// malformed. Randomised padding makes the result differ between calls; whatever the
/// ciphertext, the path is its hexadecimal form, twice as long as the modulus.
pub fn get_correspond_path(timestamp: u128) -> (r: Result<String, SessionError>)
    ensures
        r is Ok <==> key_config_ok(),
        match r {
            Ok(p) => p@.len() == 2 * key_len() && exists|c: Seq<u8>|
                c.len() == key_len() && p@ == #[trigger] hex_of(c),
            Err(err) => err == SessionError::BadKey,
        },
{
    let (n, e) = configured_key()?;
    correspond_path_with(&n, &e, timestamp)
}

} // verus!
