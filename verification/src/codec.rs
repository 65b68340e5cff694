//! Encodings used by the wallet: hexadecimal text and UUIDs.
use vstd::prelude::*;

verus! {

/// Lower-case hexadecimal digit of a value below 16.
pub open spec fn hex_digit(n: nat) -> char {
    if n < 10 {
        ((('0' as u32) as nat) + n) as char
    } else {
        ((('a' as u32) as nat) + n - 10) as char
    }
}

/// The `width` lowest hexadecimal digits of `v`, most significant first.
pub open spec fn hex_lower(v: nat, width: nat) -> Seq<char>
    decreases width,
{
    if width == 0 {
        seq![]
    } else {
        hex_lower(v / 16, (width - 1) as nat).push(hex_digit(v % 16))
    }
}

/// Two lower-case hexadecimal digits per byte, in order.
pub open spec fn hex_bytes(b: Seq<u8>) -> Seq<char>
    decreases b.len(),
{
    if b.len() == 0 {
        seq![]
    } else {
        hex_bytes(b.drop_last()) + hex_lower(b.last() as nat, 2)
    }
}

/// The hyphenated lower-case text of a UUID: 8-4-4-4-12 hexadecimal digits.
pub open spec fn uuid_hyphenated_text(v: u128) -> Seq<char> {
    let h = hex_lower(v as nat, 32);
    h.subrange(0, 8) + seq!['-'] + h.subrange(8, 12) + seq!['-'] + h.subrange(12, 16) + seq!['-']
        + h.subrange(16, 20) + seq!['-'] + h.subrange(20, 32)
}

/// What `uuid::Uuid::parse_str` gives for a text, as a 128-bit value (`None` on a parse error).
pub uninterp spec fn uuid_parse(s: Seq<char>) -> Option<u128>;

/// `uuid::Uuid::parse_str`, with the result taken as its 128-bit big-endian value.
/// The contract names the result; nothing about which texts are accepted is claimed.
#[verifier::external_body]
pub(crate) fn uuid_parse_str(s: &str) -> (r: Option<u128>)
    ensures
        r == uuid_parse(s@),
{
    match uuid::Uuid::parse_str(s) {
        Ok(u) => Some(u.as_u128()),
        Err(_) => None,
    }
}

/// `Display` of `uuid::Uuid` (its hyphenated lower-case form). The contract claims the
/// documented text layout, and that `Uuid::parse_str` reads the text back to the same value.
#[verifier::external_body]
pub(crate) fn uuid_hyphenated(v: u128) -> (r: String)
    ensures
        r@ == uuid_hyphenated_text(v),
        uuid_parse(r@) == Some(v),
{
    uuid::Uuid::from_u128(v).to_string()
}

/// `uuid::Uuid::new_v4`, taken as its 128-bit value. The result is random; the contract claims
/// only the version (4) and variant (RFC 4122) bits that the crate sets on every outcome.
#[verifier::external_body]
pub(crate) fn uuid_v4_random() -> (r: u128)
    ensures
        (r >> 76u128) & 0xfu128 == 4,
        (r >> 62u128) & 0x3u128 == 2,
{
    uuid::Uuid::new_v4().as_u128()
}

/// The lower-case hexadecimal digit of `n`.
pub fn hex_digit_exec(n: u8) -> (c: char)
    requires
        n < 16,
    ensures
        c == hex_digit(n as nat),
{
    if n < 10 {
        let code: u8 = 48 + n;
        code as char
    } else {
        let code: u8 = 97 + n - 10;
        code as char
    }
}

/// Two lower-case hexadecimal digits per byte.
pub fn hex_encode(bytes: &Vec<u8>) -> (r: Vec<char>)
    ensures
        r@ == hex_bytes(bytes@),
{
    let mut r: Vec<char> = Vec::new();
    for i in 0..bytes.len()
        invariant
            r@ == hex_bytes(bytes@.subrange(0, i as int)),
    {
        let b = bytes[i];
        let hi = hex_digit_exec(b / 16);
        let lo = hex_digit_exec(b % 16);
        r.push(hi);
        r.push(lo);
        proof {
            let s = bytes@.subrange(0, i + 1);
            assert(s.drop_last() =~= bytes@.subrange(0, i as int));
            assert(s.last() == b);
            let two = hex_lower(b as nat, 2);
            let q = (b as nat) / 16;
            assert(hex_lower(q / 16, 0) =~= Seq::<char>::empty());
            assert(hex_lower(q, 1) == hex_lower(q / 16, 0).push(hex_digit(q % 16)));
            assert(hex_lower(q, 1) =~= seq![hex_digit(q % 16)]);
            assert(two == hex_lower(q, 1).push(hex_digit((b as nat) % 16)));
            assert(((b as nat) / 16) % 16 == (b / 16) as nat);
            assert(two =~= seq![hi, lo]);
            assert(r@ =~= hex_bytes(s));
        }
    }
    assert(bytes@.subrange(0, bytes@.len() as int) =~= bytes@);
    r
}

/// SHA-256 digest of a byte sequence.
pub uninterp spec fn sha256_digest(data: Seq<u8>) -> Seq<u8>;

/// `sha2::Sha256::digest`: the contract names the digest and claims its documented length.
#[verifier::external_body]
pub(crate) fn sha256(data: &[u8]) -> (r: Vec<u8>)
    ensures
        r@ == sha256_digest(data@),
        r@.len() == 32,
{
    <sha2::Sha256 as sha2::Digest>::digest(data).to_vec()
}

/// HMAC-SHA256 tag of a message under a key.
pub uninterp spec fn hmac_sha256_tag(key: Seq<u8>, msg: Seq<u8>) -> Seq<u8>;

/// `hmac::Hmac<sha2::Sha256>`: keyed with `key` (any length is accepted), fed `msg`, finalized.
/// The contract names the tag and claims its documented length.
#[verifier::external_body]
pub(crate) fn hmac_sha256(key: &[u8], msg: &[u8]) -> (r: Vec<u8>)
    ensures
        r@ == hmac_sha256_tag(key@, msg@),
        r@.len() == 32,
{
    match <hmac::Hmac<sha2::Sha256> as hmac::Mac>::new_from_slice(key) {
        Ok(mut mac) => {
            hmac::Mac::update(&mut mac, msg);
            hmac::Mac::finalize(mac).into_bytes().to_vec()
        },
        Err(_) => Vec::new(),
    }
}

/// The character of a 6-bit value in the URL-safe base64 alphabet (RFC 4648, section 5):
/// `A`–`Z`, `a`–`z`, `0`–`9`, `-`, `_`.
pub open spec fn base64_url_char(v: int) -> char {
    if v < 26 {
        (65 + v) as char
    } else if v < 52 {
        (97 + (v - 26)) as char
    } else if v < 62 {
        (48 + (v - 52)) as char
    } else if v == 62 {
        '-'
    } else {
        '_'
    }
}

/// URL-safe base64 text of bytes, without padding: each group of three bytes gives four
/// characters of six bits each; a final group of one or two bytes gives two or three
/// characters, its missing low bits zero.
pub open spec fn base64_url_nopad_text(data: Seq<u8>) -> Seq<char>
    decreases data.len(),
{
    if data.len() == 0 {
        seq![]
    } else if data.len() == 1 {
        let a = data[0] as int;
        seq![base64_url_char(a / 4), base64_url_char((a % 4) * 16)]
    } else if data.len() == 2 {
        let a = data[0] as int;
        let b = data[1] as int;
        seq![base64_url_char(a / 4), base64_url_char((a % 4) * 16 + b / 16), base64_url_char((b % 16) * 4)]
    } else {
        let a = data[0] as int;
        let b = data[1] as int;
        let c = data[2] as int;
        seq![
            base64_url_char(a / 4),
            base64_url_char((a % 4) * 16 + b / 16),
            base64_url_char((b % 16) * 4 + c / 64),
            base64_url_char(c % 64),
        ] + base64_url_nopad_text(data.subrange(3, data.len() as int))
    }
}

/// `base64::engine::general_purpose::URL_SAFE_NO_PAD.encode`: the URL-safe base64 text of
/// the bytes, without padding.
#[verifier::external_body]
pub(crate) fn base64_url_nopad(data: &[u8]) -> (r: String)
    ensures
        r@ == base64_url_nopad_text(data@),
{
    base64::Engine::encode(&base64::engine::general_purpose::URL_SAFE_NO_PAD, data)
}

/// The value of a hexadecimal digit byte (either case).
pub open spec fn hex_digit_value(b: u8) -> Option<nat> {
    if 48 <= b <= 57 {
        Some((b - 48) as nat)
    } else if 97 <= b <= 102 {
        Some((b - 87) as nat)
    } else if 65 <= b <= 70 {
        Some((b - 55) as nat)
    } else {
        None
    }
}

/// Percent-decoding of bytes: `%` followed by two hexadecimal digits is the byte they denote;
/// every other byte, a lone `%` included, stands for itself.
pub open spec fn percent_decode_bytes(b: Seq<u8>) -> Seq<u8>
    decreases b.len(),
{
    if b.len() == 0 {
        seq![]
    } else if b[0] == 37 && b.len() >= 3 && hex_digit_value(b[1]) is Some && hex_digit_value(
        b[2],
    ) is Some {
        seq![(hex_digit_value(b[1])->0 * 16 + hex_digit_value(b[2])->0) as u8]
            + percent_decode_bytes(b.subrange(3, b.len() as int))
    } else {
        seq![b[0]] + percent_decode_bytes(b.drop_first())
    }
}

/// Percent-decoding of the UTF-8 bytes of a text, read back as UTF-8 (`None` when the decoded
/// bytes are not valid UTF-8).
pub open spec fn percent_decode_text(s: Seq<char>) -> Option<Seq<char>> {
    let bytes = percent_decode_bytes(vstd::utf8::encode_utf8(s));
    if vstd::utf8::valid_utf8(bytes) {
        Some(vstd::utf8::decode_utf8(bytes))
    } else {
        None
    }
}

/// `percent_encoding::percent_decode_str(s).decode_utf8()`. The contract states the decoding
/// that the crate documents and implements (`after_percent_sign`, then `str::from_utf8`).
#[verifier::external_body]
pub(crate) fn percent_decode_utf8(s: &str) -> (r: Option<String>)
    ensures
        match percent_decode_text(s@) {
            Some(t) => r matches Some(rs) && rs@ == t,
            None => r is None,
        },
{
    match percent_encoding::percent_decode_str(s).decode_utf8() {
        Ok(cow) => Some(cow.into_owned()),
        Err(_) => None,
    }
}

/// Seconds since the Unix epoch of an RFC 3339 timestamp text (`None` when it does not parse).
pub uninterp spec fn rfc3339_seconds(s: Seq<char>) -> Option<i64>;

/// `chrono::DateTime::parse_from_rfc3339(ts)` converted to UTC, as its Unix timestamp.
/// The contract names the result and claims chrono's supported range of dates
/// (years within ±262143, well inside ±10^13 seconds).
#[verifier::external_body]
pub(crate) fn parse_rfc3339_seconds(ts: &str) -> (r: Option<i64>)
    ensures
        r == rfc3339_seconds(ts@),
        r matches Some(t) ==> -10_000_000_000_000 <= t <= 10_000_000_000_000,
{
    match chrono::DateTime::parse_from_rfc3339(ts) {
        Ok(dt) => Some(dt.with_timezone(&chrono::Utc).timestamp()),
        Err(_) => None,
    }
}

} // verus!
