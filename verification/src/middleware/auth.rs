//! Passwords and tokens.
//!
//! A password is stored as `salt:mac`, both in hex: the salt is random, the
//! mac is the HMAC-SHA256 of the password under the salt as key.

use crate::handlers::StatusCode;
use crate::text::{characters, find_position, lemma_position_is_first, position, CharClass};
use hmac::Mac;
use rand::Rng;
use vstd::prelude::*;
use vstd::string::StringExecFns;
use vstd::utf8::encode_utf8;

verus! {

/// The lower-case hex digit of a number below 16.
pub open spec fn hex_digit(nibble: int) -> char {
    if nibble < 10 {
        ('0' as int + nibble) as char
    } else {
        ('a' as int + nibble - 10) as char
    }
}

/// Bytes in hex: two lower-case digits for each byte, the high one first.
pub open spec fn hex_text(data: Seq<u8>) -> Seq<char> {
    Seq::new(
        2 * data.len(),
        |i: int|
            if i % 2 == 0 {
                hex_digit(data[i / 2] as int / 16)
            } else {
                hex_digit(data[i / 2] as int % 16)
            },
    )
}

/// The number that a hex digit of either case stands for.
pub open spec fn hex_value(digit: char) -> Option<int> {
    if '0' <= digit <= '9' {
        Some(digit as int - '0' as int)
    } else if 'a' <= digit <= 'f' {
        Some(digit as int - 'a' as int + 10)
    } else if 'A' <= digit <= 'F' {
        Some(digit as int - 'A' as int + 10)
    } else {
        None
    }
}

/// The text is hex: digits only, and an even number of them.
pub open spec fn is_hex(text: Seq<char>) -> bool {
    &&& text.len() % 2 == 0
    &&& forall|i: int| 0 <= i < text.len() ==> hex_value(#[trigger] text[i]) is Some
}

/// The bytes that a hex text stands for.
pub open spec fn hex_data(text: Seq<char>) -> Seq<u8> {
    Seq::new(
        text.len() / 2,
        |i: int| (hex_value(text[2 * i])->0 * 16 + hex_value(text[2 * i + 1])->0) as u8,
    )
}

/// The HMAC-SHA256 of a message under a key, as the crates `hmac` and `sha2`
/// compute it.
pub uninterp spec fn hmac_sha256(key: Seq<u8>, message: Seq<u8>) -> Seq<u8>;

/// Calls `hex::encode`. Trusted: the result is the bytes in lower-case hex.
#[verifier::external_body]
fn hex_encode(data: &[u8]) -> (text: String)
    ensures
        text@ == hex_text(data@),
{
    hex::encode(data)
}

/// Calls `hex::decode`. Trusted: the result is `Some` exactly for a text of
/// an even number of hex digits, and then holds the bytes they stand for.
#[verifier::external_body]
fn hex_decode(text: &str) -> (data: Option<Vec<u8>>)
    ensures
        match data {
            Some(bytes) => is_hex(text@) && bytes@ == hex_data(text@),
            None => !is_hex(text@),
        },
{
    hex::decode(text).ok()
}

/// Calls `Hmac::<Sha256>::new_from_slice`, `update` and `finalize` of the
/// crate `hmac`. Trusted: a key of any length is accepted, and the result is
/// the HMAC-SHA256 of the message under the key.
#[verifier::external_body]
fn compute_hmac_sha256(key: &[u8], message: &[u8]) -> (mac: Option<Vec<u8>>)
    ensures
        match mac {
            Some(bytes) => bytes@ == hmac_sha256(key@, message@),
            None => false,
        },
{
    let mut mac = hmac::Hmac::<sha2::Sha256>::new_from_slice(key).ok()?;
    mac.update(message);
    Some(mac.finalize().into_bytes().to_vec())
}

/// Calls `rand::thread_rng().gen::<[u8; 32]>()`. Nothing is known of the
/// bytes that come back.
#[verifier::external_body]
fn random_salt() -> (salt: [u8; 32]) {
    rand::thread_rng().gen::<[u8; 32]>()
}

/// The salt and the mac that a stored password holds, or `None` where the
/// text is not of the form `salt:mac`, with one colon and both parts in hex.
pub open spec fn stored_secret(stored: Seq<char>) -> Option<(Seq<u8>, Seq<u8>)> {
    let end = stored.len() as int;
    let colon = position(stored, 0, end, CharClass::Exactly(':'), true);
    let salt = stored.subrange(0, colon);
    let mac = stored.subrange(colon + 1, end);
    if colon < end && position(stored, colon + 1, end, CharClass::Exactly(':'), true) == end
        && is_hex(salt) && is_hex(mac) {
        Some((hex_data(salt), hex_data(mac)))
    } else {
        None
    }
}

/// The text under which a password is stored with a given salt.
pub open spec fn stored_text(salt: Seq<u8>, password: Seq<u8>) -> Seq<char> {
    hex_text(salt) + seq![':'] + hex_text(hmac_sha256(salt, password))
}

/// Whether two byte strings are the same.
pub fn same_bytes(left: &Vec<u8>, right: &Vec<u8>) -> (same: bool)
    ensures
        same == (left@ == right@),
{
    if left.len() != right.len() {
        return false;
    }
    let mut i: usize = 0;
    while i < left.len()
        invariant
            i <= left.len(),
            left.len() == right.len(),
            forall|j: int| 0 <= j < i ==> left[j] == right[j],
        decreases left.len() - i,
    {
        if left[i] != right[i] {
            return false;
        }
        i = i + 1;
    }
    assert(left@ =~= right@);
    true
}

/// Reads the salt and the mac out of a stored password.
pub fn read_stored_password(stored: &str) -> (secret: Option<(Vec<u8>, Vec<u8>)>)
    ensures
        match secret {
            Some((salt, mac)) => stored_secret(stored@) == Some((salt@, mac@)),
            None => stored_secret(stored@) is None,
        },
{
    let chars = characters(stored);
    let end: usize = chars.len();
    let colon: usize = find_position(&chars, 0, end, CharClass::Exactly(':'), true);
    if colon >= end {
        return None;
    }
    let second: usize = find_position(&chars, colon + 1, end, CharClass::Exactly(':'), true);
    if second < end {
        return None;
    }
    let salt = match hex_decode(stored.substring_char(0, colon)) {
        Some(salt) => salt,
        None => {
            return None;
        },
    };
    let mac = match hex_decode(stored.substring_char(colon + 1, end)) {
        Some(mac) => mac,
        None => {
            return None;
        },
    };
    Some((salt, mac))
}

/// Checks a password against what is stored for it. A stored text that is
/// not of the form `salt:mac` in hex is refused as unauthorized; otherwise
/// the result says whether the password gives the stored mac.
pub fn verify_password(password: &str, hash: &str) -> (verdict: Result<bool, StatusCode>)
    ensures
        match stored_secret(hash@) {
            Some((salt, mac)) => verdict == Ok::<bool, StatusCode>(
                hmac_sha256(salt, encode_utf8(password@)) == mac,
            ),
            None => verdict == Err::<bool, StatusCode>(StatusCode::Unauthorized),
        },
{
    let (salt, expected) = match read_stored_password(hash) {
        Some(secret) => secret,
        None => {
            return Err(StatusCode::Unauthorized);
        },
    };
    let mac = match compute_hmac_sha256(salt.as_slice(), password.as_bytes()) {
        Some(mac) => mac,
        None => {
            return Err(StatusCode::Unauthorized);
        },
    };
    Ok(same_bytes(&mac, &expected))
}

/// Writes a salt and a mac down in the form in which passwords are stored.
pub fn stored_form(salt: &[u8], mac: &[u8]) -> (text: String)
    ensures
        text@ == hex_text(salt@) + seq![':'] + hex_text(mac@),
{
    let mut text = hex_encode(salt);
    proof {
        reveal_strlit(":");
    }
    text.append(":");
    text.append(hex_encode(mac).as_str());
    text
}

/// The text to store for a password, with a salt that the caller chose.
pub fn hash_password_with_salt(password: &str, salt: &[u8]) -> (stored: Result<String, StatusCode>)
    ensures
        stored matches Ok(text) && text@ == stored_text(salt@, encode_utf8(password@)),
{
    let mac = match compute_hmac_sha256(salt, password.as_bytes()) {
        Some(mac) => mac,
        None => {
            return Err(StatusCode::InternalServerError);
        },
    };
    Ok(stored_form(salt, mac.as_slice()))
}

/// The text to store for a password, with a fresh random salt of 32 bytes.
pub fn hash_password(password: &str) -> (stored: Result<String, StatusCode>)
    ensures
        stored matches Ok(text) && exists|salt: Seq<u8>|
            salt.len() == 32 && text@ == #[trigger] stored_text(salt, encode_utf8(password@)),
{
    let salt = random_salt();
    hash_password_with_salt(password, salt.as_slice())
}

/// Hex text holds hex digits only, no colon among them, and stands for the
/// bytes it was made from.
pub proof fn lemma_hex_text_reads_back(data: Seq<u8>)
    ensures
        is_hex(hex_text(data)),
        hex_data(hex_text(data)) == data,
        forall|i: int| 0 <= i < hex_text(data).len() ==> #[trigger] hex_text(data)[i] != ':',
{
    let text = hex_text(data);
    assert forall|i: int| 0 <= i < data.len() implies #[trigger] hex_data(text)[i] == data[i] by {
        let byte = data[i] as int;
        assert(hex_value(text[2 * i]) == Some(byte / 16));
        assert(hex_value(text[2 * i + 1]) == Some(byte % 16));
    }
}

/// What was stored for a password is read back as the salt and the mac it
/// was made of, so the password verifies against it.
pub proof fn lemma_stored_password_verifies(salt: Seq<u8>, password: Seq<u8>)
    ensures
        stored_secret(stored_text(salt, password)) == Some(
            (salt, hmac_sha256(salt, password)),
        ),
{
    let mac = hmac_sha256(salt, password);
    let left = hex_text(salt);
    let right = hex_text(mac);
    let text = stored_text(salt, password);
    let end = text.len() as int;
    let colon = left.len() as int;
    lemma_hex_text_reads_back(salt);
    lemma_hex_text_reads_back(mac);
    assert forall|i: int| 0 <= i < colon implies !CharClass::Exactly(':').holds(
        #[trigger] text[i],
    ) by {
        assert(text[i] == left[i]);
    }
    lemma_position_is_first(text, 0, end, CharClass::Exactly(':'), true, colon);
    assert forall|i: int| colon + 1 <= i < end implies !CharClass::Exactly(':').holds(
        #[trigger] text[i],
    ) by {
        assert(text[i] == right[i - colon - 1]);
    }
    lemma_position_is_first(text, colon + 1, end, CharClass::Exactly(':'), true, end);
    assert(text.subrange(0, colon) =~= left);
    assert(text.subrange(colon + 1, end) =~= right);
}

/// Seconds for which a token is good.
pub const TOKEN_LIFETIME_SECS: usize = 24 * 60 * 60;

/// What a token says: whom it was issued to, and until when it is good, in
/// seconds since 1970.
#[derive(Debug)]
pub struct Claims {
    pub sub: String,
    pub exp: usize,
}

impl Claims {
    /// The claims of a token issued to `user_id` at the time `now`: good for
    /// a day.
    pub fn issued_at(user_id: String, now: usize) -> (claims: Claims)
        requires
            now + TOKEN_LIFETIME_SECS <= usize::MAX,
        ensures
            claims.sub == user_id,
            claims.exp == now + TOKEN_LIFETIME_SECS,
    {
        Claims { sub: user_id, exp: now + TOKEN_LIFETIME_SECS }
    }
}

/// The word of `text` that begins at or after `from`, as the places where it
/// begins and ends: white space is passed over, the word runs up to the next
/// white space. Where no word is left, both places are the length of the text.
pub open spec fn word_from(text: Seq<char>, from: int) -> (int, int) {
    let end = text.len() as int;
    let begin = position(text, from, end, CharClass::Space, false);
    (begin, position(text, begin, end, CharClass::Space, true))
}

/// The token of an `Authorization` header: the second word of a header whose
/// first word is `Bearer`; the empty text where there is no second word.
/// `None` for a header that begins otherwise.
pub open spec fn bearer_of(header: Seq<char>) -> Option<Seq<char>> {
    let scheme = word_from(header, 0);
    let token = word_from(header, scheme.1);
    if header.subrange(scheme.0, scheme.1) == "Bearer"@ {
        Some(header.subrange(token.0, token.1))
    } else {
        None
    }
}

/// Reads the token out of an `Authorization` header. A header that does not
/// begin with the word `Bearer` is refused as unauthorized.
pub fn bearer_token(header: &str) -> (token: Result<String, StatusCode>)
    ensures
        match bearer_of(header@) {
            Some(text) => token matches Ok(found) && found@ == text,
            None => token == Err::<String, StatusCode>(StatusCode::Unauthorized),
        },
{
    let chars = characters(header);
    let end: usize = chars.len();
    let scheme_begin: usize = find_position(&chars, 0, end, CharClass::Space, false);
    let scheme_end: usize = find_position(&chars, scheme_begin, end, CharClass::Space, true);
    let token_begin: usize = find_position(&chars, scheme_end, end, CharClass::Space, false);
    let token_end: usize = find_position(&chars, token_begin, end, CharClass::Space, true);
    let scheme = header.substring_char(scheme_begin, scheme_end).to_owned();
    if scheme != "Bearer".to_owned() {
        return Err(StatusCode::Unauthorized);
    }
    Ok(header.substring_char(token_begin, token_end).to_owned())
}

} // verus!
