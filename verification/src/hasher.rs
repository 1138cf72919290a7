use vstd::prelude::*;
use vstd::string::*;

verus! {

/// The lower-case hexadecimal digit for a value below sixteen.
pub open spec fn hex_digit(n: int) -> char {
    if n == 0 {
        '0'
    } else if n == 1 {
        '1'
    } else if n == 2 {
        '2'
    } else if n == 3 {
        '3'
    } else if n == 4 {
        '4'
    } else if n == 5 {
        '5'
    } else if n == 6 {
        '6'
    } else if n == 7 {
        '7'
    } else if n == 8 {
        '8'
    } else if n == 9 {
        '9'
    } else if n == 10 {
        'a'
    } else if n == 11 {
        'b'
    } else if n == 12 {
        'c'
    } else if n == 13 {
        'd'
    } else if n == 14 {
        'e'
    } else {
        'f'
    }
}

/// The value of a lower-case hexadecimal digit.
pub open spec fn hex_value(c: char) -> Option<int> {
    if c == '0' {
        Some(0)
    } else if c == '1' {
        Some(1)
    } else if c == '2' {
        Some(2)
    } else if c == '3' {
        Some(3)
    } else if c == '4' {
        Some(4)
    } else if c == '5' {
        Some(5)
    } else if c == '6' {
        Some(6)
    } else if c == '7' {
        Some(7)
    } else if c == '8' {
        Some(8)
    } else if c == '9' {
        Some(9)
    } else if c == 'a' {
        Some(10)
    } else if c == 'b' {
        Some(11)
    } else if c == 'c' {
        Some(12)
    } else if c == 'd' {
        Some(13)
    } else if c == 'e' {
        Some(14)
    } else if c == 'f' {
        Some(15)
    } else {
        None
    }
}

/// Bytes written as text, two hexadecimal digits each.
pub open spec fn hex_text(bytes: Seq<u8>) -> Seq<char>
    decreases bytes.len(),
{
    if bytes.len() == 0 {
        Seq::empty()
    } else {
        hex_text(bytes.drop_last()).push(hex_digit(bytes.last() as int / 16)).push(
            hex_digit(bytes.last() as int % 16),
        )
    }
}

/// The bytes that a text of hexadecimal digits stands for, if it is one of even length.
pub open spec fn parse_hex(text: Seq<char>) -> Option<Seq<u8>>
    decreases text.len(),
{
    if text.len() == 0 {
        Some(Seq::empty())
    } else if text.len() == 1 {
        None
    } else {
        let n = text.len() as int;
        match (parse_hex(text.subrange(0, n - 2)), hex_value(text[n - 2]), hex_value(text[n - 1])) {
            (Some(bytes), Some(high), Some(low)) => Some(bytes.push((high * 16 + low) as u8)),
            _ => None,
        }
    }
}

/// A digit's value is the value it was written for.
pub proof fn lemma_hex_digit_value(n: int)
    requires
        0 <= n < 16,
    ensures
        hex_value(hex_digit(n)) == Some(n),
{
}

/// The text of some bytes is twice as long as they are.
pub proof fn lemma_hex_text_len(bytes: Seq<u8>)
    ensures
        hex_text(bytes).len() == 2 * bytes.len(),
    decreases bytes.len(),
{
    if bytes.len() > 0 {
        lemma_hex_text_len(bytes.drop_last());
    }
}

/// Reading back what was written gives the bytes that were written.
pub proof fn lemma_parse_hex_text(bytes: Seq<u8>)
    ensures
        parse_hex(hex_text(bytes)) == Some(bytes),
    decreases bytes.len(),
{
    if bytes.len() > 0 {
        let rest = bytes.drop_last();
        let b = bytes.last();
        lemma_parse_hex_text(rest);
        lemma_hex_text_len(rest);
        let text = hex_text(bytes);
        let n = text.len() as int;
        assert(text.subrange(0, n - 2) =~= hex_text(rest));
        lemma_hex_digit_value(b as int / 16);
        lemma_hex_digit_value(b as int % 16);
        assert(text[n - 2] == hex_digit(b as int / 16));
        assert(text[n - 1] == hex_digit(b as int % 16));
        assert((b as int / 16) * 16 + b as int % 16 == b);
        assert(rest.push(b) =~= bytes);
    }
}

/// A text of odd length stands for nothing.
pub proof fn lemma_parse_hex_odd(text: Seq<char>)
    requires
        text.len() % 2 == 1,
    ensures
        parse_hex(text) is None,
    decreases text.len(),
{
    if text.len() > 1 {
        lemma_parse_hex_odd(text.subrange(0, text.len() - 2));
    }
}

/// A text stands for something only if each of its even-length beginnings does.
pub proof fn lemma_parse_hex_prefix(text: Seq<char>, k: int)
    requires
        0 <= k,
        2 * k <= text.len(),
        parse_hex(text.subrange(0, 2 * k)) is None,
    ensures
        parse_hex(text) is None,
    decreases text.len(),
{
    if text.len() % 2 == 1 {
        lemma_parse_hex_odd(text);
    } else if 2 * k == text.len() {
        assert(text.subrange(0, 2 * k) =~= text);
    } else {
        let head = text.subrange(0, text.len() - 2);
        assert(head.subrange(0, 2 * k) =~= text.subrange(0, 2 * k));
        lemma_parse_hex_prefix(head, k);
    }
}

/// The text of one hexadecimal digit.
fn digit_text(n: u8) -> (s: &'static str)
    requires
        n < 16,
    ensures
        s@ == seq![hex_digit(n as int)],
{
    proof {
        reveal_strlit("0");
        reveal_strlit("1");
        reveal_strlit("2");
        reveal_strlit("3");
        reveal_strlit("4");
        reveal_strlit("5");
        reveal_strlit("6");
        reveal_strlit("7");
        reveal_strlit("8");
        reveal_strlit("9");
        reveal_strlit("a");
        reveal_strlit("b");
        reveal_strlit("c");
        reveal_strlit("d");
        reveal_strlit("e");
        reveal_strlit("f");
    }
    let s = match n {
        0 => "0",
        1 => "1",
        2 => "2",
        3 => "3",
        4 => "4",
        5 => "5",
        6 => "6",
        7 => "7",
        8 => "8",
        9 => "9",
        10 => "a",
        11 => "b",
        12 => "c",
        13 => "d",
        14 => "e",
        _ => "f",
    };
    assert(s@ =~= seq![hex_digit(n as int)]);
    s
}

/// The value of one hexadecimal digit.
fn digit_value(c: char) -> (v: Option<u8>)
    ensures
        match hex_value(c) {
            Some(n) => v == Some(n as u8) && 0 <= n < 16,
            None => v is None,
        },
{
    match c {
        '0' => Some(0),
        '1' => Some(1),
        '2' => Some(2),
        '3' => Some(3),
        '4' => Some(4),
        '5' => Some(5),
        '6' => Some(6),
        '7' => Some(7),
        '8' => Some(8),
        '9' => Some(9),
        'a' => Some(10),
        'b' => Some(11),
        'c' => Some(12),
        'd' => Some(13),
        'e' => Some(14),
        'f' => Some(15),
        _ => None,
    }
}

/// Writes bytes as text, two hexadecimal digits each.
pub fn encode_hex(bytes: &Vec<u8>) -> (text: String)
    ensures
        text@ == hex_text(bytes@),
{
    let mut text = String::new();
    let mut i: usize = 0;
    while i < bytes.len()
        invariant
            i <= bytes.len(),
            text@ == hex_text(bytes@.subrange(0, i as int)),
        decreases bytes.len() - i,
    {
        let b = bytes[i];
        proof {
            let next = bytes@.subrange(0, i + 1);
            assert(next.drop_last() =~= bytes@.subrange(0, i as int));
            assert(next.last() == b);
        }
        let ghost before = text@;
        text.append(digit_text(b / 16));
        text.append(digit_text(b % 16));
        assert(text@ =~= before.push(hex_digit(b as int / 16)).push(hex_digit(b as int % 16)));
        i += 1;
    }
    assert(bytes@.subrange(0, i as int) =~= bytes@);
    text
}

/// Reads text of hexadecimal digits back into bytes; nothing when the text is not of
/// even length or holds anything but lower-case hexadecimal digits.
pub fn decode_hex(text: &str) -> (bytes: Option<Vec<u8>>)
    ensures
        match parse_hex(text@) {
            Some(expected) => bytes matches Some(b) && b@ == expected,
            None => bytes is None,
        },
{
    let n = text.unicode_len();
    if n % 2 != 0 {
        proof {
            lemma_parse_hex_odd(text@);
        }
        return None;
    }
    let mut bytes: Vec<u8> = Vec::new();
    let mut i: usize = 0;
    while i < n
        invariant
            n == text@.len(),
            n % 2 == 0,
            i % 2 == 0,
            i <= n,
            parse_hex(text@.subrange(0, i as int)) == Some(bytes@),
        decreases n - i,
    {
        let high = digit_value(text.get_char(i));
        let low = digit_value(text.get_char(i + 1));
        proof {
            let next = text@.subrange(0, i + 2);
            assert(next.subrange(0, next.len() - 2) =~= text@.subrange(0, i as int));
            assert(next[next.len() - 2] == text@[i as int]);
            assert(next[next.len() - 1] == text@[i + 1]);
        }
        match (high, low) {
            (Some(h), Some(l)) => {
                bytes.push(h * 16 + l);
            },
            _ => {
                proof {
                    lemma_parse_hex_prefix(text@, (i + 2) / 2);
                }
                return None;
            },
        }
        i += 2;
    }
    assert(text@.subrange(0, i as int) =~= text@);
    Some(bytes)
}

/// The number of bytes of salt in a blob.
pub const SALT_LEN: usize = 16;

/// The number of bytes of digest in a blob.
pub const DIGEST_LEN: usize = 32;

/// The number of rounds by which a password is stretched.
pub const ROUNDS: u32 = 100_000;

/// The longest password, in bytes, that is hashed.
pub const MAX_PLAINTEXT_LEN: usize = 0xFFFF_FFFF;

/// The character between the salt and the digest of a blob.
pub const SEPARATOR: char = '$';

/// Why hashing or checking failed.
#[derive(Clone, Copy, Debug, PartialEq, Eq, Structural)]
pub enum HashingError {
    /// No salt could be had, or the password is longer than can be hashed.
    Backend,
    /// The blob is not one that `hash` writes.
    Malformed,
}

impl HashingError {
    /// The text that describes the error.
    pub open spec fn message_spec(self) -> Seq<char> {
        match self {
            HashingError::Backend => "the hashing backend failed"@,
            HashingError::Malformed => "the stored hash is malformed"@,
        }
    }

    /// The text that describes the error.
    pub fn message(&self) -> (m: String)
        ensures
            m@ == self.message_spec(),
    {
        match self {
            HashingError::Backend => String::from_str("the hashing backend failed"),
            HashingError::Malformed => String::from_str("the stored hash is malformed"),
        }
    }
}

/// The key that PBKDF2 with HMAC-SHA256 derives, as `ring` computes it: from a number
/// of rounds, a salt and a secret, to a length in bytes.
pub uninterp spec fn derived_key(rounds: int, salt: Seq<u8>, secret: Seq<char>, len: int) -> Seq<u8>;

/// `ring::rand::SystemRandom`, asked to fill a buffer of the given length. Of bytes
/// that come back only their number is known.
#[verifier::external_body]
fn fresh_bytes(len: usize) -> (bytes: Option<Vec<u8>>)
    ensures
        bytes matches Some(b) ==> b@.len() == len,
{
    let mut bytes = vec![0u8; len];
    match ring::rand::SecureRandom::fill(&ring::rand::SystemRandom::new(), &mut bytes) {
        Ok(()) => Some(bytes),
        Err(_) => None,
    }
}

/// `ring::pbkdf2::derive` with `PBKDF2_HMAC_SHA256` on the secret's bytes: fills a
/// buffer of the given length with the derived key. The bounds keep away from the
/// lengths on which it panics.
#[verifier::external_body]
fn stretch(rounds: u32, salt: &Vec<u8>, secret: &str, len: usize) -> (key: Vec<u8>)
    requires
        rounds > 0,
        salt@.len() <= MAX_PLAINTEXT_LEN,
        secret.spec_bytes().len() <= MAX_PLAINTEXT_LEN,
        len <= MAX_PLAINTEXT_LEN,
    ensures
        key@ == derived_key(rounds as int, salt@, secret@, len as int),
        key@.len() == len,
{
    let mut key = vec![0u8; len];
    let rounds = core::num::NonZeroU32::new(rounds).unwrap();
    ring::pbkdf2::derive(ring::pbkdf2::PBKDF2_HMAC_SHA256, rounds, salt, secret.as_bytes(), &mut key);
    key
}

/// `ring::pbkdf2::verify` with `PBKDF2_HMAC_SHA256` on the secret's bytes: whether a
/// key is the one derived from the other inputs, compared in constant time. An empty
/// key never is.
#[verifier::external_body]
fn confirms(rounds: u32, salt: &Vec<u8>, secret: &str, key: &Vec<u8>) -> (same: bool)
    requires
        rounds > 0,
        salt@.len() <= MAX_PLAINTEXT_LEN,
        secret.spec_bytes().len() <= MAX_PLAINTEXT_LEN,
        key@.len() <= MAX_PLAINTEXT_LEN,
    ensures
        same == (key@.len() > 0 && derived_key(rounds as int, salt@, secret@, key@.len() as int)
            == key@),
{
    let rounds = core::num::NonZeroU32::new(rounds).unwrap();
    ring::pbkdf2::verify(ring::pbkdf2::PBKDF2_HMAC_SHA256, rounds, salt, secret.as_bytes(), key)
        .is_ok()
}

/// The blob for a salt and a digest: both in hexadecimal, with the separator between.
pub open spec fn blob_text(salt: Seq<u8>, digest: Seq<u8>) -> Seq<char> {
    hex_text(salt).push(SEPARATOR) + hex_text(digest)
}

/// The salt and the digest that a blob holds, if it is of the form that `hash` writes.
pub open spec fn parse_blob(blob: Seq<char>) -> Option<(Seq<u8>, Seq<u8>)> {
    if blob.len() == 2 * SALT_LEN + 1 + 2 * DIGEST_LEN && blob[2 * SALT_LEN as int] == SEPARATOR {
        match (
            parse_hex(blob.subrange(0, 2 * SALT_LEN as int)),
            parse_hex(blob.subrange(2 * SALT_LEN + 1, blob.len() as int)),
        ) {
            (Some(salt), Some(digest)) => Some((salt, digest)),
            _ => None,
        }
    } else {
        None
    }
}

/// The digest of a password under a salt.
pub open spec fn digest_of(salt: Seq<u8>, plaintext: Seq<char>) -> Seq<u8> {
    derived_key(ROUNDS as int, salt, plaintext, DIGEST_LEN as int)
}

/// Whether a password is short enough to be hashed.
pub open spec fn hashable(plaintext: Seq<char>) -> bool {
    vstd::utf8::encode_utf8(plaintext).len() <= MAX_PLAINTEXT_LEN
}

/// What hashing a password with a given salt comes to; `None` stands for the salt
/// that could not be had.
pub open spec fn hash_spec(plaintext: Seq<char>, salt: Option<Seq<u8>>) -> Result<
    Seq<char>,
    HashingError,
> {
    match salt {
        Some(s) => if s.len() == SALT_LEN && hashable(plaintext) {
            Ok(blob_text(s, digest_of(s, plaintext)))
        } else {
            Err(HashingError::Backend)
        },
        None => Err(HashingError::Backend),
    }
}

/// What checking a password against a blob comes to: an error only for a blob that is
/// malformed, else whether the blob's digest is the password's under the blob's salt.
pub open spec fn verify_spec(plaintext: Seq<char>, blob: Seq<char>) -> Result<bool, HashingError> {
    match parse_blob(blob) {
        None => Err(HashingError::Malformed),
        Some((salt, digest)) => Ok(hashable(plaintext) && digest_of(salt, plaintext) == digest),
    }
}

/// A blob reads back as the salt and the digest it was written for.
pub proof fn lemma_parse_blob_text(salt: Seq<u8>, digest: Seq<u8>)
    requires
        salt.len() == SALT_LEN,
        digest.len() == DIGEST_LEN,
    ensures
        parse_blob(blob_text(salt, digest)) == Some((salt, digest)),
{
    let blob = blob_text(salt, digest);
    lemma_hex_text_len(salt);
    lemma_hex_text_len(digest);
    lemma_parse_hex_text(salt);
    lemma_parse_hex_text(digest);
    assert(blob.subrange(0, 2 * SALT_LEN as int) =~= hex_text(salt));
    assert(blob.subrange(2 * SALT_LEN + 1, blob.len() as int) =~= hex_text(digest));
}

/// Reads a blob apart into its salt and its digest.
pub fn read_blob(blob: &str) -> (parts: Option<(Vec<u8>, Vec<u8>)>)
    ensures
        match parse_blob(blob@) {
            Some((salt, digest)) => parts matches Some((s, d)) && s@ == salt && d@ == digest,
            None => parts is None,
        },
{
    if blob.unicode_len() != 2 * SALT_LEN + 1 + 2 * DIGEST_LEN {
        return None;
    }
    if blob.get_char(2 * SALT_LEN) != SEPARATOR {
        return None;
    }
    let salt = decode_hex(blob.substring_char(0, 2 * SALT_LEN));
    let digest = decode_hex(blob.substring_char(2 * SALT_LEN + 1, 2 * SALT_LEN + 1 + 2 * DIGEST_LEN));
    match (salt, digest) {
        (Some(s), Some(d)) => Some((s, d)),
        _ => None,
    }
}

/// Hashes a password with the salt given, into a blob that holds both the salt and the
/// digest. `None` stands for the salt that could not be had.
pub fn hash_with_salt(plaintext: &str, salt: Option<Vec<u8>>) -> (r: Result<String, HashingError>)
    ensures
        match hash_spec(
            plaintext@,
            match salt {
                Some(s) => Some(s@),
                None => None,
            },
        ) {
            Ok(blob) => r matches Ok(b) && b@ == blob && verify_spec(plaintext@, blob) == Ok::<
                bool,
                HashingError,
            >(true),
            Err(e) => r matches Err(f) && f == e,
        },
{
    match salt {
        None => Err(HashingError::Backend),
        Some(s) => {
            if s.len() != SALT_LEN || plaintext.as_bytes().len() > MAX_PLAINTEXT_LEN {
                return Err(HashingError::Backend);
            }
            let digest = stretch(ROUNDS, &s, plaintext, DIGEST_LEN);
            proof {
                lemma_parse_blob_text(s@, digest@);
            }
            let mut blob = encode_hex(&s);
            blob.append("$");
            blob.append(encode_hex(&digest).as_str());
            proof {
                reveal_strlit("$");
                assert("$"@ =~= seq![SEPARATOR]);
                assert(blob@ =~= blob_text(s@, digest@));
            }
            Ok(blob)
        },
    }
}

/// Hashes a password under a fresh random salt. The blob that comes back is one
/// against which the password checks.
pub fn hash(plaintext: &str) -> (r: Result<String, HashingError>)
    ensures
        !hashable(plaintext@) ==> r matches Err(HashingError::Backend),
        r matches Err(e) ==> e == HashingError::Backend,
        r matches Ok(blob) ==> verify_spec(plaintext@, blob@) == Ok::<bool, HashingError>(true),
        r matches Ok(blob) ==> exists|salt: Seq<u8>|
            hash_spec(plaintext@, Some(salt)) == Ok::<Seq<char>, HashingError>(blob@),
{
    let salt = fresh_bytes(SALT_LEN);
    let ghost used = salt;
    let r = hash_with_salt(plaintext, salt);
    proof {
        if r is Ok {
            assert(hash_spec(plaintext@, Some(used->0@)) == Ok::<Seq<char>, HashingError>(
                r->Ok_0@,
            ));
        }
    }
    r
}

/// Checks a password against a blob. A mismatch is no error: it is `false`.
pub fn verify(plaintext: &str, blob: &str) -> (r: Result<bool, HashingError>)
    ensures
        r == verify_spec(plaintext@, blob@),
{
    match read_blob(blob) {
        None => Err(HashingError::Malformed),
        Some((salt, digest)) => {
            if plaintext.as_bytes().len() > MAX_PLAINTEXT_LEN {
                return Ok(false);
            }
            proof {
                lemma_parsed_lengths(blob@);
            }
            Ok(confirms(ROUNDS, &salt, plaintext, &digest))
        },
    }
}

/// The salt and the digest read from a blob have the lengths that `hash` writes.
pub proof fn lemma_parsed_lengths(blob: Seq<char>)
    ensures
        parse_blob(blob) matches Some((salt, digest)) ==> salt.len() == SALT_LEN && digest.len()
            == DIGEST_LEN,
{
    if parse_blob(blob) is Some {
        lemma_parse_hex_len(blob.subrange(0, 2 * SALT_LEN as int));
        lemma_parse_hex_len(blob.subrange(2 * SALT_LEN + 1, blob.len() as int));
    }
}

/// The bytes that a text stands for are half as many as its characters.
pub proof fn lemma_parse_hex_len(text: Seq<char>)
    ensures
        parse_hex(text) matches Some(bytes) ==> 2 * bytes.len() == text.len(),
    decreases text.len(),
{
    if text.len() >= 2 {
        lemma_parse_hex_len(text.subrange(0, text.len() - 2));
    }
}

} // verus!
