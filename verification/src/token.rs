//! Node-token hashing (plain or salted BLAKE3) and token generation.
use vstd::prelude::*;
use vstd::utf8::encode_utf8;

use crate::text::push_char;

verus! {

/// The BLAKE3 hash of `input`.
pub uninterp spec fn blake3_digest(input: Seq<u8>) -> Seq<u8>;

/// The keyed BLAKE3 hash of `input` under `key`.
pub uninterp spec fn blake3_keyed_digest(key: Seq<u8>, input: Seq<u8>) -> Seq<u8>;

/// `blake3::hash`: claims only that its 32 bytes are a function of the input.
#[verifier::external_body]
fn blake3_hash(input: &[u8]) -> (digest: [u8; 32])
    ensures
        digest@ == blake3_digest(input@),
{
    *blake3::hash(input).as_bytes()
}

/// `blake3::keyed_hash`: claims only that its 32 bytes are a function of the
/// key and the input.
#[verifier::external_body]
fn blake3_keyed_hash(key: &[u8; 32], input: &[u8]) -> (digest: [u8; 32])
    ensures
        digest@ == blake3_keyed_digest(key@, input@),
{
    *blake3::keyed_hash(key, input).as_bytes()
}

#[verifier::external_type_specification]
#[verifier::external_body]
pub struct ExRandomError(getrandom::Error);

/// `getrandom::fill`: fills the buffer from the system's random source. What
/// it writes depends on chance, so nothing is claimed of the bytes.
#[verifier::external_body]
fn fill_random(buf: &mut [u8; 32]) -> (r: Result<(), getrandom::Error>) {
    getrandom::fill(buf)
}

/// Lower-case hexadecimal digit of `d < 16`.
pub open spec fn hex_digit(d: nat) -> char {
    if d < 10 {
        (d + 48) as char
    } else {
        (d - 10 + 97) as char
    }
}

/// Lower-case hexadecimal text of `bytes`, two digits per byte, high nibble
/// first.
pub open spec fn hex_lower(bytes: Seq<u8>) -> Seq<char>
    decreases bytes.len(),
{
    if bytes.len() == 0 {
        Seq::empty()
    } else {
        hex_lower(bytes.drop_last()) + seq![
            hex_digit((bytes.last() / 16) as nat),
            hex_digit((bytes.last() % 16) as nat),
        ]
    }
}

/// A lower-case hexadecimal digit.
pub open spec fn is_hex_lower_char(c: char) -> bool {
    (48 <= c as u32 && c as u32 <= 57) || (97 <= c as u32 && c as u32 <= 102)
}

/// The hash sent as `X-Node-Token`: plain BLAKE3 of the token, or, with a
/// salt, keyed BLAKE3 of the token under the BLAKE3 hash of the salt; in
/// lower-case hexadecimal.
pub open spec fn token_hash(token: Seq<char>, salt: Option<Seq<char>>) -> Seq<char> {
    match salt {
        None => hex_lower(blake3_digest(encode_utf8(token))),
        Some(s) => hex_lower(blake3_keyed_digest(blake3_digest(encode_utf8(s)), encode_utf8(token))),
    }
}

pub proof fn lemma_hex_lower_shape(bytes: Seq<u8>)
    ensures
        hex_lower(bytes).len() == 2 * bytes.len(),
        forall|k: int| 0 <= k < hex_lower(bytes).len() ==> is_hex_lower_char(
            #[trigger] hex_lower(bytes)[k],
        ),
    decreases bytes.len(),
{
    if bytes.len() > 0 {
        lemma_hex_lower_shape(bytes.drop_last());
    }
}

fn hex_char(d: u8) -> (c: char)
    requires
        d < 16,
    ensures
        c == hex_digit(d as nat),
{
    if d == 0 {
        '0'
    } else if d == 1 {
        '1'
    } else if d == 2 {
        '2'
    } else if d == 3 {
        '3'
    } else if d == 4 {
        '4'
    } else if d == 5 {
        '5'
    } else if d == 6 {
        '6'
    } else if d == 7 {
        '7'
    } else if d == 8 {
        '8'
    } else if d == 9 {
        '9'
    } else if d == 10 {
        'a'
    } else if d == 11 {
        'b'
    } else if d == 12 {
        'c'
    } else if d == 13 {
        'd'
    } else if d == 14 {
        'e'
    } else {
        'f'
    }
}

/// Lower-case hexadecimal text of a 32-byte digest.
pub fn to_hex(bytes: &[u8; 32]) -> (s: String)
    ensures
        s@ == hex_lower(bytes@),
{
    let mut s = String::new();
    let mut i: usize = 0;
    while i < 32
        invariant
            i <= 32,
            bytes@.len() == 32,
            s@ == hex_lower(bytes@.take(i as int)),
        decreases 32 - i,
    {
        let b = bytes[i];
        push_char(&mut s, hex_char(b / 16));
        push_char(&mut s, hex_char(b % 16));
        proof {
            assert(bytes@.take(i + 1).drop_last() =~= bytes@.take(i as int));
            assert(bytes@.take(i + 1).last() == b);
        }
        i = i + 1;
    }
    assert(bytes@.take(32) =~= bytes@);
    s
}

/// The hash of `token` that the node sends and the manager stores: plain
/// BLAKE3, or keyed BLAKE3 under `blake3(salt)` when a salt is set; always 64
/// lower-case hexadecimal digits.
pub fn hash_token(token: &str, salt: Option<&str>) -> (h: String)
    ensures
        h@ == token_hash(
            token@,
            match salt {
                Some(s) => Some(s@),
                None => None,
            },
        ),
        h@.len() == 64,
        forall|k: int| 0 <= k < 64 ==> is_hex_lower_char(#[trigger] h@[k]),
{
    let digest = match salt {
        None => blake3_hash(token.as_bytes()),
        Some(s) => {
            let key = blake3_hash(s.as_bytes());
            blake3_keyed_hash(&key, token.as_bytes())
        },
    };
    proof {
        lemma_hex_lower_shape(digest@);
    }
    to_hex(&digest)
}

/// A freshly generated node token and the hash the manager is to store.
pub struct TokenPair {
    /// `NODE_TOKEN`: 64 lower-case hexadecimal digits.
    pub token: String,
    /// `NODE_REPORT_TOKEN`: the hash of `token`, as `hash_token` computes it.
    pub report_token: String,
}

/// Why no token could be generated.
#[derive(Debug, Clone, Copy, PartialEq, Eq, Structural)]
pub enum TokenError {
    /// The system's random source failed.
    RandomUnavailable,
}

/// The token pair made from 32 random bytes: the token is their hexadecimal
/// text, the report token its hash under the same salt as at run time.
pub fn token_pair_from_bytes(bytes: &[u8; 32], salt: Option<&str>) -> (p: TokenPair)
    ensures
        p.token@ == hex_lower(bytes@),
        p.report_token@ == token_hash(
            p.token@,
            match salt {
                Some(s) => Some(s@),
                None => None,
            },
        ),
        p.token@.len() == 64,
{
    let token = to_hex(bytes);
    proof {
        lemma_hex_lower_shape(bytes@);
    }
    let report_token = hash_token(token.as_str(), salt);
    TokenPair { token, report_token }
}

/// Generates a token from 32 bytes of the system's random source, with its
/// hash; fails only when the random source does.
pub fn generate_token(salt: Option<&str>) -> (r: Result<TokenPair, TokenError>)
    ensures
        match r {
            Ok(p) => p.token@.len() == 64 && (forall|k: int|
                0 <= k < 64 ==> is_hex_lower_char(#[trigger] p.token@[k])) && p.report_token@
                == token_hash(
                p.token@,
                match salt {
                    Some(s) => Some(s@),
                    None => None,
                },
            ),
            Err(e) => e == TokenError::RandomUnavailable,
        },
{
    let mut bytes = [0u8; 32];
    match fill_random(&mut bytes) {
        Ok(()) => {
            proof {
                lemma_hex_lower_shape(bytes@);
            }
            Ok(token_pair_from_bytes(&bytes, salt))
        },
        Err(_) => Err(TokenError::RandomUnavailable),
    }
}

} // verus!
