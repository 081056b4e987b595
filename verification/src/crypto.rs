use vstd::prelude::*;
use crate::ids::hex_digit;

verus! {

/// The SHA-256 digest of `data`.
pub uninterp spec fn sha256_digest(data: Seq<u8>) -> Seq<u8>;

/// `<sha2::Sha256 as Digest>::digest`: the digest is named; its length, 32
/// bytes, is what the algorithm's output size fixes.
#[verifier::external_body]
fn sha256(data: &[u8]) -> (r: Vec<u8>)
    ensures
        r@ == sha256_digest(data@),
        r@.len() == 32,
{
    <sha2::Sha256 as sha2::Digest>::digest(data).to_vec()
}

/// Lowercase hexadecimal text of `bytes`: two digits per byte, high half first.
pub open spec fn hex_lower(bytes: Seq<u8>) -> Seq<char> {
    Seq::new(
        2 * bytes.len(),
        |i: int|
            if i % 2 == 0 {
                hex_digit((bytes[i / 2] / 16) as nat)
            } else {
                hex_digit((bytes[i / 2] % 16) as nat)
            },
    )
}

/// `hex::encode`: the lowercase hexadecimal text of `data`.
#[verifier::external_body]
fn hex_encode(data: &[u8]) -> (r: String)
    ensures
        r@ == hex_lower(data@),
{
    hex::encode(data)
}

/// The key under which a refresh token's session is stored: the lowercase
/// hexadecimal SHA-256 digest of the token's UTF-8 bytes.
pub open spec fn token_hash(token: Seq<char>) -> Seq<char> {
    hex_lower(sha256_digest(vstd::utf8::encode_utf8(token)))
}

/// Hashes a token for storage: the lowercase hex SHA-256 digest of its bytes.
pub fn hash_token(token: &str) -> (r: String)
    ensures
        r@ == token_hash(token@),
        r@.len() == 64,
{
    let digest = sha256(token.as_bytes());
    hex_encode(digest.as_slice())
}

} // verus!
