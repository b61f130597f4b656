//! Request signatures: HMAC-SHA256 of the query under the API secret,
//! written as lowercase hexadecimal.

use hmac::Mac;
use vstd::prelude::*;

verus! {

/// The HMAC-SHA256 tag of `message` under `key`.
pub uninterp spec fn hmac_sha256(key: Seq<u8>, message: Seq<u8>) -> Seq<u8>;

/// The lowercase hexadecimal digit of a value below sixteen.
pub open spec fn hex_digit(n: nat) -> char {
    if n < 10 {
        (n + 48) as char
    } else {
        (n + 87) as char
    }
}

/// Each byte as two lowercase hexadecimal digits, high nibble first.
pub open spec fn hex_text(bytes: Seq<u8>) -> Seq<char>
    decreases bytes.len(),
{
    if bytes.len() == 0 {
        Seq::empty()
    } else {
        hex_text(bytes.drop_last()) + seq![
            hex_digit((bytes.last() / 16) as nat),
            hex_digit((bytes.last() % 16) as nat),
        ]
    }
}

/// Computes the tag with `hmac::Hmac::<sha2::Sha256>`: `new_from_slice` on
/// the key (which accepts keys of any length), `update` with the message,
/// `finalize`. The contract claims that the tag is a function of key and
/// message and that it is 32 bytes long, the SHA-256 output size.
#[verifier::external_body]
fn hmac_sha256_tag(key: &[u8], message: &[u8]) -> (tag: Vec<u8>)
    ensures
        tag@ == hmac_sha256(key@, message@),
        tag@.len() == 32,
{
    let mut mac = hmac::Hmac::<sha2::Sha256>::new_from_slice(key).expect("HMAC takes keys of any length");
    mac.update(message);
    mac.finalize().into_bytes().to_vec()
}

/// `hex::encode`: each byte as two lowercase hexadecimal digits, high
/// nibble first.
#[verifier::external_body]
fn hex_encode(bytes: &[u8]) -> (s: String)
    ensures
        s@ == hex_text(bytes@),
{
    hex::encode(bytes)
}

/// The signature of `query` under `secret`: the HMAC-SHA256 tag of the
/// query's UTF-8 bytes under the secret's UTF-8 bytes, in lowercase hex.
pub open spec fn signature_of(secret: Seq<char>, query: Seq<char>) -> Seq<char> {
    hex_text(hmac_sha256(vstd::utf8::encode_utf8(secret), vstd::utf8::encode_utf8(query)))
}

proof fn lemma_hex_text_len(bytes: Seq<u8>)
    ensures
        hex_text(bytes).len() == 2 * bytes.len(),
    decreases bytes.len(),
{
    if bytes.len() > 0 {
        lemma_hex_text_len(bytes.drop_last());
    }
}

/// Signs `query` with `secret`; the result is 64 hexadecimal digits.
pub fn sign_query(secret: &str, query: &str) -> (sig: String)
    ensures
        sig@ == signature_of(secret@, query@),
        sig@.len() == 64,
{
    let tag = hmac_sha256_tag(secret.as_bytes(), query.as_bytes());
    let sig = hex_encode(tag.as_slice());
    proof {
        lemma_hex_text_len(tag@);
    }
    sig
}

} // verus!
