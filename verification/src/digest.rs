//! The integrity digest that travels with every message: the SHA-256 hash of
//! the message's JSON form (taken while the message's own digest field is
//! empty), written as lowercase hexadecimal text.

use sha2::{Digest, Sha256};
use vstd::prelude::*;
use vstd::string::*;

verus! {

/// The 32-byte SHA-256 hash of `data`.
pub uninterp spec fn sha256_hash(data: Seq<u8>) -> Seq<u8>;

/// The hexadecimal digit, in lowercase, for a value below 16.
pub open spec fn hex_digit(n: u8) -> char {
    if n < 10 {
        (n + 48) as char
    } else {
        (n + 87) as char
    }
}

/// Each byte written as two lowercase hexadecimal digits, high half first.
pub open spec fn hex_text(bytes: Seq<u8>) -> Seq<char> {
    Seq::new(
        2 * bytes.len(),
        |i: int|
            if i % 2 == 0 {
                hex_digit(bytes[i / 2] / 16)
            } else {
                hex_digit(bytes[i / 2] % 16)
            },
    )
}

/// The digest text of a message whose JSON form has the bytes `json`.
pub open spec fn digest_text(json: Seq<u8>) -> Seq<char> {
    hex_text(sha256_hash(json))
}

/// Calls `Sha256::new`, `update` and `finalize` of the sha2 crate.
/// Claimed: the result is the SHA-256 hash of `data` (a value of `data` alone)
/// and, as sha2 gives SHA-256 a 32-byte output, it has 32 bytes.
#[verifier::external_body]
fn sha256(data: &[u8]) -> (hash: Vec<u8>)
    ensures
        hash@ == sha256_hash(data@),
        hash@.len() == 32,
{
    let mut hasher = Sha256::new();
    hasher.update(data);
    hasher.finalize().to_vec()
}

/// Calls `hex::encode`.
/// Claimed: the result writes every byte of `data`, in order, as two lowercase
/// hexadecimal digits, high half first (the table `0123456789abcdef` of the
/// hex crate).
#[verifier::external_body]
fn hex_encode(data: &[u8]) -> (text: String)
    ensures
        text@ == hex_text(data@),
{
    hex::encode(data)
}

/// The digest of a message whose JSON form (with an empty digest field) is
/// `json`.
pub fn message_digest(json: &str) -> (code: String)
    ensures
        code@ == digest_text(json.spec_bytes()),
        code@.len() == 64,
{
    let hash = sha256(json.as_bytes());
    hex_encode(hash.as_slice())
}

/// Whether `code` is the hexadecimal text of the hash `hash`.
pub fn code_matches(hash: &[u8], code: &String) -> (ok: bool)
    ensures
        ok == (code@ == hex_text(hash@)),
{
    let computed = hex_encode(hash);
    computed == *code
}

/// Whether `code` is the digest of the JSON form `json`.
pub fn digest_matches(json: &str, code: &String) -> (ok: bool)
    ensures
        ok == (code@ == digest_text(json.spec_bytes())),
{
    let hash = sha256(json.as_bytes());
    code_matches(hash.as_slice(), code)
}

/// Hexadecimal text tells bytes apart: two byte strings with the same text
/// are the same.
pub proof fn hex_text_injective(a: Seq<u8>, b: Seq<u8>)
    requires
        hex_text(a) == hex_text(b),
    ensures
        a == b,
{
    assert(a.len() == b.len()) by {
        assert(hex_text(a).len() == 2 * a.len());
        assert(hex_text(b).len() == 2 * b.len());
    }
    assert forall|j: int| 0 <= j < a.len() implies a[j] == b[j] by {
        let hi = hex_text(a)[2 * j];
        let lo = hex_text(a)[2 * j + 1];
        assert(hi == hex_text(b)[2 * j]);
        assert(lo == hex_text(b)[2 * j + 1]);
        assert((2 * j) / 2 == j);
        assert((2 * j + 1) / 2 == j);
        let x = a[j];
        let y = b[j];
        assert(hex_digit(x / 16) == hex_digit(y / 16));
        assert(hex_digit(x % 16) == hex_digit(y % 16));
        assert(x / 16 == y / 16);
        assert(x % 16 == y % 16);
        assert(x == 16 * (x / 16) + x % 16);
        assert(y == 16 * (y / 16) + y % 16);
    }
    assert(a =~= b);
}

/// Every character of a hexadecimal text is one of `0123456789abcdef`.
pub proof fn hex_text_is_lowercase_hex(bytes: Seq<u8>)
    ensures
        forall|i: int|
            0 <= i < hex_text(bytes).len() ==> {
                let c = #[trigger] hex_text(bytes)[i];
                ('0' <= c <= '9') || ('a' <= c <= 'f')
            },
{
    assert forall|i: int| 0 <= i < hex_text(bytes).len() implies {
        let c = #[trigger] hex_text(bytes)[i];
        ('0' <= c <= '9') || ('a' <= c <= 'f')
    } by {
        let b = bytes[i / 2];
        assert(b / 16 < 16);
        assert(b % 16 < 16);
    }
}

} // verus!
