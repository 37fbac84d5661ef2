//! Salted password hashing and verification.
//!
//! A stored hash is the lower-case hex text of SHA-256 over the UTF-8 bytes of
//! the password followed by the UTF-8 bytes of the salt.

use sha2::Digest;
use vstd::prelude::*;
use vstd::utf8::encode_utf8;

verus! {

/// What SHA-256 yields on a byte sequence.
pub uninterp spec fn sha256_of(data: Seq<u8>) -> Seq<u8>;

/// The lower-case hex digit of a value below 16.
pub open spec fn hex_digit(n: int) -> char {
    seq!['0', '1', '2', '3', '4', '5', '6', '7', '8', '9', 'a', 'b', 'c', 'd', 'e', 'f'][n]
}

/// Hex text of a byte sequence: two digits per byte, high nibble first.
pub open spec fn hex_of(b: Seq<u8>) -> Seq<char> {
    Seq::new(
        2 * b.len(),
        |i: int|
            if i % 2 == 0 {
                hex_digit(b[i / 2] as int / 16)
            } else {
                hex_digit(b[i / 2] as int % 16)
            },
    )
}

/// The bytes that are hashed: the password's UTF-8 bytes, then the salt's.
pub open spec fn salted_input(password: Seq<char>, salt: Seq<char>) -> Seq<u8> {
    encode_utf8(password) + encode_utf8(salt)
}

/// The stored form of `password` under `salt`.
pub open spec fn password_hash(password: Seq<char>, salt: Seq<char>) -> Seq<char> {
    hex_of(sha256_of(salted_input(password, salt)))
}

/// A password matches a stored hash when hashing it with the salt gives that hash.
pub open spec fn password_matches(password: Seq<char>, stored: Seq<char>, salt: Seq<char>) -> bool {
    password_hash(password, salt) == stored
}

/// Relies on sha2's `Sha256::digest`: the SHA-256 digest of `data`, 32 bytes.
#[verifier::external_body]
fn sha256(data: &[u8]) -> (r: Vec<u8>)
    ensures
        r@ == sha256_of(data@),
        r@.len() == 32,
{
    sha2::Sha256::digest(data).to_vec()
}

/// Relies on `hex::encode`: two lower-case hex digits per byte, high nibble first.
#[verifier::external_body]
fn hex_encode(data: &[u8]) -> (r: String)
    ensures
        r@ == hex_of(data@),
{
    hex::encode(data)
}

/// The UTF-8 bytes of the password followed by those of the salt.
fn salted_bytes(password: &str, salt: &str) -> (r: Vec<u8>)
    ensures
        r@ == salted_input(password@, salt@),
{
    let p = password.as_bytes();
    let s = salt.as_bytes();
    let mut out: Vec<u8> = Vec::new();
    let mut i: usize = 0;
    while i < p.len()
        invariant
            i <= p@.len(),
            out@ == p@.subrange(0, i as int),
        decreases p@.len() - i,
    {
        out.push(p[i]);
        i = i + 1;
    }
    let mut j: usize = 0;
    while j < s.len()
        invariant
            j <= s@.len(),
            p@ == encode_utf8(password@),
            out@ == p@ + s@.subrange(0, j as int),
        decreases s@.len() - j,
    {
        out.push(s[j]);
        j = j + 1;
    }
    assert(p@.subrange(0, p@.len() as int) == p@);
    assert(s@.subrange(0, s@.len() as int) == s@);
    out
}

/// Hashes `password` with `salt` into the stored form.
pub fn hash_password(password: &str, salt: &str) -> (r: String)
    ensures
        r@ == password_hash(password@, salt@),
{
    let input = salted_bytes(password, salt);
    let digest = sha256(input.as_slice());
    hex_encode(digest.as_slice())
}

/// Compares two texts without stopping at the first difference.
pub fn digests_equal(computed: &str, stored: &str) -> (r: bool)
    ensures
        r == (computed@ == stored@),
{
    let a = computed.as_bytes();
    let b = stored.as_bytes();
    proof {
        vstd::utf8::encode_utf8_decode_utf8(computed@);
        vstd::utf8::encode_utf8_decode_utf8(stored@);
    }
    if a.len() != b.len() {
        return false;
    }
    let mut same = true;
    let mut i: usize = 0;
    assert(a@.subrange(0, 0) == b@.subrange(0, 0));
    while i < a.len()
        invariant
            i <= a@.len(),
            a@.len() == b@.len(),
            same == (a@.subrange(0, i as int) == b@.subrange(0, i as int)),
        decreases a@.len() - i,
    {
        let eq = a[i] == b[i];
        proof {
            assert(a@.subrange(0, i + 1) == a@.subrange(0, i as int).push(a@[i as int]));
            assert(b@.subrange(0, i + 1) == b@.subrange(0, i as int).push(b@[i as int]));
            if same && !eq {
                assert(a@.subrange(0, i + 1)[i as int] != b@.subrange(0, i + 1)[i as int]);
            }
            if !same {
                if a@.subrange(0, i + 1) == b@.subrange(0, i + 1) {
                    assert(a@.subrange(0, i as int) == a@.subrange(0, i + 1).subrange(0, i as int));
                    assert(b@.subrange(0, i as int) == b@.subrange(0, i + 1).subrange(0, i as int));
                }
            }
        }
        same = if eq { same } else { false };
        i = i + 1;
    }
    assert(a@.subrange(0, a@.len() as int) == a@);
    assert(b@.subrange(0, b@.len() as int) == b@);
    same
}

/// Checks a plaintext password against a stored hash and its salt.
pub fn verify_password(password: &str, stored_hash: &str, salt: &str) -> (r: bool)
    ensures
        r == password_matches(password@, stored_hash@, salt@),
{
    let computed = hash_password(password, salt);
    digests_equal(computed.as_str(), stored_hash)
}

/// A password always matches the hash made from it with the same salt.
pub proof fn lemma_own_hash_matches(password: Seq<char>, salt: Seq<char>)
    ensures
        password_matches(password, password_hash(password, salt), salt),
{
}

} // verus!
