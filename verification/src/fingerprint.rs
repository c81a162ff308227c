//! Fingerprints of texts.
use vstd::prelude::*;
use vstd::string::StringExecFns;

verus! {

/// The SHA-256 digest of some bytes.
pub uninterp spec fn sha256_of(bytes: Seq<u8>) -> Seq<u8>;

/// `sha2::Sha256::digest`: the digest, which has 32 bytes.
#[verifier::external_body]
fn sha256(bytes: &[u8]) -> (r: Vec<u8>)
    ensures
        r@ == sha256_of(bytes@),
        r@.len() == 32,
{
    <sha2::Sha256 as sha2::Digest>::digest(bytes).to_vec()
}

/// The lower case hexadecimal digit of a number below sixteen.
pub open spec fn hex_digit(n: u8) -> char {
    if n < 10 {
        (48 + n) as char
    } else {
        (87 + n) as char
    }
}

/// Two lower case hexadecimal digits for each byte, the high four bits first.
pub open spec fn hex_of(bytes: Seq<u8>) -> Seq<char> {
    Seq::new(
        2 * bytes.len(),
        |i: int|
            if i % 2 == 0 {
                hex_digit(bytes[i / 2] / 16)
            } else {
                hex_digit(bytes[i / 2] % 16)
            },
    )
}

/// `hex::encode`: two lower case hexadecimal digits for each byte.
#[verifier::external_body]
fn hex_encode(bytes: &[u8]) -> (r: String)
    ensures
        r@ == hex_of(bytes@),
{
    hex::encode(bytes)
}

/// The fingerprint of a text: the digest of its UTF-8 bytes in hexadecimal
/// digits, behind the name of the algorithm.
pub open spec fn fingerprint_of(value: Seq<char>) -> Seq<char> {
    "sha256:"@ + hex_of(sha256_of(vstd::utf8::encode_utf8(value)))
}

/// The fingerprint of a text.
pub fn fingerprint(value: &str) -> (r: String)
    ensures
        r@ == fingerprint_of(value@),
        r@.len() == 71,
{
    let digest = sha256(value.as_bytes());
    let digits = hex_encode(digest.as_slice());
    proof {
        reveal_strlit("sha256:");
    }
    "sha256:".to_string().concat(digits.as_str())
}

/// The value of a lower case hexadecimal digit.
pub open spec fn hex_value(c: char) -> int {
    if '0' <= c <= '9' {
        c as int - '0' as int
    } else {
        c as int - 'a' as int + 10
    }
}

/// A fingerprint names its algorithm and holds the digest of the UTF-8 bytes of
/// the text, byte after byte, each as two hexadecimal digits.
pub proof fn law_fingerprints_hold_the_digest(value: Seq<char>, k: int)
    ensures
        "sha256:"@.is_prefix_of(fingerprint_of(value)),
        ({
            let digest = sha256_of(vstd::utf8::encode_utf8(value));
            &&& fingerprint_of(value).len() == 7 + 2 * digest.len()
            &&& 0 <= k < digest.len() ==> 16 * hex_value(fingerprint_of(value)[7 + 2 * k]) + hex_value(
                fingerprint_of(value)[8 + 2 * k],
            ) == digest[k]
        }),
{
    reveal_strlit("sha256:");
    let digest = sha256_of(vstd::utf8::encode_utf8(value));
    let digits = hex_of(digest);
    assert(fingerprint_of(value).subrange(0, 7) =~= "sha256:"@);
    if 0 <= k < digest.len() {
        assert(fingerprint_of(value)[7 + 2 * k] == digits[2 * k]);
        assert(fingerprint_of(value)[8 + 2 * k] == digits[2 * k + 1]);
        assert((2 * k) / 2 == k && (2 * k + 1) / 2 == k);
    }
}

} // verus!
