//! Content checksum of a DataStore entry write.
use base64::Engine;
use md5::Digest;
use vstd::prelude::*;
use vstd::utf8::encode_utf8;

verus! {

/// The 16-byte MD5 digest of `b`.
pub uninterp spec fn md5_of(b: Seq<u8>) -> Seq<u8>;

/// Standard base64 text (with padding) of `b`.
pub uninterp spec fn base64_of(b: Seq<u8>) -> Seq<char>;

/// Relies on md-5's `Md5::digest`: the MD5 digest of `b`, which is 16 bytes
/// and depends on `b` alone.
#[verifier::external_body]
fn md5_digest(b: &[u8]) -> (r: Vec<u8>)
    ensures
        r@ == md5_of(b@),
        r@.len() == 16,
{
    md5::Md5::digest(b).to_vec()
}

/// The length and padding of standard base64 text of `n` bytes: four
/// characters for each started group of three bytes, the last group padded
/// with `=` to four characters.
pub open spec fn padded_base64_shape(r: Seq<char>, n: nat) -> bool {
    &&& r.len() == 4 * ((n + 2) / 3)
    &&& n % 3 == 1 ==> r[r.len() - 1] == '=' && r[r.len() - 2] == '='
    &&& n % 3 == 2 ==> r[r.len() - 1] == '=' && r[r.len() - 2] != '='
    &&& n % 3 == 0 && n > 0 ==> r[r.len() - 1] != '='
}

/// Relies on base64's `STANDARD.encode`: standard base64 with padding, which
/// depends on `b` alone, four characters for each started group of three
/// bytes.
#[verifier::external_body]
fn base64_encode(b: &[u8]) -> (r: String)
    ensures
        r@ == base64_of(b@),
        padded_base64_shape(r@, b@.len()),
{
    base64::engine::general_purpose::STANDARD.encode(b)
}

/// The `content-md5` value of a body: base64 of the MD5 digest of its
/// UTF-8 bytes.
pub open spec fn checksum_of(data: Seq<char>) -> Seq<char> {
    base64_of(md5_of(encode_utf8(data)))
}

/// Base64 text of the MD5 digest of the UTF-8 bytes of `data`: 24
/// characters, the last two `=`.
pub fn get_checksum_base64(data: &String) -> (r: String)
    ensures
        r@ == checksum_of(data@),
        r@.len() == 24,
        r@[22] == '=' && r@[23] == '=',
{
    let digest = md5_digest(data.as_str().as_bytes());
    base64_encode(digest.as_slice())
}

} // verus!
