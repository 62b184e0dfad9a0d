//! Lowercase hex rendering of byte strings, and SHA-256 digests of
//! common owned and borrowed byte carriers.

use vstd::prelude::*;
use vstd::string::StringSliceAdditionalSpecFns;

verus! {

/// The lowercase ASCII hex digit for a nibble: `0`..`9` then `a`..`f`.
pub open spec fn spec_hex_digit(n: u8) -> u8 {
    if n < 10 {
        (n + 48) as u8
    } else {
        (n + 87) as u8
    }
}

/// The lowercase hex rendering of a byte string, as ASCII bytes: two
/// digits per byte, high nibble first.
pub open spec fn spec_hex_bytes(bs: Seq<u8>) -> Seq<u8>
    decreases bs.len(),
{
    if bs.len() == 0 {
        Seq::empty()
    } else {
        spec_hex_bytes(bs.drop_last()) + seq![
            spec_hex_digit((bs.last() & 0xf0) >> 4),
            spec_hex_digit(bs.last() & 0x0f),
        ]
    }
}

/// The lowercase hex rendering of a byte string, as characters.
pub open spec fn spec_hex_str(bs: Seq<u8>) -> Seq<char> {
    spec_hex_bytes(bs).map_values(|b: u8| b as char)
}

/// Hex renderings are ASCII and twice as long as their input.
pub proof fn lemma_hex_bytes_ascii(bs: Seq<u8>)
    ensures
        spec_hex_bytes(bs).len() == 2 * bs.len(),
        forall|i: int| 0 <= i < spec_hex_bytes(bs).len() ==> spec_hex_bytes(bs)[i] < 0x80,
    decreases bs.len(),
{
    if bs.len() > 0 {
        lemma_hex_bytes_ascii(bs.drop_last());
        let b = bs.last();
        assert((b & 0xf0) >> 4 < 16 && b & 0x0f < 16) by (bit_vector);
    }
}

/// The ASCII digit character for one nibble of a byte: `0`..`9` for
/// values below ten, lowercase `a`..`f` for the rest.
pub fn u8_to_ascii_char(n: u8) -> (r: u8)
    requires
        n < 16,
    ensures
        r == spec_hex_digit(n),
{
    if n < 0xA {
        n + 48
    } else {
        n + 87
    }
}

/// Renders a byte string as lowercase hex, two digits per byte. The
/// rendering is ASCII, so the conversion to a string always succeeds.
pub fn bytes_to_string(bs: &[u8]) -> (r: Result<String, std::string::FromUtf8Error>)
    ensures
        r is Ok,
        r matches Ok(s) ==> s@ == spec_hex_str(bs@),
{
    let mut buf: Vec<u8> = Vec::new();
    let mut i: usize = 0;
    while i < bs.len()
        invariant
            i <= bs@.len(),
            buf@ == spec_hex_bytes(bs@.take(i as int)),
        decreases bs@.len() - i,
    {
        let b = *vstd::slice::slice_index_get(bs, i);
        proof {
            assert((b & 0xf0) >> 4 < 16 && b & 0x0f < 16) by (bit_vector);
            assert(bs@.take(i + 1).drop_last() =~= bs@.take(i as int));
            assert(bs@.take(i + 1).last() == bs@[i as int]);
        }
        let high = (b & 0xf0) >> 4;
        let low = b & 0x0f;
        buf.push(u8_to_ascii_char(high));
        buf.push(u8_to_ascii_char(low));
        i = i + 1;
    }
    proof {
        assert(bs@.take(bs@.len() as int) =~= bs@);
        lemma_hex_bytes_ascii(bs@);
    }
    ascii_to_string(buf)
}

/// What SHA-256 assigns to a byte string; the digest depends on the
/// bytes alone.
pub uninterp spec fn sha256_of(data: Seq<u8>) -> Seq<u8>;

/// Relies on crypto::sha2::Sha256 through crypto::digest::Digest:
/// `input` absorbs the bytes, `result` writes the 32-byte digest, and
/// the digest is a function of the input bytes alone.
#[verifier::external_body]
fn sha256_digest(data: &[u8]) -> (r: Vec<u8>)
    ensures
        r@ == sha256_of(data@),
        r@.len() == 32,
{
    let mut out = vec![0u8; 32];
    let mut sha = crypto::sha2::Sha256::new();
    crypto::digest::Digest::input(&mut sha, data);
    crypto::digest::Digest::result(&mut sha, &mut out);
    out
}

/// The error type `String::from_utf8` reports; never produced here,
/// since every rendering built above is ASCII.
#[verifier::external_type_specification]
#[verifier::external_body]
pub struct ExFromUtf8Error(std::string::FromUtf8Error);

/// Relies on String::from_utf8: on bytes below 0x80 (ASCII, hence valid
/// UTF-8) it succeeds, and the string's characters are the bytes.
#[verifier::external_body]
fn ascii_to_string(bytes: Vec<u8>) -> (r: Result<String, std::string::FromUtf8Error>)
    ensures
        (forall|i: int| 0 <= i < bytes@.len() ==> bytes@[i] < 0x80) ==> {
            &&& r is Ok
            &&& (r matches Ok(s) ==> s@ == bytes@.map_values(|b: u8| b as char))
        },
{
    String::from_utf8(bytes)
}

/// A value with a distinguished byte-string form and its SHA-256 digest.
pub trait ToSha256 {
    /// The byte string the digest is computed over.
    spec fn digest_input(&self) -> Seq<u8>;

    /// The 32-byte SHA-256 digest of this value's byte string.
    fn to_sha256(&self) -> (r: Vec<u8>)
        ensures
            r@ == sha256_of(self.digest_input()),
            r@.len() == 32,
    ;

    /// The digest rendered as 64 lowercase hex characters.
    fn to_sha256_str(&self) -> (r: String)
        ensures
            r@ == spec_hex_str(sha256_of(self.digest_input())),
    ;
}

impl ToSha256 for Vec<u8> {
    open spec fn digest_input(&self) -> Seq<u8> {
        self@
    }

    fn to_sha256(&self) -> (r: Vec<u8>)
        ensures
            r@ == sha256_of(self@),
            r@.len() == 32,
    {
        sha256_digest(self.as_slice())
    }

    fn to_sha256_str(&self) -> (r: String)
        ensures
            r@ == spec_hex_str(sha256_of(self@)),
    {
        hex_of_digest(&self.to_sha256())
    }
}

impl ToSha256 for String {
    open spec fn digest_input(&self) -> Seq<u8> {
        vstd::utf8::encode_utf8(self@)
    }

    fn to_sha256(&self) -> (r: Vec<u8>)
        ensures
            r@ == sha256_of(self.digest_input()),
            r@.len() == 32,
    {
        sha256_digest(self.as_str().as_bytes())
    }

    fn to_sha256_str(&self) -> (r: String)
        ensures
            r@ == spec_hex_str(sha256_of(self.digest_input())),
    {
        hex_of_digest(&self.to_sha256())
    }
}

impl ToSha256 for str {
    open spec fn digest_input(&self) -> Seq<u8> {
        self.spec_bytes()
    }

    fn to_sha256(&self) -> (r: Vec<u8>)
        ensures
            r@ == sha256_of(self.digest_input()),
            r@.len() == 32,
    {
        sha256_digest(self.as_bytes())
    }

    fn to_sha256_str(&self) -> (r: String)
        ensures
            r@ == spec_hex_str(sha256_of(self.digest_input())),
    {
        hex_of_digest(&self.to_sha256())
    }
}

impl ToSha256 for [u8] {
    open spec fn digest_input(&self) -> Seq<u8> {
        self@
    }

    fn to_sha256(&self) -> (r: Vec<u8>)
        ensures
            r@ == sha256_of(self.digest_input()),
            r@.len() == 32,
    {
        sha256_digest(self)
    }

    fn to_sha256_str(&self) -> (r: String)
        ensures
            r@ == spec_hex_str(sha256_of(self.digest_input())),
    {
        hex_of_digest(&self.to_sha256())
    }
}

/// Renders an already-computed digest as hex, discharging the
/// impossible conversion error.
fn hex_of_digest(digest: &Vec<u8>) -> (r: String)
    ensures
        r@ == spec_hex_str(digest@),
{
    match bytes_to_string(digest.as_slice()) {
        Ok(s) => s,
        Err(_) => vstd::pervasive::unreached(),
    }
}

} // verus!
