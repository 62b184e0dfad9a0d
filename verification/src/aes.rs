//! AES-256-CBC encryption and decryption with PKCS padding, keyed by a
//! 32-byte key and a 16-byte initialization vector.

use vstd::prelude::*;
use vstd::slice::{slice_subrange, slice_to_vec};
use vstd::string::StringExecFns;
use crypto::aessafe::{AesSafe256Decryptor, AesSafe256Encryptor};
use crypto::blockmodes::{CbcDecryptor, CbcEncryptor, NoPadding, PkcsPadding};
use crypto::buffer::{BufferResult, ReadBuffer, RefReadBuffer, RefWriteBuffer, WriteBuffer};
use crypto::symmetriccipher::{Decryptor, Encryptor};

verus! {

/// What AES-256 in CBC mode with PKCS padding makes of a message under
/// a key and an initialization vector; a function of the three alone.
pub uninterp spec fn aes256_cbc_enc(key: Seq<u8>, iv: Seq<u8>, data: Seq<u8>) -> Seq<u8>;

/// What raw AES-256-CBC decryption, with no padding handling, makes of
/// a byte string whose length is a multiple of the block size; a
/// function of the three arguments alone, as long as its input.
pub uninterp spec fn aes256_cbc_raw_dec(key: Seq<u8>, iv: Seq<u8>, data: Seq<u8>) -> Seq<u8>;

/// The byte length of a PKCS-padded AES ciphertext: empty input stays
/// empty, and any other input gains one block, so a whole number of
/// blocks gains a full extra one.
pub open spec fn spec_aes_ciphertext_len(n: nat) -> nat {
    if n == 0 {
        0
    } else {
        (n / 16 + 1) * 16
    }
}

/// Removes PKCS padding from a decrypted block string: the last byte
/// names the pad width, which must be 1 to 16 bytes of that same value.
/// An empty string stays empty; anything else is rejected.
pub open spec fn spec_pkcs_strip(p: Seq<u8>) -> Option<Seq<u8>> {
    if p.len() == 0 {
        Some(p)
    } else if p.len() % 16 == 0 {
        let pad = p.last() as int;
        if 1 <= pad <= 16 && (forall|j: int| p.len() - pad <= j < p.len() ==> p[j] == p.last()) {
            Some(p.take(p.len() - pad))
        } else {
            None
        }
    } else {
        None
    }
}

/// What AES-256-CBC decryption with PKCS padding recovers from a byte
/// string under a key and an initialization vector: the raw decryption
/// of a whole number of blocks, with a valid pad stripped.
pub open spec fn aes256_cbc_dec(key: Seq<u8>, iv: Seq<u8>, data: Seq<u8>) -> Option<Seq<u8>> {
    if data.len() % 16 == 0 {
        spec_pkcs_strip(aes256_cbc_raw_dec(key, iv, data))
    } else {
        None
    }
}

/// A symmetric cipher: encoding and decoding use the same parameters.
pub trait AESCipher {
    /// The cipher's key bytes.
    spec fn cipher_key(&self) -> Seq<u8>;

    /// The cipher's initialization vector bytes.
    spec fn cipher_iv(&self) -> Seq<u8>;

    /// Whether the cipher's parameters have their required sizes.
    spec fn cipher_wf(&self) -> bool;

    /// Encrypts `input` under the cipher's parameters. Encryption always
    /// succeeds, is a function of key, initialization vector and input
    /// alone, pads to `spec_aes_ciphertext_len`, and decrypting the
    /// result under the same parameters recovers the input.
    fn encode(&mut self, input: &[u8]) -> (r: Result<Vec<u8>, String>)
        requires
            old(self).cipher_wf(),
        ensures
            final(self).cipher_wf(),
            final(self).cipher_key() == old(self).cipher_key(),
            final(self).cipher_iv() == old(self).cipher_iv(),
            r is Ok,
            r matches Ok(c) ==> {
                &&& c@ == aes256_cbc_enc(old(self).cipher_key(), old(self).cipher_iv(), input@)
                &&& c@.len() == spec_aes_ciphertext_len(input@.len())
                &&& aes256_cbc_dec(old(self).cipher_key(), old(self).cipher_iv(), c@) == Some(
                    input@,
                )
            },
    ;

    /// Decrypts `input` under the cipher's parameters: exactly the
    /// inputs with a whole number of blocks and a valid PKCS pad after
    /// raw decryption succeed, and yield `aes256_cbc_dec`.
    fn decode(&mut self, input: &[u8]) -> (r: Result<Vec<u8>, String>)
        requires
            old(self).cipher_wf(),
        ensures
            final(self).cipher_wf(),
            final(self).cipher_key() == old(self).cipher_key(),
            final(self).cipher_iv() == old(self).cipher_iv(),
            r is Ok <==> aes256_cbc_dec(old(self).cipher_key(), old(self).cipher_iv(), input@)
                is Some,
            r matches Ok(p) ==> Some(p@) == aes256_cbc_dec(
                old(self).cipher_key(),
                old(self).cipher_iv(),
                input@,
            ),
    ;
}

/// An AES-256-CBC cipher with PKCS padding: a 256-bit key and a 128-bit
/// initialization vector.
pub struct AESCryptor {
    key: Vec<u8>,
    iv: Vec<u8>,
}

impl AESCryptor {
    /// The key bytes.
    pub closed spec fn key_seq(&self) -> Seq<u8> {
        self.key@
    }

    /// The initialization vector bytes.
    pub closed spec fn iv_seq(&self) -> Seq<u8> {
        self.iv@
    }

    /// The parameter sizes AES-256-CBC requires.
    pub open spec fn wf(&self) -> bool {
        self.key_seq().len() == 32 && self.iv_seq().len() == 16
    }

    /// A cipher under a fresh random key and initialization vector.
    pub fn try_new() -> (r: Result<AESCryptor, String>)
        ensures
            r is Ok,
            r matches Ok(c) ==> c.wf(),
    {
        let key = random_bytes(32);
        let iv = random_bytes(16);
        Self::try_new_with(key.as_slice(), iv.as_slice())
    }

    /// A cipher under the given parameters; a key of other than 32 bytes
    /// or an initialization vector of other than 16 is rejected, each
    /// with its own message.
    pub fn try_new_with(key: &[u8], iv: &[u8]) -> (r: Result<AESCryptor, String>)
        ensures
            key@.len() != 32 ==> (r matches Err(e) && e@ == "key is not 256 bits"@),
            key@.len() == 32 && iv@.len() != 16 ==> (r matches Err(e) && e@
                == "iv is not 128 bits"@),
            key@.len() == 32 && iv@.len() == 16 ==> (r matches Ok(c) && c.key_seq() == key@
                && c.iv_seq() == iv@),
            r matches Ok(c) ==> c.wf() && c.key_seq() == key@ && c.iv_seq() == iv@,
    {
        if key.len() != 32 {
            return Err(String::from_str("key is not 256 bits"));
        }
        if iv.len() != 16 {
            return Err(String::from_str("iv is not 128 bits"));
        }
        Ok(AESCryptor { key: slice_to_vec(key), iv: slice_to_vec(iv) })
    }

    /// A cipher read back from the 48-byte form `to_key_iv_bytes` gives:
    /// the key in the first 32 bytes, the initialization vector in the
    /// last 16.
    pub fn try_from_key_iv(key_iv: &[u8]) -> (r: Result<AESCryptor, String>)
        ensures
            key_iv@.len() != 48 ==> (r matches Err(e) && e@ == "the len of key_iv is not 48"@),
            key_iv@.len() == 48 ==> (r matches Ok(c) && c.wf() && c.key_seq() == key_iv@.subrange(
                0,
                32,
            ) && c.iv_seq() == key_iv@.subrange(32, 48)),
    {
        if key_iv.len() != 48 {
            return Err(String::from_str("the len of key_iv is not 48"));
        }
        Self::try_new_with(slice_subrange(key_iv, 0, 32), slice_subrange(key_iv, 32, 48))
    }

    /// The key and the initialization vector as one 48-byte string, key
    /// first.
    pub fn to_key_iv_bytes(&self) -> (r: Vec<u8>)
        ensures
            r@ == self.key_seq() + self.iv_seq(),
    {
        let mut out = slice_to_vec(self.key.as_slice());
        out.extend_from_slice(self.iv.as_slice());
        out
    }
}

impl AESCipher for AESCryptor {
    open spec fn cipher_key(&self) -> Seq<u8> {
        self.key_seq()
    }

    open spec fn cipher_iv(&self) -> Seq<u8> {
        self.iv_seq()
    }

    open spec fn cipher_wf(&self) -> bool {
        self.wf()
    }

    fn encode(&mut self, input: &[u8]) -> (r: Result<Vec<u8>, String>) {
        match aes256_cbc_encrypt(self.key.as_slice(), self.iv.as_slice(), input) {
            Ok(c) => Ok(c),
            Err(()) => Err(String::from_str("can't encrypt")),
        }
    }

    fn decode(&mut self, input: &[u8]) -> (r: Result<Vec<u8>, String>) {
        match aes256_cbc_decrypt_raw(self.key.as_slice(), self.iv.as_slice(), input) {
            Ok(raw) => match pkcs_strip(raw) {
                Some(p) => Ok(p),
                None => Err(String::from_str("can't decrypt")),
            },
            Err(()) => Err(String::from_str("can't decrypt")),
        }
    }
}

/// Removes PKCS padding, exactly as `spec_pkcs_strip` says: the pad
/// width named by the last byte must be 1 to 16 bytes of that value.
fn pkcs_strip(data: Vec<u8>) -> (r: Option<Vec<u8>>)
    ensures
        r is Some <==> spec_pkcs_strip(data@) is Some,
        r matches Some(v) ==> Some(v@) == spec_pkcs_strip(data@),
{
    let n = data.len();
    if n == 0 {
        return Some(data);
    }
    if n % 16 != 0 {
        return None;
    }
    let pad = data[n - 1];
    if pad < 1 || pad > 16 {
        return None;
    }
    let pad_len = pad as usize;
    let mut j = n - pad_len;
    while j < n
        invariant
            data@.len() == n,
            n - pad_len <= j <= n,
            1 <= pad_len <= 16 <= n,
            pad_len == pad as usize,
            pad == data@.last(),
            forall|k: int| n - pad_len <= k < j ==> data@[k] == data@.last(),
        decreases n - j,
    {
        if data[j] != pad {
            proof {
                assert(exists|k: int|
                    data@.len() - (data@.last() as int) <= k < data@.len() && data@[k]
                        != data@.last()) by {
                    assert(data@.len() - (data@.last() as int) <= (j as int) && (j as int) < data@.len()
                        && data@[j as int] != data@.last());
                }
            }
            return None;
        }
        j = j + 1;
    }
    let mut data = data;
    let ghost full = data@;
    data.truncate(n - pad_len);
    proof {
        assert(data@ =~= spec_pkcs_strip(full)->Some_0);
    }
    Some(data)
}

/// Relies on crypto::blockmodes::CbcEncryptor over
/// crypto::aessafe::AesSafe256Encryptor with PkcsPadding: encryption of
/// a correctly sized key and initialization vector always succeeds (the
/// scratch space below always holds the whole output); the ciphertext
/// is a function of key, initialization vector and input alone; empty
/// input gives empty output and any other gains one block of padding;
/// and decryption under the same parameters recovers the input.
#[verifier::external_body]
fn aes256_cbc_encrypt(key: &[u8], iv: &[u8], data: &[u8]) -> (r: Result<Vec<u8>, ()>)
    requires
        key@.len() == 32,
        iv@.len() == 16,
    ensures
        r is Ok,
        r matches Ok(c) ==> {
            &&& c@ == aes256_cbc_enc(key@, iv@, data@)
            &&& c@.len() == spec_aes_ciphertext_len(data@.len())
            &&& aes256_cbc_dec(key@, iv@, c@) == Some(data@)
        },
{
    let mut cipher = CbcEncryptor::new(AesSafe256Encryptor::new(key), PkcsPadding, iv.to_vec());
    let mut read_buf = RefReadBuffer::new(data);
    let mut space = vec![0u8; data.len() + 32];
    let mut write_buf = RefWriteBuffer::new(&mut space);
    let status = cipher.encrypt(&mut read_buf, &mut write_buf, true).map_err(|_| ())?;
    let out = write_buf.take_read_buffer().take_remaining().to_vec();
    match status {
        BufferResult::BufferUnderflow => Ok(out),
        BufferResult::BufferOverflow => Err(()),
    }
}

/// Relies on crypto::blockmodes::CbcDecryptor over
/// crypto::aessafe::AesSafe256Decryptor with NoPadding: raw decryption
/// succeeds exactly on a whole number of blocks (anything else is an
/// invalid-length error), returns as many bytes as it was given, and is
/// a function of key, initialization vector and input alone. NoPadding
/// never touches the output buffer, so no input can drive the padding
/// strip off the end of a block; the pad is removed by `pkcs_strip`
/// above, verified.
#[verifier::external_body]
fn aes256_cbc_decrypt_raw(key: &[u8], iv: &[u8], data: &[u8]) -> (r: Result<Vec<u8>, ()>)
    requires
        key@.len() == 32,
        iv@.len() == 16,
    ensures
        r is Ok <==> data@.len() % 16 == 0,
        r matches Ok(p) ==> p@ == aes256_cbc_raw_dec(key@, iv@, data@) && p@.len() == data@.len(),
{
    let mut cipher = CbcDecryptor::new(AesSafe256Decryptor::new(key), NoPadding, iv.to_vec());
    let mut read_buf = RefReadBuffer::new(data);
    let mut space = vec![0u8; data.len()];
    let mut write_buf = RefWriteBuffer::new(&mut space);
    let status = cipher.decrypt(&mut read_buf, &mut write_buf, true).map_err(|_| ())?;
    let out = write_buf.take_read_buffer().take_remaining().to_vec();
    match status {
        BufferResult::BufferUnderflow => Ok(out),
        BufferResult::BufferOverflow => Err(()),
    }
}

/// Relies on rand::rngs::ThreadRng's RngCore::fill_bytes: it fills the
/// whole buffer; of random content nothing more can be said.
#[verifier::external_body]
fn random_bytes(n: usize) -> (r: Vec<u8>)
    ensures
        r@.len() == n,
{
    let mut buf = vec![0u8; n];
    rand::RngCore::fill_bytes(&mut rand::thread_rng(), &mut buf);
    buf
}

} // verus!
