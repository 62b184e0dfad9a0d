//! RSA key pairs with PKCS#1 v1.5 padding: generate a pair, publish the
//! public half as PEM, encrypt with a peer's public key, decrypt with
//! the private one.

use vstd::prelude::*;

verus! {

/// The error type of the rsa crate's key and cipher operations.
#[verifier::external_type_specification]
#[verifier::external_body]
pub struct ExRsaCryptError(rsa::errors::Error);

/// The error type of the rsa crate's PEM key encoding and decoding.
#[verifier::external_type_specification]
#[verifier::external_body]
pub struct ExRsaParseError(rsa::pkcs8::spki::Error);

/// The rsa crate's private key.
#[verifier::external_type_specification]
#[verifier::external_body]
pub struct ExRsaPrivateKey(rsa::RsaPrivateKey);

/// The rsa crate's public key.
#[verifier::external_type_specification]
#[verifier::external_body]
pub struct ExRsaPublicKey(rsa::RsaPublicKey);

/// What RSA operations report: a cipher or key error, or a failure to
/// parse or render a PEM key.
pub enum RSAError {
    CryptError(rsa::errors::Error),
    ParseError(rsa::pkcs8::spki::Error),
}

/// An RSA-2048 key pair, or the public half of a peer's: the private
/// key is absent on a pair parsed from a peer's PEM text, and such a
/// pair can only encrypt.
pub struct RSAKeyPair {
    pri_key: Option<rsa::RsaPrivateKey>,
    pub_key: rsa::RsaPublicKey,
}

impl RSAKeyPair {
    /// Whether the private half is present, so that `decrypt` can work.
    pub closed spec fn spec_has_private(&self) -> bool {
        self.pri_key is Some
    }

    /// Whether the private half is present.
    pub fn has_private(&self) -> (r: bool)
        ensures
            r == self.spec_has_private(),
    {
        self.pri_key.is_some()
    }

    /// Generates a fresh 2048-bit pair with both halves present.
    pub fn new() -> (r: Result<RSAKeyPair, RSAError>)
        ensures
            r matches Ok(kp) ==> kp.spec_has_private(),
    {
        let bits: usize = 2048;
        match rsa_generate(bits) {
            Ok(pri_key) => {
                let pub_key = rsa_public_of(&pri_key);
                Ok(RSAKeyPair { pri_key: Some(pri_key), pub_key })
            },
            Err(e) => Err(RSAError::CryptError(e)),
        }
    }

    /// The public half of a pair read back from its PEM text; the
    /// private half is absent.
    pub fn from_public_key_pem(key: &str) -> (r: Result<RSAKeyPair, RSAError>)
        ensures
            r matches Ok(kp) ==> !kp.spec_has_private(),
    {
        match rsa_from_pem(key) {
            Ok(pub_key) => Ok(RSAKeyPair { pri_key: None, pub_key }),
            Err(e) => Err(RSAError::ParseError(e)),
        }
    }

    /// Encrypts under the public key with PKCS#1 v1.5 padding; the
    /// padding is randomized, so nothing relates two ciphertexts of one
    /// message. Input longer than the key allows (245 bytes for 2048
    /// bits) is reported as a cipher error.
    pub fn encrypt(&self, input: &[u8]) -> (r: Result<Vec<u8>, RSAError>)
        ensures
            r is Err ==> r matches Err(RSAError::CryptError(_)),
    {
        match rsa_encrypt(&self.pub_key, input) {
            Ok(c) => Ok(c),
            Err(e) => Err(RSAError::CryptError(e)),
        }
    }

    /// Decrypts under the private key with PKCS#1 v1.5 padding. A pair
    /// without its private half reports a cipher error on every input.
    pub fn decrypt(&self, input: &[u8]) -> (r: Result<Vec<u8>, RSAError>)
        ensures
            !self.spec_has_private() ==> r matches Err(RSAError::CryptError(_)),
    {
        match &self.pri_key {
            Some(pri_key) => {
                match rsa_decrypt(pri_key, input) {
                    Ok(p) => Ok(p),
                    Err(e) => Err(RSAError::CryptError(e)),
                }
            },
            None => Err(RSAError::CryptError(rsa_verification_error())),
        }
    }

    /// The public half rendered as PEM text.
    pub fn public_key_bytes(&self) -> (r: Result<String, RSAError>)
        ensures
            r is Err ==> r matches Err(RSAError::ParseError(_)),
    {
        match rsa_to_pem(&self.pub_key) {
            Ok(s) => Ok(s),
            Err(e) => Err(RSAError::ParseError(e)),
        }
    }
}

/// Relies on rsa::RsaPrivateKey::new with rand::thread_rng: a fresh key
/// of the asked-for size; of a random key nothing more can be said.
#[verifier::external_body]
fn rsa_generate(bits: usize) -> Result<rsa::RsaPrivateKey, rsa::errors::Error> {
    rsa::RsaPrivateKey::new(&mut rand::thread_rng(), bits)
}

/// Relies on rsa's `impl From<&RsaPrivateKey> for RsaPublicKey`: the
/// public half of a private key.
#[verifier::external_body]
fn rsa_public_of(key: &rsa::RsaPrivateKey) -> rsa::RsaPublicKey {
    rsa::RsaPublicKey::from(key)
}

/// Relies on rsa::PublicKey::encrypt with PKCS#1 v1.5 padding and
/// rand::thread_rng: the padding is randomized, so nothing can be said
/// of the ciphertext bytes.
#[verifier::external_body]
fn rsa_encrypt(key: &rsa::RsaPublicKey, data: &[u8]) -> Result<Vec<u8>, rsa::errors::Error> {
    rsa::PublicKey::encrypt(key, &mut rand::thread_rng(), rsa::PaddingScheme::new_pkcs1v15_encrypt(), data)
}

/// Relies on rsa::RsaPrivateKey::decrypt with PKCS#1 v1.5 padding.
#[verifier::external_body]
fn rsa_decrypt(key: &rsa::RsaPrivateKey, data: &[u8]) -> Result<Vec<u8>, rsa::errors::Error> {
    key.decrypt(rsa::PaddingScheme::new_pkcs1v15_encrypt(), data)
}

/// Relies on rsa::errors::Error::Verification being a plain variant:
/// the error a keyless decrypt reports.
#[verifier::external_body]
fn rsa_verification_error() -> rsa::errors::Error {
    rsa::errors::Error::Verification
}

/// Relies on rsa::pkcs8::EncodePublicKey::to_public_key_pem: the PEM
/// rendering of a public key.
#[verifier::external_body]
fn rsa_to_pem(key: &rsa::RsaPublicKey) -> Result<String, rsa::pkcs8::spki::Error> {
    rsa::pkcs8::EncodePublicKey::to_public_key_pem(key, rsa::pkcs8::LineEnding::LF)
}

/// Relies on rsa::pkcs8::DecodePublicKey::from_public_key_pem: the
/// public key a PEM text declares, or a parse error.
#[verifier::external_body]
fn rsa_from_pem(key: &str) -> Result<rsa::RsaPublicKey, rsa::pkcs8::spki::Error> {
    <rsa::RsaPublicKey as rsa::pkcs8::DecodePublicKey>::from_public_key_pem(key)
}

} // verus!
