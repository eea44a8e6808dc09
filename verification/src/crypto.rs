use aes_gcm::aead::{Aead, AeadCore, KeyInit, OsRng};
use aes_gcm::{Aes256Gcm, Nonce};
use vstd::prelude::*;
use vstd::string::StringSliceAdditionalSpecFns;

use crate::encoding::{hex_decode, hex_decode_str, utf8_decode, utf8_to_string};
use crate::errors::AppError;

verus! {

/// Number of bytes of the random nonce that opens every envelope.
pub const NONCE_LENGTH: usize = 12;

/// What AES-256-GCM encryption with no associated data returns for a given
/// 32-byte key, 12-byte nonce and plaintext: the ciphertext with its
/// 16-byte authentication tag appended.
pub uninterp spec fn aes256_gcm_seal(key: Seq<u8>, nonce: Seq<u8>, plaintext: Seq<u8>) -> Seq<u8>;

/// What AES-256-GCM decryption with no associated data returns for a given
/// 32-byte key, 12-byte nonce and tagged ciphertext: the plaintext, or
/// nothing when the authentication tag does not verify.
pub uninterp spec fn aes256_gcm_open(key: Seq<u8>, nonce: Seq<u8>, ciphertext: Seq<u8>) -> Option<Seq<u8>>;

/// What opening a whole envelope under a key yields: the first 12 bytes are
/// the nonce, the rest the tagged ciphertext; an envelope shorter than a
/// nonce opens to nothing.
pub open spec fn envelope_open(key: Seq<u8>, envelope: Seq<u8>) -> Option<Seq<u8>> {
    if envelope.len() < 12 {
        None
    } else {
        aes256_gcm_open(key, envelope.subrange(0, 12), envelope.subrange(12, envelope.len() as int))
    }
}

/// The text a successful decryption of the envelope under the key returns.
pub open spec fn decrypt_model(key: Seq<u8>, envelope: Seq<u8>) -> Option<Seq<char>> {
    match envelope_open(key, envelope) {
        Some(b) => utf8_decode(b),
        None => None,
    }
}

/// Relies on aes_gcm's `Aes256Gcm` (`KeyInit::new_from_slice`, then
/// `Aead::encrypt` with no associated data): on a 32-byte key and 12-byte
/// nonce it returns ciphertext of plaintext length plus the 16-byte tag,
/// which `Aead::decrypt` restores to the plaintext; it fails only on
/// plaintexts longer than 2^36 bytes.
#[verifier::external_body]
fn aead_encrypt(key: &[u8], nonce: &[u8], plaintext: &[u8]) -> (r: Option<Vec<u8>>)
    requires
        key@.len() == 32,
        nonce@.len() == 12,
    ensures
        r matches Some(c) ==> ({
            &&& c@ == aes256_gcm_seal(key@, nonce@, plaintext@)
            &&& c@.len() == plaintext@.len() + 16
            &&& aes256_gcm_open(key@, nonce@, c@) == Some(plaintext@)
        }),
        plaintext@.len() <= 0x1000000000 ==> r is Some,
{
    let cipher = match Aes256Gcm::new_from_slice(key) {
        Ok(c) => c,
        Err(_) => return None,
    };
    match cipher.encrypt(Nonce::from_slice(nonce), plaintext) {
        Ok(c) => Some(c),
        Err(_) => None,
    }
}

/// Relies on aes_gcm's `Aes256Gcm` (`KeyInit::new_from_slice`, then
/// `Aead::decrypt` with no associated data): on a 32-byte key and 12-byte
/// nonce it returns the plaintext exactly when the tag verifies.
#[verifier::external_body]
fn aead_decrypt(key: &[u8], nonce: &[u8], ciphertext: &[u8]) -> (r: Option<Vec<u8>>)
    requires
        key@.len() == 32,
        nonce@.len() == 12,
    ensures
        match r {
            Some(p) => aes256_gcm_open(key@, nonce@, ciphertext@) == Some(p@),
            None => aes256_gcm_open(key@, nonce@, ciphertext@) is None,
        },
{
    let cipher = match Aes256Gcm::new_from_slice(key) {
        Ok(c) => c,
        Err(_) => return None,
    };
    match cipher.decrypt(Nonce::from_slice(nonce), ciphertext) {
        Ok(p) => Some(p),
        Err(_) => None,
    }
}

/// Relies on aes_gcm's `AeadCore::generate_nonce` over `OsRng`: a fresh
/// 12-byte nonce drawn from the operating system's cryptographically
/// secure random source. Nothing ties one draw to another.
#[verifier::external_body]
fn generate_nonce() -> (r: Vec<u8>)
    ensures
        r@.len() == 12,
{
    Aes256Gcm::generate_nonce(&mut OsRng).to_vec()
}

/// Decodes and validates the hex-encoded encryption key: accepted exactly
/// when the text is valid hex for 32 bytes.
pub fn get_key(key_hex: &str) -> (r: Result<Vec<u8>, AppError>)
    ensures
        r matches Ok(k) ==> hex_decode(key_hex@) == Some(k@) && k@.len() == 32,
        r is Ok <==> (hex_decode(key_hex@) matches Some(b) && b.len() == 32),
        r matches Err(e) ==> e is ConfigurationError,
{
    match hex_decode_str(key_hex) {
        Some(k) => {
            if k.len() == 32 {
                Ok(k)
            } else {
                Err(AppError::ConfigurationError)
            }
        },
        None => Err(AppError::ConfigurationError),
    }
}

/// Appends every byte of `src` to `dst`, in order.
fn push_bytes(dst: &mut Vec<u8>, src: &[u8])
    ensures
        final(dst)@ == old(dst)@ + src@,
{
    let ghost dst0 = dst@;
    let mut i: usize = 0;
    while i < src.len()
        invariant
            i <= src@.len(),
            dst@ == dst0 + src@.subrange(0, i as int),
        decreases src@.len() - i,
    {
        let b = src[i];
        dst.push(b);
        i = i + 1;
        proof {
            assert(dst@ =~= dst0 + src@.subrange(0, i as int));
        }
    }
    proof {
        assert(src@.subrange(0, src@.len() as int) =~= src@);
    }
}

/// Law: an envelope laid out as a 12-byte nonce followed by a sealed
/// ciphertext opens, under the same key, to the plaintext that was sealed.
pub proof fn lemma_envelope_round_trip(
    key: Seq<u8>,
    nonce: Seq<u8>,
    ciphertext: Seq<u8>,
    plaintext: Seq<u8>,
)
    requires
        nonce.len() == 12,
        aes256_gcm_open(key, nonce, ciphertext) == Some(plaintext),
    ensures
        envelope_open(key, nonce + ciphertext) == Some(plaintext),
{
    let env = nonce + ciphertext;
    assert(env.subrange(0, 12) =~= nonce);
    assert(env.subrange(12, env.len() as int) =~= ciphertext);
}

/// Encrypts a plaintext message under the 32-byte key: generates a fresh
/// random 12-byte nonce, seals the plaintext's UTF-8 bytes, and prepends
/// the nonce to the tagged ciphertext. Decrypting the produced envelope
/// under the same key yields the plaintext back.
pub fn encrypt(key: &[u8], plaintext: &str) -> (r: Result<Vec<u8>, AppError>)
    requires
        key@.len() == 32,
    ensures
        r matches Ok(env) ==> ({
            &&& env@.len() == plaintext.spec_bytes().len() + 28
            &&& envelope_open(key@, env@) == Some(plaintext.spec_bytes())
            &&& decrypt_model(key@, env@) == Some(plaintext@)
        }),
        plaintext.spec_bytes().len() <= 0x1000000000 ==> r is Ok,
        r matches Err(e) ==> e is CryptoError,
{
    let nonce = generate_nonce();
    let pt_bytes = plaintext.as_bytes();
    let ciphertext = match aead_encrypt(key, nonce.as_slice(), pt_bytes) {
        Some(c) => c,
        None => {
            return Err(AppError::CryptoError);
        },
    };
    let mut envelope: Vec<u8> = Vec::new();
    push_bytes(&mut envelope, nonce.as_slice());
    push_bytes(&mut envelope, ciphertext.as_slice());
    proof {
        lemma_envelope_round_trip(key@, nonce@, ciphertext@, plaintext.spec_bytes());
        vstd::utf8::encode_utf8_valid_utf8(plaintext@);
        vstd::utf8::encode_utf8_decode_utf8(plaintext@);
    }
    Ok(envelope)
}

/// Decrypts an envelope under the 32-byte key: rejects envelopes shorter
/// than a nonce, opens the tagged ciphertext against the leading nonce, and
/// decodes the recovered bytes as UTF-8 text. Fails closed: a tampered
/// envelope or a wrong key is an authentication failure.
pub fn decrypt(key: &[u8], encrypted_data: &[u8]) -> (r: Result<String, AppError>)
    requires
        key@.len() == 32,
    ensures
        r matches Ok(s) ==> decrypt_model(key@, encrypted_data@) == Some(s@),
        decrypt_model(key@, encrypted_data@) matches Some(t) ==> r matches Ok(s) && s@ == t,
        encrypted_data@.len() < 12 ==> (r matches Err(e) && e is FormatError),
        encrypted_data@.len() >= 12 && envelope_open(key@, encrypted_data@) is None ==> (
        r matches Err(e) && e is CryptoError),
        (envelope_open(key@, encrypted_data@) matches Some(b) && utf8_decode(b) is None) ==> (
        r matches Err(e) && e is EncodingError),
{
    if encrypted_data.len() < NONCE_LENGTH {
        return Err(AppError::FormatError);
    }
    let nonce = vstd::slice::slice_subrange(encrypted_data, 0, NONCE_LENGTH);
    let ciphertext = vstd::slice::slice_subrange(
        encrypted_data,
        NONCE_LENGTH,
        encrypted_data.len(),
    );
    let plaintext_bytes = match aead_decrypt(key, nonce, ciphertext) {
        Some(p) => p,
        None => {
            return Err(AppError::CryptoError);
        },
    };
    match utf8_to_string(plaintext_bytes) {
        Some(s) => Ok(s),
        None => Err(AppError::EncodingError),
    }
}

} // verus!
