//! The cryptographic envelope: a fresh random 96-bit nonce per operation,
//! AES-256-GCM over the plaintext, and the URL-safe unpadded base64 encoding
//! of `nonce ‖ ciphertext ‖ tag`. The symmetric key is 32 random bytes and is
//! transported in the same base64 alphabet; it is never held by any structure
//! of this library.

use vstd::prelude::*;
use crate::PasteError;

use aes_gcm::aead::{Aead, AeadCore, KeyInit, OsRng};
use base64::Engine;
use rand::RngCore;

verus! {

/// The URL-safe unpadded base64 encoding of a byte sequence.
pub uninterp spec fn b64_of(bytes: Seq<u8>) -> Seq<char>;

/// The URL-safe unpadded base64 decoding of a character sequence: `None`
/// where the input is not a valid encoding of any byte sequence.
pub uninterp spec fn b64_parse(s: Seq<char>) -> Option<Seq<u8>>;

/// The AES-256-GCM ciphertext (with its 16-byte tag appended) for a key,
/// nonce and plaintext.
pub uninterp spec fn aead_enc(key: Seq<u8>, nonce: Seq<u8>, plaintext: Seq<u8>) -> Seq<u8>;

/// The AES-256-GCM decryption of a tagged ciphertext: `None` where tag
/// verification fails or the input is out of the cipher's bounds.
pub uninterp spec fn aead_dec(key: Seq<u8>, nonce: Seq<u8>, ciphertext: Seq<u8>) -> Option<Seq<u8>>;

/// Relies on base64's `Engine::encode` with the `URL_SAFE_NO_PAD` engine:
/// the result is a pure function of the input bytes, an unpadded encoding of
/// `(4n + 2) / 3` characters, and `Engine::decode` of it with the same engine
/// returns exactly the input bytes. The length bound keeps the crate's
/// internal buffer-size arithmetic from overflowing `usize`.
#[verifier::external_body]
fn b64_encode(bytes: &[u8]) -> (r: String)
    requires
        bytes@.len() <= usize::MAX / 4,
    ensures
        r@ == b64_of(bytes@),
        b64_parse(r@) == Some(bytes@),
        r@.len() == (bytes@.len() * 4 + 2) / 3,
{
    base64::engine::general_purpose::URL_SAFE_NO_PAD.encode(bytes)
}

#[verifier::external_type_specification]
#[verifier::external_body]
pub struct ExDecodeError(base64::DecodeError);

/// Relies on base64's `Engine::decode` with the `URL_SAFE_NO_PAD` engine: the
/// result is a pure function of the input; it is `Ok` exactly on valid
/// unpadded encodings and returns the encoded bytes.
#[verifier::external_body]
fn b64_decode(s: &str) -> (r: Result<Vec<u8>, base64::DecodeError>)
    ensures
        r matches Ok(v) ==> b64_parse(s@) == Some(v@),
        r is Err ==> b64_parse(s@) is None,
{
    base64::engine::general_purpose::URL_SAFE_NO_PAD.decode(s)
}

#[verifier::external_type_specification]
#[verifier::external_body]
pub struct ExAeadError(aes_gcm::Error);

/// AES-GCM's documented message bound: the cipher refuses a plaintext of
/// more than 2^36 bytes.
pub const AEAD_MAX_BYTES: u64 = 0x10_0000_0000;

/// Relies on `Aes256Gcm::new` and `Aead::encrypt`: the cipher instance is a
/// pure function of the 32-byte key, encryption is deterministic in key,
/// nonce and plaintext, appends a 16-byte tag, fails only when the plaintext
/// exceeds the cipher's 2^36-byte bound, and `Aead::decrypt` of the result
/// under the same key and nonce returns exactly the plaintext.
#[verifier::external_body]
fn aead_seal(key: &[u8; 32], nonce: &Vec<u8>, plaintext: &[u8]) -> (r: Result<
    Vec<u8>,
    aes_gcm::Error,
>)
    requires
        nonce@.len() == 12,
    ensures
        plaintext@.len() <= AEAD_MAX_BYTES ==> r is Ok,
        r matches Ok(c) ==> {
            &&& c@ == aead_enc(key@, nonce@, plaintext@)
            &&& c@.len() == plaintext@.len() + 16
            &&& aead_dec(key@, nonce@, c@) == Some(plaintext@)
        },
{
    let cipher = aes_gcm::Aes256Gcm::new(aes_gcm::Key::<aes_gcm::Aes256Gcm>::from_slice(key));
    cipher.encrypt(aes_gcm::Nonce::from_slice(nonce.as_slice()), plaintext)
}

/// Relies on `Aes256Gcm::new` and `Aead::decrypt`: decryption is
/// deterministic in key, nonce and ciphertext, and is `Err` exactly where
/// tag verification fails or the input is out of the cipher's bounds.
#[verifier::external_body]
fn aead_open(key: &[u8; 32], nonce: &Vec<u8>, ciphertext: &Vec<u8>) -> (r: Result<
    Vec<u8>,
    aes_gcm::Error,
>)
    requires
        nonce@.len() == 12,
    ensures
        r matches Ok(v) ==> aead_dec(key@, nonce@, ciphertext@) == Some(v@),
        r is Err ==> aead_dec(key@, nonce@, ciphertext@) is None,
{
    let cipher = aes_gcm::Aes256Gcm::new(aes_gcm::Key::<aes_gcm::Aes256Gcm>::from_slice(key));
    cipher.decrypt(aes_gcm::Nonce::from_slice(nonce.as_slice()), ciphertext.as_slice())
}

/// Relies on `Aes256Gcm::generate_nonce` with the operating system's secure
/// random source: 12 fresh random bytes. Nothing else can be promised of a
/// random value.
#[verifier::external_body]
fn generate_nonce() -> (r: Vec<u8>)
    ensures
        r@.len() == 12,
{
    aes_gcm::Aes256Gcm::generate_nonce(&mut OsRng).to_vec()
}

/// Relies on `RngCore::fill_bytes` on `OsRng`: fills the buffer from the
/// operating system's secure random source. Nothing can be promised of the
/// values.
#[verifier::external_body]
fn fill_random_key(key: &mut [u8; 32]) {
    OsRng.fill_bytes(key);
}

/// Returns a fresh 256-bit symmetric key from a cryptographically secure
/// random source. The key is returned to the caller and never retained.
pub fn generate_key() -> [u8; 32] {
    let mut key: [u8; 32] = [0u8; 32];
    fill_random_key(&mut key);
    key
}

/// What a transported key string decodes to: the base64 parse of the string,
/// accepted only when it is exactly 32 bytes.
pub open spec fn decode_key_spec(s: Seq<char>) -> Option<Seq<u8>> {
    match b64_parse(s) {
        Some(b) => if b.len() == 32 {
            Some(b)
        } else {
            None
        },
        None => None,
    }
}

/// Transport-encode a key as URL-safe unpadded base64 (43 characters).
/// Decoding the returned string yields exactly this key.
pub fn encode_key(key: &[u8; 32]) -> (r: String)
    ensures
        r@ == b64_of(key@),
        r@.len() == 43,
        decode_key_spec(r@) == Some(key@),
{
    b64_encode(key.as_slice())
}

/// Decode a transported key string. Returns `InvalidKey` exactly when the
/// input is not valid URL-safe unpadded base64 of exactly 32 bytes.
pub fn decode_key(s: &str) -> (r: Result<[u8; 32], PasteError>)
    ensures
        r matches Ok(k) ==> decode_key_spec(s@) == Some(k@),
        r matches Err(e) ==> e == PasteError::InvalidKey && decode_key_spec(s@) is None,
{
    match b64_decode(s) {
        Ok(v) => {
            if v.len() == 32 {
                let mut k: [u8; 32] = [0u8; 32];
                let mut i: usize = 0;
                while i < 32
                    invariant
                        i <= 32,
                        v@.len() == 32,
                        forall|j: int| 0 <= j < i ==> k@[j] == v@[j],
                    decreases 32 - i,
                {
                    k[i] = v[i];
                    i = i + 1;
                }
                proof {
                    assert(k@ =~= v@);
                }
                Ok(k)
            } else {
                Err(PasteError::InvalidKey)
            }
        },
        Err(_) => Err(PasteError::InvalidKey),
    }
}

/// What decrypting an encoded envelope under a key yields: base64-decode,
/// split the 12-byte nonce from the tagged ciphertext, and run authenticated
/// decryption. `None` on any failure.
pub open spec fn decrypt_spec(s: Seq<char>, key: Seq<u8>) -> Option<Seq<u8>> {
    match b64_parse(s) {
        Some(d) => if d.len() >= 12 {
            aead_dec(key, d.take(12), d.skip(12))
        } else {
            None
        },
        None => None,
    }
}

/// Encrypt a plaintext under a key: a fresh random 96-bit nonce, AES-256-GCM
/// with a 128-bit tag, and the URL-safe unpadded base64 encoding of
/// `nonce ‖ ciphertext ‖ tag`. Decrypting the result under the same key
/// yields exactly the plaintext, for every key and every plaintext the
/// cipher accepts at all: the two bounds asked of the caller are the
/// cipher's own 2^36-byte message limit and the room the base64 encoding
/// of `nonce ‖ ciphertext ‖ tag` needs inside `usize`.
pub fn encrypt(plaintext: &[u8], key: &[u8; 32]) -> (r: String)
    requires
        plaintext@.len() <= AEAD_MAX_BYTES,
        plaintext@.len() + 28 <= usize::MAX / 4,
    ensures
        decrypt_spec(r@, key@) == Some(plaintext@),
        r@.len() == ((plaintext@.len() + 28) * 4 + 2) / 3,
        exists|n: Seq<u8>|
            n.len() == 12 && r@ == b64_of(#[trigger] (n + aead_enc(key@, n, plaintext@))),
{
    let nonce = generate_nonce();
    match aead_seal(key, &nonce, plaintext) {
        Ok(mut ciphertext) => {
            let mut combined = nonce;
            let ghost nonce_view = combined@;
            combined.append(&mut ciphertext);
            proof {
                assert(combined@.take(12) =~= nonce_view);
                assert(combined@.skip(12) =~= aead_enc(key@, nonce_view, plaintext@));
            }
            let encoded = b64_encode(combined.as_slice());
            proof {
                assert(encoded@ == b64_of(nonce_view + aead_enc(key@, nonce_view, plaintext@)));
            }
            encoded
        },
        Err(_) => unreached(),
    }
}

/// Decrypt an encoded envelope under a key. Returns the exact plaintext that
/// was encrypted; fails with `DecryptionFailure` exactly when the base64 is
/// malformed, the input is shorter than the 12-byte nonce, or tag
/// verification rejects (wrong key, corruption, tampering) — the cases are
/// deliberately not distinguished.
pub fn decrypt(encoded: &str, key: &[u8; 32]) -> (r: Result<Vec<u8>, PasteError>)
    ensures
        r matches Ok(p) ==> decrypt_spec(encoded@, key@) == Some(p@),
        r matches Err(e) ==> e == PasteError::DecryptionFailure && decrypt_spec(encoded@, key@)
            is None,
{
    match b64_decode(encoded) {
        Ok(decoded) => {
            if decoded.len() < 12 {
                return Err(PasteError::DecryptionFailure);
            }
            let nonce = vstd::slice::slice_to_vec(
                vstd::slice::slice_subrange(decoded.as_slice(), 0, 12),
            );
            let ciphertext = vstd::slice::slice_to_vec(
                vstd::slice::slice_subrange(decoded.as_slice(), 12, decoded.len()),
            );
            proof {
                assert(nonce@ =~= decoded@.take(12));
                assert(ciphertext@ =~= decoded@.skip(12));
            }
            match aead_open(key, &nonce, &ciphertext) {
                Ok(p) => Ok(p),
                Err(_) => Err(PasteError::DecryptionFailure),
            }
        },
        Err(_) => Err(PasteError::DecryptionFailure),
    }
}

} // verus!
