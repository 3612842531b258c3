//! AES-256-GCM-SIV encryption of clipboard content.
//!
//! A `CryptoEngine` owns one symmetric key. Payloads sealed under a key are
//! decryptable only while that key is current; regenerating the key orphans
//! them. What the cipher computes is named by the uninterpreted functions
//! `seal_of` and `open_of`; the trusted wrappers around the `aes_gcm_siv`
//! crate state how encryption and decryption relate through those names.

use crate::base64::{b64_decode, b64_encode, base64_decode, base64_encode, lemma_b64_round_trip};
use crate::hash::{fnv1a, hex16, to_hex16};
use aes_gcm_siv::aead::Aead;
use aes_gcm_siv::{Aes256GcmSiv, KeyInit};
use rand::TryRng;
use vstd::prelude::*;
use zeroize::Zeroize;

verus! {

/// Ways a cryptographic operation can fail.
#[derive(Debug, Clone)]
pub enum CryptoError {
    /// Key generation failed.
    KeyGenerationFailed,
    /// Encryption failed.
    EncryptionFailed,
    /// Decryption failed: wrong key epoch, corruption, or tampering.
    DecryptionFailed,
    /// The ciphertext is not in the surrogate format.
    InvalidCiphertext,
    /// A memory operation failed.
    MemoryError(String),
}

impl CryptoError {
    /// A short description of the failure.
    pub fn message(&self) -> (r: &'static str)
        ensures
            r@.len() > 0,
    {
        let r = match self {
            CryptoError::KeyGenerationFailed => "key generation failed",
            CryptoError::EncryptionFailed => "encryption failed",
            CryptoError::DecryptionFailed => "decryption failed",
            CryptoError::InvalidCiphertext => "invalid ciphertext format",
            CryptoError::MemoryError(_) => "memory operation failed",
        };
        proof {
            reveal_strlit("key generation failed");
            reveal_strlit("encryption failed");
            reveal_strlit("decryption failed");
            reveal_strlit("invalid ciphertext format");
            reveal_strlit("memory operation failed");
        }
        r
    }
}

/// The ciphertext AES-256-GCM-SIV produces for a key, a nonce and a
/// plaintext. Uninterpreted: the cipher's output is a pure function of
/// those three, and nothing else is assumed of its shape.
pub uninterp spec fn seal_of(key: Seq<u8>, nonce: Seq<u8>, pt: Seq<u8>) -> Seq<u8>;

/// The plaintext AES-256-GCM-SIV recovers for a key, a nonce and a
/// ciphertext, if the authentication tag verifies; `None` otherwise.
pub uninterp spec fn open_of(key: Seq<u8>, nonce: Seq<u8>, ct: Seq<u8>) -> Option<Seq<u8>>;

/// The largest plaintext AES-GCM-SIV accepts (RFC 8452).
pub const MAX_PLAINTEXT_LENGTH: u64 = 68719476736;

/// Relies on `rand::rngs::SysRng::try_fill_bytes` (the operating system's
/// random number generator): on success the buffer holds `n` random bytes.
/// Nothing is assumed of their values.
#[verifier::external_body]
fn sys_random_bytes(n: usize) -> (r: Option<Vec<u8>>)
    ensures
        r is Some ==> r->0@.len() == n,
{
    let mut buf = vec![0u8; n];
    let mut rng = rand::rngs::SysRng;
    match rng.try_fill_bytes(&mut buf) {
        Ok(()) => Some(buf),
        Err(_) => None,
    }
}

/// Symmetric key material that is wiped, not merely dropped, when replaced.
pub struct SecureKey {
    key_data: Vec<u8>,
}

impl View for SecureKey {
    type V = Seq<u8>;

    closed spec fn view(&self) -> Seq<u8> {
        self.key_data@
    }
}

impl SecureKey {
    /// A key holds exactly the AES-256 key length of material.
    pub open spec fn wf(&self) -> bool {
        self@.len() == crate::KEY_LENGTH
    }

    /// Generate a fresh random key from the system's random number
    /// generator.
    pub fn generate() -> (r: Result<SecureKey, CryptoError>)
        ensures
            r is Ok ==> r->Ok_0.wf(),
            r is Err ==> r->Err_0 == CryptoError::KeyGenerationFailed,
    {
        match sys_random_bytes(crate::KEY_LENGTH) {
            Some(bytes) => Ok(SecureKey { key_data: bytes }),
            None => Err(CryptoError::KeyGenerationFailed),
        }
    }

    /// The raw key bytes.
    pub fn as_bytes(&self) -> (r: &[u8])
        ensures
            r@ == self@,
    {
        self.key_data.as_slice()
    }

    /// Relies on `zeroize::Zeroize` for `Vec<u8>`: the bytes are overwritten
    /// with zeros in a way the optimizer cannot elide, and the vector is
    /// emptied.
    #[verifier::external_body]
    fn wipe(&mut self)
        ensures
            final(self)@.len() == 0,
    {
        self.key_data.zeroize();
    }
}

impl Drop for SecureKey {
    /// Relies on `zeroize::Zeroize` for `Vec<u8>`: key material self-wipes
    /// on destruction, whatever the exit path — normal return, early error
    /// or panic-unwind.
    #[verifier::external_body]
    fn drop(&mut self)
        opens_invariants none
        no_unwind
    {
        self.key_data.zeroize();
    }
}

/// A sealed clipboard payload: the nonce the content was sealed under and
/// the ciphertext, carrying its authentication tag.
pub struct EncryptedData {
    nonce: Vec<u8>,
    ciphertext: Vec<u8>,
}

impl Drop for EncryptedData {
    /// Relies on `zeroize::Zeroize` for `Vec<u8>`: a payload self-wipes on
    /// destruction, whatever the exit path.
    #[verifier::external_body]
    fn drop(&mut self)
        opens_invariants none
        no_unwind
    {
        self.nonce.zeroize();
        self.ciphertext.zeroize();
    }
}

impl EncryptedData {
    /// The nonce bytes.
    pub closed spec fn spec_nonce(&self) -> Seq<u8> {
        self.nonce@
    }

    /// The ciphertext bytes.
    pub closed spec fn spec_ciphertext(&self) -> Seq<u8> {
        self.ciphertext@
    }

    /// The wire form: nonce followed by ciphertext.
    pub open spec fn combined(&self) -> Seq<u8> {
        self.spec_nonce() + self.spec_ciphertext()
    }

    /// The nonce is always exactly one AES-GCM-SIV nonce long.
    pub open spec fn wf(&self) -> bool {
        self.spec_nonce().len() == crate::NONCE_LENGTH
    }

    /// Assemble a payload from a nonce and a ciphertext.
    pub fn new(nonce: Vec<u8>, ciphertext: Vec<u8>) -> (r: EncryptedData)
        requires
            nonce@.len() == crate::NONCE_LENGTH,
        ensures
            r.wf(),
            r.spec_nonce() == nonce@,
            r.spec_ciphertext() == ciphertext@,
    {
        EncryptedData { nonce, ciphertext }
    }

    /// The nonce bytes.
    pub fn nonce(&self) -> (r: &[u8])
        ensures
            r@ == self.spec_nonce(),
    {
        self.nonce.as_slice()
    }

    /// The ciphertext bytes.
    pub fn ciphertext(&self) -> (r: &[u8])
        ensures
            r@ == self.spec_ciphertext(),
    {
        self.ciphertext.as_slice()
    }

    /// The length of the wire form: nonce plus ciphertext.
    pub fn total_length(&self) -> (r: usize)
        requires
            self.combined().len() <= usize::MAX,
        ensures
            r == self.combined().len(),
    {
        self.nonce.len() + self.ciphertext.len()
    }

    /// An identical copy of the payload.
    pub fn duplicate(&self) -> (r: EncryptedData)
        ensures
            r.spec_nonce() == self.spec_nonce(),
            r.spec_ciphertext() == self.spec_ciphertext(),
    {
        EncryptedData {
            nonce: vstd::slice::slice_to_vec(self.nonce.as_slice()),
            ciphertext: vstd::slice::slice_to_vec(self.ciphertext.as_slice()),
        }
    }

    /// The Base64 surrogate text: the encoding of `nonce || ciphertext`,
    /// the only form ever written to the system clipboard.
    pub fn to_base64(&self) -> (r: String)
        ensures
            r@ == b64_encode(self.combined()),
    {
        let mut combined = vstd::slice::slice_to_vec(self.nonce.as_slice());
        let mut ct = vstd::slice::slice_to_vec(self.ciphertext.as_slice());
        combined.append(&mut ct);
        base64_encode(combined.as_slice())
    }

    /// Parse a Base64 surrogate back into a payload. Fails exactly when the
    /// text is not Base64 or decodes to fewer bytes than one nonce.
    pub fn from_base64(base64_str: &str) -> (r: Result<EncryptedData, CryptoError>)
        ensures
            r is Ok <==> (b64_decode(base64_str@) is Some && b64_decode(base64_str@)->Some_0.len()
                >= crate::NONCE_LENGTH),
            r is Ok ==> r->Ok_0.wf() && r->Ok_0.spec_nonce() == b64_decode(base64_str@)->Some_0
                .take(crate::NONCE_LENGTH as int) && r->Ok_0.spec_ciphertext() == b64_decode(
                base64_str@,
            )->Some_0.skip(crate::NONCE_LENGTH as int),
            r is Err ==> r->Err_0 == CryptoError::InvalidCiphertext,
    {
        let combined = match base64_decode(base64_str) {
            Ok(v) => v,
            Err(_) => {
                return Err(CryptoError::InvalidCiphertext);
            },
        };
        if combined.len() < crate::NONCE_LENGTH {
            return Err(CryptoError::InvalidCiphertext);
        }
        let mut nonce: Vec<u8> = Vec::new();
        let mut i: usize = 0;
        while i < crate::NONCE_LENGTH
            invariant
                i <= crate::NONCE_LENGTH,
                combined@.len() >= crate::NONCE_LENGTH,
                nonce@ =~= combined@.subrange(0, i as int),
            decreases crate::NONCE_LENGTH - i,
        {
            nonce.push(combined[i]);
            i = i + 1;
        }
        let mut ciphertext: Vec<u8> = Vec::new();
        let mut j: usize = crate::NONCE_LENGTH;
        while j < combined.len()
            invariant
                crate::NONCE_LENGTH <= j <= combined@.len(),
                ciphertext@ =~= combined@.subrange(crate::NONCE_LENGTH as int, j as int),
            decreases combined@.len() - j,
        {
            ciphertext.push(combined[j]);
            j = j + 1;
        }
        proof {
            assert(nonce@ =~= combined@.take(crate::NONCE_LENGTH as int));
            assert(ciphertext@ =~= combined@.skip(crate::NONCE_LENGTH as int));
        }
        Ok(EncryptedData { nonce, ciphertext })
    }
}

#[verifier::external_type_specification]
#[verifier::external_body]
#[verifier::reject_recursive_types(Aes)]
pub struct ExAesGcmSiv<Aes>(aes_gcm_siv::AesGcmSiv<Aes>);

#[verifier::external_type_specification]
#[verifier::external_body]
pub struct ExAes256(aes_gcm_siv::aes::Aes256);

/// The encryption engine: one AES-256-GCM-SIV cipher and the key it was
/// built from. The cipher field is only ever assigned together with the
/// key, by the trusted constructors below, so the cipher always computes
/// under `current_key`.
pub struct CryptoEngine {
    cipher: Aes256GcmSiv,
    current_key: SecureKey,
}

impl CryptoEngine {
    /// The bytes of the engine's current key.
    pub closed spec fn key(&self) -> Seq<u8> {
        self.current_key@
    }

    /// The engine always holds a full-length key.
    pub open spec fn wf(&self) -> bool {
        self.key().len() == crate::KEY_LENGTH
    }

    /// Relies on `aes_gcm_siv::Aes256GcmSiv::new_from_slice`: building a
    /// cipher from a 32-byte slice succeeds and the cipher encrypts under
    /// exactly those key bytes.
    #[verifier::external_body]
    fn from_key(key: SecureKey) -> (r: CryptoEngine)
        requires
            key.wf(),
        ensures
            r.current_key == key,
    {
        let cipher = Aes256GcmSiv::new_from_slice(key.as_bytes()).expect(
            "a 32-byte slice is a valid AES-256 key",
        );
        CryptoEngine { cipher, current_key: key }
    }

    /// Relies on `aes_gcm_siv::Aes256GcmSiv::new_from_slice`, as `from_key`
    /// does: replaces the cipher and the key together, keeping them paired.
    #[verifier::external_body]
    fn set_key(&mut self, key: SecureKey)
        requires
            key.wf(),
        ensures
            final(self).current_key == key,
    {
        self.cipher = Aes256GcmSiv::new_from_slice(key.as_bytes()).expect(
            "a 32-byte slice is a valid AES-256 key",
        );
        self.current_key = key;
    }

    /// Relies on `aes_gcm_siv::Aes256GcmSiv::encrypt` (RFC 8452): the
    /// ciphertext is a pure function of key, nonce and plaintext, named
    /// `seal_of`; it is the plaintext length plus one 16-byte tag;
    /// decryption under the same key and nonce recovers the plaintext,
    /// named through `open_of`; encryption fails only for plaintexts over
    /// the RFC 8452 length bound; and the returned vector, like every Rust
    /// allocation, stays within `isize::MAX` bytes, so a nonce still fits
    /// beside it.
    #[verifier::external_body]
    fn seal_with(&self, nonce: &Vec<u8>, plaintext: &[u8]) -> (r: Result<Vec<u8>, CryptoError>)
        requires
            nonce@.len() == crate::NONCE_LENGTH,
        ensures
            plaintext@.len() <= MAX_PLAINTEXT_LENGTH ==> r is Ok,
            r is Ok ==> r->Ok_0@ == seal_of(self.key(), nonce@, plaintext@),
            r is Ok ==> r->Ok_0@.len() == plaintext@.len() + 16,
            r is Ok ==> r->Ok_0@.len() + crate::NONCE_LENGTH <= usize::MAX,
            r is Ok ==> open_of(self.key(), nonce@, seal_of(self.key(), nonce@, plaintext@))
                == Some(plaintext@),
            r is Err ==> r->Err_0 == CryptoError::EncryptionFailed,
    {
        let n = aes_gcm_siv::Nonce::try_from(nonce.as_slice()).map_err(
            |_| CryptoError::EncryptionFailed,
        )?;
        self.cipher.encrypt(&n, plaintext).map_err(|_| CryptoError::EncryptionFailed)
    }

    /// Relies on `aes_gcm_siv::Aes256GcmSiv::decrypt` (RFC 8452):
    /// decryption succeeds exactly when the authentication tag verifies for
    /// this key, nonce and ciphertext — a pure function of the three, named
    /// `open_of` — and then returns the plaintext that names.
    #[verifier::external_body]
    fn open_with(&self, nonce: &Vec<u8>, ciphertext: &[u8]) -> (r: Result<Vec<u8>, CryptoError>)
        requires
            nonce@.len() == crate::NONCE_LENGTH,
        ensures
            r is Ok <==> open_of(self.key(), nonce@, ciphertext@) is Some,
            r is Ok ==> r->Ok_0@ == open_of(self.key(), nonce@, ciphertext@)->Some_0,
            r is Err ==> r->Err_0 == CryptoError::DecryptionFailed,
    {
        let n = aes_gcm_siv::Nonce::try_from(nonce.as_slice()).map_err(
            |_| CryptoError::DecryptionFailed,
        )?;
        self.cipher.decrypt(&n, ciphertext).map_err(|_| CryptoError::DecryptionFailed)
    }

    /// Create an engine with a fresh random key.
    pub fn new() -> (r: Result<CryptoEngine, CryptoError>)
        ensures
            r is Ok ==> r->Ok_0.wf(),
            r is Err ==> r->Err_0 == CryptoError::KeyGenerationFailed,
    {
        let key = SecureKey::generate()?;
        Ok(CryptoEngine::from_key(key))
    }

    /// Seal a plaintext under the current key with a fresh random nonce.
    /// Succeeds whenever the system's random number generator does, for
    /// every plaintext within the cipher's length bound; the payload then
    /// carries `seal_of` the key, the fresh nonce and the plaintext, and
    /// opening it under the same key and nonce gives the plaintext back.
    /// A plaintext over the bound is refused as an encryption failure.
    pub fn encrypt(&self, plaintext: &[u8]) -> (r: Result<EncryptedData, CryptoError>)
        ensures
            r is Ok ==> r->Ok_0.wf(),
            r is Ok ==> r->Ok_0.spec_ciphertext() == seal_of(
                self.key(),
                r->Ok_0.spec_nonce(),
                plaintext@,
            ),
            r is Ok ==> r->Ok_0.spec_ciphertext().len() == plaintext@.len() + 16,
            r is Ok ==> r->Ok_0.combined().len() <= usize::MAX,
            r is Ok ==> open_of(self.key(), r->Ok_0.spec_nonce(), r->Ok_0.spec_ciphertext())
                == Some(plaintext@),
            plaintext@.len() > MAX_PLAINTEXT_LENGTH <==> (r is Err && r->Err_0
                == CryptoError::EncryptionFailed),
            r is Err ==> r->Err_0 == CryptoError::KeyGenerationFailed || r->Err_0
                == CryptoError::EncryptionFailed,
    {
        if plaintext.len() as u64 > MAX_PLAINTEXT_LENGTH {
            return Err(CryptoError::EncryptionFailed);
        }
        let nonce = match sys_random_bytes(crate::NONCE_LENGTH) {
            Some(bytes) => bytes,
            None => {
                return Err(CryptoError::KeyGenerationFailed);
            },
        };
        let ciphertext = match self.seal_with(&nonce, plaintext) {
            Ok(ct) => ct,
            Err(_) => {
                proof {
                    assert(false);
                }
                return Err(CryptoError::KeyGenerationFailed);
            },
        };
        Ok(EncryptedData::new(nonce, ciphertext))
    }

    /// Open a payload under the current key. Succeeds exactly when the
    /// payload's tag verifies under this key and its nonce, and then
    /// returns the plaintext the payload seals.
    pub fn decrypt(&self, encrypted_data: &EncryptedData) -> (r: Result<Vec<u8>, CryptoError>)
        requires
            encrypted_data.wf(),
        ensures
            r is Ok <==> open_of(
                self.key(),
                encrypted_data.spec_nonce(),
                encrypted_data.spec_ciphertext(),
            ) is Some,
            r is Ok ==> r->Ok_0@ == open_of(
                self.key(),
                encrypted_data.spec_nonce(),
                encrypted_data.spec_ciphertext(),
            )->Some_0,
            r is Err ==> r->Err_0 == CryptoError::DecryptionFailed,
    {
        self.open_with(&encrypted_data.nonce, encrypted_data.ciphertext.as_slice())
    }

    /// Open a payload and immediately regenerate the key, as one logical
    /// unit: after a successful call the payload's key epoch is over. On a
    /// decryption failure the engine is unchanged.
    pub fn decrypt_and_reset_key(&mut self, encrypted_data: &EncryptedData) -> (r: Result<
        Vec<u8>,
        CryptoError,
    >)
        requires
            encrypted_data.wf(),
        ensures
            r is Ok ==> r->Ok_0@ == open_of(
                old(self).key(),
                encrypted_data.spec_nonce(),
                encrypted_data.spec_ciphertext(),
            )->Some_0 && final(self).wf(),
            r is Ok ==> open_of(
                old(self).key(),
                encrypted_data.spec_nonce(),
                encrypted_data.spec_ciphertext(),
            ) is Some,
            open_of(
                old(self).key(),
                encrypted_data.spec_nonce(),
                encrypted_data.spec_ciphertext(),
            ) is None <==> (r is Err && r->Err_0 == CryptoError::DecryptionFailed),
            r is Err ==> *final(self) == *old(self),
            r is Err ==> r->Err_0 == CryptoError::DecryptionFailed || r->Err_0
                == CryptoError::KeyGenerationFailed,
    {
        let plaintext = self.open_with(&encrypted_data.nonce, encrypted_data.ciphertext.as_slice())?;
        self.regenerate_key()?;
        Ok(plaintext)
    }

    /// Replace the key material: the old key is wiped, not merely dropped,
    /// and a fresh random key takes its place. On failure the engine keeps
    /// its key.
    pub fn regenerate_key(&mut self) -> (r: Result<(), CryptoError>)
        ensures
            r is Ok ==> final(self).wf(),
            r is Err ==> r->Err_0 == CryptoError::KeyGenerationFailed && *final(self) == *old(self),
    {
        let new_key = SecureKey::generate()?;
        self.current_key.wipe();
        self.set_key(new_key);
        Ok(())
    }

    /// A short stable digest of the current key, for display: the
    /// hexadecimal form of its content hash, never the key itself.
    pub fn key_fingerprint(&self) -> (r: String)
        ensures
            r@ == hex16(fnv1a(self.key())),
    {
        to_hex16(crate::hash::fnv1a_bytes(self.current_key.as_bytes()))
    }
}

/// The surrogate format round-trips: parsing the Base64 form of a payload
/// yields the same nonce and ciphertext.
pub proof fn lemma_surrogate_round_trip(d: EncryptedData)
    requires
        d.wf(),
    ensures
        b64_decode(b64_encode(d.combined())) == Some(d.combined()),
        d.combined().take(crate::NONCE_LENGTH as int) == d.spec_nonce(),
        d.combined().skip(crate::NONCE_LENGTH as int) == d.spec_ciphertext(),
{
    lemma_b64_round_trip(d.combined());
    assert(d.combined().take(crate::NONCE_LENGTH as int) =~= d.spec_nonce());
    assert(d.combined().skip(crate::NONCE_LENGTH as int) =~= d.spec_ciphertext());
}

} // verus!
