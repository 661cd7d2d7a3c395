//! The signing, verification and encryption core. Each scheme's primitive
//! comes from its crate (blake3, ed25519-dalek, chacha20poly1305) behind a
//! trusted wrapper; everything around the primitives is verified.

use vstd::prelude::*;
use vstd::string::StrSliceExecFns;

use ed25519_dalek::Signer as DalekSigner;
use ed25519_dalek::Verifier as DalekVerifier;
use chacha20poly1305::aead::{Aead, AeadCore, KeyInit, OsRng};
use chacha20poly1305::ChaCha20Poly1305;

use crate::cli::TextSignFormat;
use crate::error::Error;
use crate::gen_pwd::{allowed_pwd_byte, is_lower_byte, is_number_byte, is_symbol_byte, is_upper_byte, process_genpwd};

verus! {

// ---------------------------------------------------------------------------
// Blake3 keyed hashing, behind a trusted wrapper
// ---------------------------------------------------------------------------

/// The 32-byte Blake3 keyed digest of `data` under the 32-byte `key`.
pub uninterp spec fn blake3_keyed_hash(key: Seq<u8>, data: Seq<u8>) -> Seq<u8>;

/// Relies on `blake3::keyed_hash`: a 32-byte digest, deterministic in the
/// 32-byte key and the input bytes.
#[verifier::external_body]
fn blake3_keyed_hash_exec(key: &[u8], data: &[u8]) -> (r: Vec<u8>)
    requires
        key@.len() == 32,
    ensures
        r@ == blake3_keyed_hash(key@, data@),
        r@.len() == 32,
{
    let key32: &[u8; 32] = key.try_into().unwrap();
    blake3::keyed_hash(key32, data).as_bytes().to_vec()
}

// ---------------------------------------------------------------------------
// Ed25519 signatures, behind trusted wrappers
// ---------------------------------------------------------------------------

/// The 64-byte Ed25519 signature over `msg` by the 32-byte seed `seed`.
pub uninterp spec fn ed25519_sign(seed: Seq<u8>, msg: Seq<u8>) -> Seq<u8>;

/// The 32-byte public key paired with the 32-byte seed `seed`.
pub uninterp spec fn ed25519_public_key(seed: Seq<u8>) -> Seq<u8>;

/// Whether 32 bytes decode to an Ed25519 verifying key (a curve point).
pub uninterp spec fn ed25519_key_valid(pk: Seq<u8>) -> bool;

/// The Ed25519 check of `sig` over `msg` under the valid public key `pk`.
pub uninterp spec fn ed25519_verify(pk: Seq<u8>, msg: Seq<u8>, sig: Seq<u8>) -> bool;

/// Relies on `ed25519_dalek::SigningKey::sign` (RFC 8032): a 64-byte
/// signature, deterministic in seed and message, that the check under the
/// seed's own public key accepts.
#[verifier::external_body]
fn ed25519_sign_exec(seed: &[u8], msg: &[u8]) -> (r: Vec<u8>)
    requires
        seed@.len() == 32,
    ensures
        r@ == ed25519_sign(seed@, msg@),
        r@.len() == 64,
        ed25519_verify(ed25519_public_key(seed@), msg@, r@),
{
    let seed32: &[u8; 32] = seed.try_into().unwrap();
    let sk = ed25519_dalek::SigningKey::from_bytes(seed32);
    sk.sign(msg).to_bytes().to_vec()
}

/// Relies on `ed25519_dalek::VerifyingKey::from_bytes`: it succeeds exactly
/// when the bytes decompress to a curve point, deterministically.
#[verifier::external_body]
fn ed25519_pk_check_exec(pk: &[u8]) -> (r: bool)
    requires
        pk@.len() == 32,
    ensures
        r == ed25519_key_valid(pk@),
{
    let pk32: &[u8; 32] = pk.try_into().unwrap();
    ed25519_dalek::VerifyingKey::from_bytes(pk32).is_ok()
}

/// Relies on `ed25519_dalek::VerifyingKey::verify` (RFC 8032): deterministic
/// in key, message and signature; `Ok` means the signature matches.
#[verifier::external_body]
fn ed25519_verify_exec(pk: &[u8], msg: &[u8], sig: &[u8]) -> (r: bool)
    requires
        pk@.len() == 32,
        ed25519_key_valid(pk@),
        sig@.len() == 64,
    ensures
        r == ed25519_verify(pk@, msg@, sig@),
{
    let pk32: &[u8; 32] = pk.try_into().unwrap();
    let vk = ed25519_dalek::VerifyingKey::from_bytes(pk32).unwrap();
    let sig64: &[u8; 64] = sig.try_into().unwrap();
    let signature = ed25519_dalek::Signature::from_bytes(sig64);
    vk.verify(msg, &signature).is_ok()
}

/// Relies on `ed25519_dalek::SigningKey::generate`: 32 seed bytes drawn from
/// the operating system's randomness source.
#[verifier::external_body]
fn ed25519_generate_seed_exec() -> (r: Vec<u8>)
    ensures
        r@.len() == 32,
{
    let sk = ed25519_dalek::SigningKey::generate(&mut OsRng);
    sk.to_bytes().to_vec()
}

/// Relies on `ed25519_dalek::VerifyingKey::from(&SigningKey)`: the public
/// key derived from the seed, 32 bytes that decode back to a curve point.
#[verifier::external_body]
fn ed25519_derive_pk_exec(seed: &[u8]) -> (r: Vec<u8>)
    requires
        seed@.len() == 32,
    ensures
        r@ == ed25519_public_key(seed@),
        r@.len() == 32,
        ed25519_key_valid(r@),
{
    let seed32: &[u8; 32] = seed.try_into().unwrap();
    let sk = ed25519_dalek::SigningKey::from_bytes(seed32);
    ed25519_dalek::VerifyingKey::from(&sk).to_bytes().to_vec()
}

// ---------------------------------------------------------------------------
// ChaCha20-Poly1305, behind trusted wrappers
// ---------------------------------------------------------------------------

/// What the AEAD open of `ct` under `key` and `nonce` yields: the plaintext
/// when the tag authenticates, nothing when it does not.
pub uninterp spec fn chacha_open(key: Seq<u8>, nonce: Seq<u8>, ct: Seq<u8>) -> Option<Seq<u8>>;

/// The longest message the cipher seals: beyond it the seal refuses.
pub open spec fn max_chacha_msg_len() -> int {
    0xffff_ffffint * 64
}

/// Relies on `ChaCha20Poly1305::generate_key`: 32 key bytes from the
/// operating system's randomness source.
#[verifier::external_body]
fn chacha_generate_key_exec() -> (r: Vec<u8>)
    ensures
        r@.len() == 32,
{
    ChaCha20Poly1305::generate_key(&mut OsRng).to_vec()
}

/// Relies on `ChaCha20Poly1305::generate_nonce`: 12 random bytes.
#[verifier::external_body]
fn chacha_generate_nonce_exec() -> (r: Vec<u8>)
    ensures
        r@.len() == 12,
{
    ChaCha20Poly1305::generate_nonce(&mut OsRng).to_vec()
}

/// Relies on the `Aead::encrypt` of `ChaCha20Poly1305`: deterministic in
/// key, nonce and plaintext, it appends a 16-byte tag, refuses only a
/// message over the scheme's length bound, and seals so that the matching
/// open under the same key and nonce gives the plaintext back.
#[verifier::external_body]
fn chacha_seal_exec(key: &[u8], nonce: &[u8], pt: &[u8]) -> (r: Result<Vec<u8>, Error>)
    requires
        key@.len() == 32,
        nonce@.len() == 12,
    ensures
        r is Ok <==> pt@.len() < max_chacha_msg_len(),
        r matches Ok(c) ==> c@.len() == pt@.len() + 16,
        r matches Ok(c) ==> chacha_open(key@, nonce@, c@) == Some(pt@),
        r matches Err(e) ==> e == Error::Crypto,
{
    let k = chacha20poly1305::Key::from_slice(key);
    let n = chacha20poly1305::Nonce::from_slice(nonce);
    match ChaCha20Poly1305::new(k).encrypt(n, pt) {
        Ok(c) => Ok(c),
        Err(_) => Err(Error::Crypto),
    }
}

/// Relies on the `Aead::decrypt` of `ChaCha20Poly1305`: deterministic in
/// key, nonce and ciphertext; it returns the sealed plaintext — the bytes
/// before the 16-byte tag — when the tag authenticates, and refuses
/// otherwise.
#[verifier::external_body]
fn chacha_open_exec(key: &[u8], nonce: &[u8], ct: &[u8]) -> (r: Result<Vec<u8>, Error>)
    requires
        key@.len() == 32,
        nonce@.len() == 12,
    ensures
        r is Ok <==> chacha_open(key@, nonce@, ct@) is Some,
        r matches Ok(p) ==> Some(p@) == chacha_open(key@, nonce@, ct@),
        r matches Ok(p) ==> p@.len() + 16 == ct@.len(),
        r matches Err(e) ==> e == Error::Crypto,
{
    let k = chacha20poly1305::Key::from_slice(key);
    let n = chacha20poly1305::Nonce::from_slice(nonce);
    match ChaCha20Poly1305::new(k).decrypt(n, ct) {
        Ok(p) => Ok(p),
        Err(_) => Err(Error::Crypto),
    }
}

// ---------------------------------------------------------------------------
// Small verified helpers
// ---------------------------------------------------------------------------

/// Byte-for-byte equality of two slices.
fn bytes_eq(a: &[u8], b: &[u8]) -> (r: bool)
    ensures
        r == (a@ == b@),
{
    if a.len() != b.len() {
        return false;
    }
    let n = a.len();
    for i in 0..n
        invariant
            n == a@.len(),
            a@.len() == b@.len(),
            forall|j: int| 0 <= j < i ==> a@[j] == b@[j],
    {
        if a[i] != b[i] {
            return false;
        }
    }
    proof {
        assert(a@ =~= b@);
    }
    true
}

/// The first 32 bytes of a slice at least that long, as an owned key.
fn first_32(key: &[u8]) -> (r: Vec<u8>)
    requires
        key@.len() >= 32,
    ensures
        r@ == key@.take(32),
{
    let mut v: Vec<u8> = Vec::new();
    v.extend_from_slice(&key[0..32]);
    proof {
        assert(v@ =~= key@.take(32));
    }
    v
}

// ---------------------------------------------------------------------------
// The signer and verifier capability
// ---------------------------------------------------------------------------

/// A scheme that turns key material and a byte stream into a fixed-size
/// signature. A produced signature is one its paired verifier accepts.
pub trait TextSigner: Sized {
    /// The scheme holds well-formed key material.
    spec fn signer_wf(&self) -> bool;

    /// The signature this scheme assigns to `data`.
    spec fn sig_of(&self, data: Seq<u8>) -> Seq<u8>;

    /// The byte length of every signature of this scheme.
    spec fn produced_sig_len(&self) -> int;

    /// Whether the verifier paired with this signer accepts `sig` for `data`.
    spec fn paired_accepts(&self, data: Seq<u8>, sig: Seq<u8>) -> bool;

    fn sign(&self, data: &[u8]) -> (r: Vec<u8>)
        requires
            self.signer_wf(),
        ensures
            r@ == self.sig_of(data@),
            r@.len() == self.produced_sig_len(),
            self.paired_accepts(data@, r@),
    ;
}

/// A scheme that checks a signature over a byte stream. A signature of the
/// wrong length is a format error, not a failed verification.
pub trait TextVerifier: Sized {
    /// The scheme holds well-formed key material.
    spec fn verifier_wf(&self) -> bool;

    /// The one signature length this scheme accepts for checking.
    spec fn expected_sig_len(&self) -> int;

    /// Whether this scheme accepts `sig` as a signature over `data`.
    spec fn accepted(&self, data: Seq<u8>, sig: Seq<u8>) -> bool;

    fn verify(&self, data: &[u8], sig: &[u8]) -> (r: Result<bool, Error>)
        requires
            self.verifier_wf(),
        ensures
            r is Ok <==> sig@.len() == self.expected_sig_len(),
            r matches Ok(b) ==> b == self.accepted(data@, sig@),
            r matches Err(e) ==> e == Error::SignatureFormat,
    ;
}

// ---------------------------------------------------------------------------
// Blake3 keyed-hash scheme
// ---------------------------------------------------------------------------

/// The Blake3 keyed-hash scheme: the signature of a stream is its 32-byte
/// keyed digest, and verification recomputes and compares it.
pub struct Blake3 {
    key: Vec<u8>,
}

impl Blake3 {
    /// The 32 key bytes.
    pub closed spec fn key_view(&self) -> Seq<u8> {
        self.key@
    }

    pub closed spec fn wf(&self) -> bool {
        self.key@.len() == 32
    }

    /// Builds the scheme from raw key material: the first 32 bytes are the
    /// key, fewer than 32 are a key-format error.
    pub fn try_new(key: &[u8]) -> (r: Result<Self, Error>)
        ensures
            r is Ok <==> key@.len() >= 32,
            r matches Ok(s) ==> s.wf() && s.key_view() == key@.take(32),
            r matches Err(e) ==> e == Error::KeyFormat,
    {
        if key.len() < 32 {
            return Err(Error::KeyFormat);
        }
        Ok(Blake3 { key: first_32(key) })
    }

    /// Builds the scheme from an exactly 32-byte key.
    pub fn new(key: [u8; 32]) -> (r: Self)
        ensures
            r.wf(),
            r.key_view() == key@,
    {
        let mut v: Vec<u8> = Vec::new();
        v.extend_from_slice(key.as_slice());
        proof {
            assert(v@ =~= key@);
        }
        Blake3 { key: v }
    }

    /// Generates fresh Blake3 key material: one logical file holding a
    /// 32-byte printable key from the password generator, with all four
    /// character classes taking part.
    pub fn generate() -> (r: Result<Vec<(String, Vec<u8>)>, Error>)
        ensures
            r is Ok,
            r matches Ok(b) ==> blake3_key_bundle_ok(b@),
    {
        let pwd = match process_genpwd(32, false, true, true, true) {
            Ok(p) => p,
            Err(e) => {
                return Err(e);
            },
        };
        let pwd_str = pwd.as_str();
        proof {
            assert forall|i: int| 0 <= i < pwd_str@.len() implies '\0' <= #[trigger] pwd_str@[i]
                <= '\u{7f}' by {
                assert(allowed_pwd_byte(pwd_str@[i] as int, false, true, true, true));
            };
            assert(vstd::string::is_ascii(pwd_str));
        }
        let key_bytes = pwd_str.as_bytes_vec();
        proof {
            broadcast use vstd::string::is_ascii_spec_bytes;

            assert(key_bytes@ =~= Seq::new(pwd_str@.len(), |i: int| pwd_str@[i] as u8));
            assert forall|i: int| 0 <= i < key_bytes@.len() implies allowed_pwd_byte(
                (#[trigger] key_bytes@[i]) as int,
                false,
                true,
                true,
                true,
            ) by {
                assert(key_bytes@[i] == pwd_str@[i] as u8);
                assert(allowed_pwd_byte(pwd_str@[i] as int, false, true, true, true));
            };
            let u = choose|i: int|
                0 <= i < pwd_str@.len() && is_upper_byte((#[trigger] pwd_str@[i]) as int);
            assert(key_bytes@[u] == pwd_str@[u] as u8);
            assert(0 <= u < key_bytes@.len() && is_upper_byte(key_bytes@[u] as int));
            let l = choose|i: int|
                0 <= i < pwd_str@.len() && is_lower_byte((#[trigger] pwd_str@[i]) as int);
            assert(key_bytes@[l] == pwd_str@[l] as u8);
            assert(0 <= l < key_bytes@.len() && is_lower_byte(key_bytes@[l] as int));
            let n = choose|i: int|
                0 <= i < pwd_str@.len() && is_number_byte((#[trigger] pwd_str@[i]) as int);
            assert(key_bytes@[n] == pwd_str@[n] as u8);
            assert(0 <= n < key_bytes@.len() && is_number_byte(key_bytes@[n] as int));
            let y = choose|i: int|
                0 <= i < pwd_str@.len() && is_symbol_byte((#[trigger] pwd_str@[i]) as int);
            assert(key_bytes@[y] == pwd_str@[y] as u8);
            assert(0 <= y < key_bytes@.len() && is_symbol_byte(key_bytes@[y] as int));
        }
        let mut bundle: Vec<(String, Vec<u8>)> = Vec::new();
        bundle.push(("blake3.txt".to_owned(), key_bytes));
        Ok(bundle)
    }
}

impl TextSigner for Blake3 {
    open spec fn signer_wf(&self) -> bool {
        self.wf()
    }

    open spec fn sig_of(&self, data: Seq<u8>) -> Seq<u8> {
        blake3_keyed_hash(self.key_view(), data)
    }

    open spec fn produced_sig_len(&self) -> int {
        32
    }

    open spec fn paired_accepts(&self, data: Seq<u8>, sig: Seq<u8>) -> bool {
        sig == blake3_keyed_hash(self.key_view(), data)
    }

    fn sign(&self, data: &[u8]) -> (r: Vec<u8>) {
        blake3_keyed_hash_exec(self.key.as_slice(), data)
    }
}

impl TextVerifier for Blake3 {
    open spec fn verifier_wf(&self) -> bool {
        self.wf()
    }

    open spec fn expected_sig_len(&self) -> int {
        32
    }

    open spec fn accepted(&self, data: Seq<u8>, sig: Seq<u8>) -> bool {
        sig == blake3_keyed_hash(self.key_view(), data)
    }

    fn verify(&self, data: &[u8], sig: &[u8]) -> (r: Result<bool, Error>) {
        if sig.len() != 32 {
            return Err(Error::SignatureFormat);
        }
        let digest = blake3_keyed_hash_exec(self.key.as_slice(), data);
        Ok(bytes_eq(digest.as_slice(), sig))
    }
}

// ---------------------------------------------------------------------------
// Ed25519 scheme
// ---------------------------------------------------------------------------

/// The Ed25519 signing half: holds the 32-byte seed of a signing keypair.
pub struct Ed25519Signer {
    key: Vec<u8>,
}

impl Ed25519Signer {
    /// The 32 seed bytes.
    pub closed spec fn seed_view(&self) -> Seq<u8> {
        self.key@
    }

    pub closed spec fn wf(&self) -> bool {
        self.key@.len() == 32
    }

    /// Builds the signer from raw key material: the first 32 bytes are the
    /// seed, fewer than 32 are a key-format error.
    pub fn try_new(key: &[u8]) -> (r: Result<Self, Error>)
        ensures
            r is Ok <==> key@.len() >= 32,
            r matches Ok(s) ==> s.wf() && s.seed_view() == key@.take(32),
            r matches Err(e) ==> e == Error::KeyFormat,
    {
        if key.len() < 32 {
            return Err(Error::KeyFormat);
        }
        Ok(Ed25519Signer { key: first_32(key) })
    }

    /// Builds the signer from an exactly 32-byte seed.
    pub fn new(key: &[u8; 32]) -> (r: Self)
        ensures
            r.wf(),
            r.seed_view() == key@,
    {
        let mut v: Vec<u8> = Vec::new();
        v.extend_from_slice(key.as_slice());
        proof {
            assert(v@ =~= key@);
        }
        Ed25519Signer { key: v }
    }

    /// Generates a fresh keypair: two logical files holding the 32-byte
    /// seed and the 32-byte public key paired with it.
    pub fn generate() -> (r: Result<Vec<(String, Vec<u8>)>, Error>)
        ensures
            r is Ok,
            r matches Ok(b) ==> ed25519_key_bundle_ok(b@),
    {
        let seed = ed25519_generate_seed_exec();
        let pk = ed25519_derive_pk_exec(seed.as_slice());
        let mut bundle: Vec<(String, Vec<u8>)> = Vec::new();
        bundle.push(("ed25519.sk".to_owned(), seed));
        bundle.push(("ed25519.pk".to_owned(), pk));
        Ok(bundle)
    }
}

impl TextSigner for Ed25519Signer {
    open spec fn signer_wf(&self) -> bool {
        self.wf()
    }

    open spec fn sig_of(&self, data: Seq<u8>) -> Seq<u8> {
        ed25519_sign(self.seed_view(), data)
    }

    open spec fn produced_sig_len(&self) -> int {
        64
    }

    open spec fn paired_accepts(&self, data: Seq<u8>, sig: Seq<u8>) -> bool {
        ed25519_verify(ed25519_public_key(self.seed_view()), data, sig)
    }

    fn sign(&self, data: &[u8]) -> (r: Vec<u8>) {
        ed25519_sign_exec(self.key.as_slice(), data)
    }
}

/// The Ed25519 verifying half: holds a 32-byte public key known to decode
/// to a curve point.
pub struct Ed25519Verifier {
    key: Vec<u8>,
}

impl Ed25519Verifier {
    /// The 32 public-key bytes.
    pub closed spec fn key_view(&self) -> Seq<u8> {
        self.key@
    }

    pub closed spec fn wf(&self) -> bool {
        self.key@.len() == 32 && ed25519_key_valid(self.key@)
    }

    /// Builds the verifier from raw key material: the first 32 bytes must
    /// decode to a verifying key; anything else is a key-format error.
    pub fn try_new(key: &[u8]) -> (r: Result<Self, Error>)
        ensures
            r is Ok <==> (key@.len() >= 32 && ed25519_key_valid(key@.take(32))),
            r matches Ok(v) ==> v.wf() && v.key_view() == key@.take(32),
            r matches Err(e) ==> e == Error::KeyFormat,
    {
        if key.len() < 32 {
            return Err(Error::KeyFormat);
        }
        let pk = first_32(key);
        if !ed25519_pk_check_exec(pk.as_slice()) {
            return Err(Error::KeyFormat);
        }
        Ok(Ed25519Verifier { key: pk })
    }
}

impl TextVerifier for Ed25519Verifier {
    open spec fn verifier_wf(&self) -> bool {
        self.wf()
    }

    open spec fn expected_sig_len(&self) -> int {
        64
    }

    open spec fn accepted(&self, data: Seq<u8>, sig: Seq<u8>) -> bool {
        ed25519_verify(self.key_view(), data, sig)
    }

    fn verify(&self, data: &[u8], sig: &[u8]) -> (r: Result<bool, Error>) {
        if sig.len() != 64 {
            return Err(Error::SignatureFormat);
        }
        Ok(ed25519_verify_exec(self.key.as_slice(), data, sig))
    }
}

// ---------------------------------------------------------------------------
// Authenticated encryption
// ---------------------------------------------------------------------------

/// An authenticated cipher over byte streams. A ciphertext starts with the
/// 12-byte nonce, followed by the sealed bytes and their 16-byte tag, so
/// one instance's `decrypt` undoes its own `encrypt`.
pub trait Encryptor: Sized {
    /// The cipher holds a well-formed key.
    spec fn enc_wf(&self) -> bool;

    /// The 32 key bytes the instance sealed and opens with.
    spec fn enc_key(&self) -> Seq<u8>;

    fn encrypt(&self, data: &[u8]) -> (r: Result<Vec<u8>, Error>)
        requires
            self.enc_wf(),
        ensures
            r is Ok <==> data@.len() < max_chacha_msg_len(),
            r matches Ok(c) ==> c@.len() == data@.len() + 28,
            r matches Ok(c) ==> chacha_open(self.enc_key(), c@.take(12), c@.skip(12)) == Some(
                data@,
            ),
            r matches Err(e) ==> e == Error::Crypto,
    ;

    fn decrypt(&self, data: &[u8]) -> (r: Result<Vec<u8>, Error>)
        requires
            self.enc_wf(),
        ensures
            r is Ok <==> (data@.len() >= 12 && chacha_open(
                self.enc_key(),
                data@.take(12),
                data@.skip(12),
            ) is Some),
            r matches Ok(p) ==> Some(p@) == chacha_open(
                self.enc_key(),
                data@.take(12),
                data@.skip(12),
            ),
            r matches Ok(p) ==> p@.len() + 28 == data@.len(),
            r matches Err(e) ==> e == Error::Crypto,
    ;
}

/// The one concrete cipher: ChaCha20-Poly1305 under a random 256-bit key
/// drawn at construction. The key never leaves the instance, so a
/// ciphertext can only be opened by the instance that produced it; the
/// nonce travels at the front of the ciphertext.
pub struct EncryXChaCha20Poly1305 {
    key: Vec<u8>,
}

impl EncryXChaCha20Poly1305 {
    pub closed spec fn wf(&self) -> bool {
        self.key@.len() == 32
    }

    pub closed spec fn key_view(&self) -> Seq<u8> {
        self.key@
    }

    /// Draws a fresh random key and builds the cipher around it.
    pub fn try_new() -> (r: Result<Self, Error>)
        ensures
            r is Ok,
            r matches Ok(x) ==> x.wf(),
    {
        let key = chacha_generate_key_exec();
        Ok(EncryXChaCha20Poly1305 { key })
    }
}

impl Encryptor for EncryXChaCha20Poly1305 {
    open spec fn enc_wf(&self) -> bool {
        self.wf()
    }

    open spec fn enc_key(&self) -> Seq<u8> {
        self.key_view()
    }

    fn encrypt(&self, data: &[u8]) -> (r: Result<Vec<u8>, Error>) {
        let nonce = chacha_generate_nonce_exec();
        let mut sealed = match chacha_seal_exec(self.key.as_slice(), nonce.as_slice(), data) {
            Ok(c) => c,
            Err(e) => {
                return Err(e);
            },
        };
        let ghost sealed0 = sealed@;
        let mut out = nonce;
        let ghost nonce0 = out@;
        out.append(&mut sealed);
        proof {
            assert(out@.take(12) =~= nonce0);
            assert(out@.skip(12) =~= sealed0);
        }
        Ok(out)
    }

    fn decrypt(&self, data: &[u8]) -> (r: Result<Vec<u8>, Error>) {
        if data.len() < 12 {
            return Err(Error::Crypto);
        }
        let nonce = &data[0..12];
        let ct = &data[12..data.len()];
        proof {
            assert(nonce@ =~= data@.take(12));
            assert(ct@ =~= data@.skip(12));
        }
        chacha_open_exec(self.key.as_slice(), nonce, ct)
    }
}

// ---------------------------------------------------------------------------
// Dispatch over the scheme tag
// ---------------------------------------------------------------------------

/// What signing returns: the scheme's signature over the stream, or a
/// key-format error when the key material is shorter than 32 bytes.
pub open spec fn text_sign_spec(format: TextSignFormat, key: Seq<u8>, data: Seq<u8>) -> Result<
    Seq<u8>,
    Error,
> {
    match format {
        TextSignFormat::Blake3 => if key.len() < 32 {
            Err(Error::KeyFormat)
        } else {
            Ok(blake3_keyed_hash(key.take(32), data))
        },
        TextSignFormat::Ed25519 => if key.len() < 32 {
            Err(Error::KeyFormat)
        } else {
            Ok(ed25519_sign(key.take(32), data))
        },
    }
}

/// What verification returns: a key-format error for unusable key material,
/// a signature-format error for a signature of the wrong length, and
/// otherwise whether the scheme accepts the signature over the stream.
pub open spec fn text_verify_spec(
    format: TextSignFormat,
    key: Seq<u8>,
    data: Seq<u8>,
    sig: Seq<u8>,
) -> Result<bool, Error> {
    match format {
        TextSignFormat::Blake3 => if key.len() < 32 {
            Err(Error::KeyFormat)
        } else if sig.len() != 32 {
            Err(Error::SignatureFormat)
        } else {
            Ok(sig == blake3_keyed_hash(key.take(32), data))
        },
        TextSignFormat::Ed25519 => if key.len() < 32 || !ed25519_key_valid(key.take(32)) {
            Err(Error::KeyFormat)
        } else if sig.len() != 64 {
            Err(Error::SignatureFormat)
        } else {
            Ok(ed25519_verify(key.take(32), data, sig))
        },
    }
}

/// Key generation for Blake3 yields one logical file, `blake3.txt`, with a
/// 32-byte key from the password generator covering all four character
/// classes: every byte belongs to one, and each class put in at least one.
pub open spec fn blake3_key_bundle_ok(b: Seq<(String, Vec<u8>)>) -> bool {
    &&& b.len() == 1
    &&& b[0].0@ == "blake3.txt"@
    &&& b[0].1@.len() == 32
    &&& forall|i: int|
        0 <= i < b[0].1@.len() ==> allowed_pwd_byte(
            (#[trigger] b[0].1@[i]) as int,
            false,
            true,
            true,
            true,
        )
    &&& exists|i: int| 0 <= i < b[0].1@.len() && is_upper_byte((#[trigger] b[0].1@[i]) as int)
    &&& exists|i: int| 0 <= i < b[0].1@.len() && is_lower_byte((#[trigger] b[0].1@[i]) as int)
    &&& exists|i: int| 0 <= i < b[0].1@.len() && is_number_byte((#[trigger] b[0].1@[i]) as int)
    &&& exists|i: int| 0 <= i < b[0].1@.len() && is_symbol_byte((#[trigger] b[0].1@[i]) as int)
}

/// Key generation for Ed25519 yields two logical files: `ed25519.sk` with a
/// 32-byte seed, and `ed25519.pk` with the paired 32-byte public key.
pub open spec fn ed25519_key_bundle_ok(b: Seq<(String, Vec<u8>)>) -> bool {
    &&& b.len() == 2
    &&& b[0].0@ == "ed25519.sk"@
    &&& b[0].1@.len() == 32
    &&& b[1].0@ == "ed25519.pk"@
    &&& b[1].1@ == ed25519_public_key(b[0].1@)
    &&& b[1].1@.len() == 32
    &&& ed25519_key_valid(b[1].1@)
}

/// Signs the stream under the scheme `format` names. An Ed25519 signature
/// additionally verifies under the public key paired with the seed.
pub fn process_text_sign(data: &[u8], key: &[u8], format: TextSignFormat) -> (r: Result<
    Vec<u8>,
    Error,
>)
    ensures
        r is Ok <==> text_sign_spec(format, key@, data@) is Ok,
        r matches Ok(v) ==> Ok::<Seq<u8>, Error>(v@) == text_sign_spec(format, key@, data@),
        r matches Err(e) ==> Err::<Seq<u8>, Error>(e) == text_sign_spec(format, key@, data@),
        r matches Ok(v) ==> (format == TextSignFormat::Blake3 ==> v@.len() == 32),
        r matches Ok(v) ==> (format == TextSignFormat::Ed25519 ==> v@.len() == 64),
        r matches Ok(v) ==> (format == TextSignFormat::Ed25519 ==> ed25519_verify(
            ed25519_public_key(key@.take(32)),
            data@,
            v@,
        )),
{
    match format {
        TextSignFormat::Blake3 => match Blake3::try_new(key) {
            Ok(s) => Ok(s.sign(data)),
            Err(e) => Err(e),
        },
        TextSignFormat::Ed25519 => match Ed25519Signer::try_new(key) {
            Ok(s) => Ok(s.sign(data)),
            Err(e) => Err(e),
        },
    }
}

/// Checks a signature over the stream under the scheme `format` names.
pub fn process_text_verify(data: &[u8], key: &[u8], sig: &[u8], format: TextSignFormat) -> (r:
    Result<bool, Error>)
    ensures
        r == text_verify_spec(format, key@, data@, sig@),
{
    match format {
        TextSignFormat::Blake3 => match Blake3::try_new(key) {
            Ok(v) => v.verify(data, sig),
            Err(e) => Err(e),
        },
        TextSignFormat::Ed25519 => match Ed25519Verifier::try_new(key) {
            Ok(v) => v.verify(data, sig),
            Err(e) => Err(e),
        },
    }
}

/// Generates the key material of the scheme `format` names.
pub fn process_text_key_generate(format: TextSignFormat) -> (r: Result<
    Vec<(String, Vec<u8>)>,
    Error,
>)
    ensures
        r is Ok,
        r matches Ok(b) ==> (format == TextSignFormat::Blake3 ==> blake3_key_bundle_ok(b@)),
        r matches Ok(b) ==> (format == TextSignFormat::Ed25519 ==> ed25519_key_bundle_ok(b@)),
{
    match format {
        TextSignFormat::Blake3 => Blake3::generate(),
        TextSignFormat::Ed25519 => Ed25519Signer::generate(),
    }
}

/// Encrypts the stream under a cipher built just for this call. Its key is
/// drawn fresh and discarded with the cipher, so nothing can later open the
/// result; to decrypt, keep one `EncryXChaCha20Poly1305` instance and use
/// its two methods.
pub fn process_text_encypt(data: &[u8]) -> (r: Result<Vec<u8>, Error>)
    ensures
        r is Ok <==> data@.len() < max_chacha_msg_len(),
        r matches Ok(c) ==> c@.len() == data@.len() + 28,
        r matches Err(e) ==> e == Error::Crypto,
{
    let xcha = match EncryXChaCha20Poly1305::try_new() {
        Ok(x) => x,
        Err(e) => {
            return Err(e);
        },
    };
    xcha.encrypt(data)
}

/// Attempts to decrypt the stream under a cipher built just for this call.
/// The fresh random key matches no earlier ciphertext, so the call reports
/// what opening under that key yields — in practice an authentication
/// failure; the usable round trip lives on `EncryXChaCha20Poly1305` itself.
pub fn process_text_decypt(data: &[u8]) -> (r: Result<Vec<u8>, Error>)
    ensures
        data@.len() < 12 ==> r is Err,
        r matches Ok(p) ==> p@.len() + 28 == data@.len(),
        r matches Err(e) ==> e == Error::Crypto,
{
    let xcha = match EncryXChaCha20Poly1305::try_new() {
        Ok(x) => x,
        Err(e) => {
            return Err(e);
        },
    };
    xcha.decrypt(data)
}

// ---------------------------------------------------------------------------
// Round-trip laws of the Blake3 scheme
// ---------------------------------------------------------------------------

/// A signature just produced by Blake3 signing verifies against the same
/// key and stream.
pub proof fn lemma_blake3_sign_verifies(key: Seq<u8>, data: Seq<u8>, sig: Seq<u8>)
    requires
        key.len() >= 32,
        sig.len() == 32,
        Ok::<Seq<u8>, Error>(sig) == text_sign_spec(TextSignFormat::Blake3, key, data),
    ensures
        text_verify_spec(TextSignFormat::Blake3, key, data, sig) == Ok::<bool, Error>(true),
{
}

/// Any 32-byte signature other than the one Blake3 signing produces — for
/// instance one with a single bit flipped — is rejected, not erred on.
pub proof fn lemma_blake3_rejects_altered_sig(
    key: Seq<u8>,
    data: Seq<u8>,
    sig: Seq<u8>,
    altered: Seq<u8>,
)
    requires
        key.len() >= 32,
        Ok::<Seq<u8>, Error>(sig) == text_sign_spec(TextSignFormat::Blake3, key, data),
        altered.len() == 32,
        altered != sig,
    ensures
        text_verify_spec(TextSignFormat::Blake3, key, data, altered) == Ok::<bool, Error>(false),
{
}

} // verus!
