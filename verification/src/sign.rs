//! The signing schemes: a symmetric keyed hash and an asymmetric
//! signature scheme behind one uniform sign/verify capability, and the
//! key lifecycle each scheme requires.
//!
//! The hash and signature mathematics are supplied by outside libraries
//! and are not restated here: each result is given a name (an
//! uninterpreted function of the call's arguments), and every contract in
//! this crate speaks of those names exactly.

use vstd::prelude::*;

use ed25519_dalek::Signer;
use ed25519_dalek::Verifier;

use crate::error::TextError;
use crate::pwd::PwdOpts;
use crate::pwd::allowed_code;
use crate::pwd::pwd_bytes;
use crate::rng::sys_random_seed;

verus! {

/// The 32-byte digest of a message under a 32-byte key, determined by the
/// two alone.
pub uninterp spec fn blake3_keyed_hash(key: Seq<u8>, msg: Seq<u8>) -> Seq<u8>;

/// Relies on `blake3::keyed_hash`: a 32-byte digest determined by the key
/// and message bytes alone.
#[verifier::external_body]
fn keyed_hash(key: &[u8; 32], msg: &[u8]) -> (r: Vec<u8>)
    ensures
        r@ == blake3_keyed_hash(key@, msg@),
        r@.len() == 32,
{
    blake3::keyed_hash(key, msg).as_bytes().to_vec()
}

/// The 64-byte signature over a message from a 32-byte signing-key seed,
/// determined by the two alone (the scheme signs deterministically).
pub uninterp spec fn ed25519_signature(seed: Seq<u8>, msg: Seq<u8>) -> Seq<u8>;

/// The 32-byte public key derived from a 32-byte signing-key seed.
pub uninterp spec fn ed25519_public_key(seed: Seq<u8>) -> Seq<u8>;

/// Whether 32 bytes are a valid public-key encoding, a property of the
/// bytes alone.
pub uninterp spec fn ed25519_key_ok(pk: Seq<u8>) -> bool;

/// Whether a public key accepts a signature over a message, determined by
/// the three alone (verification is deterministic; bytes that are no
/// valid key accept nothing).
pub uninterp spec fn ed25519_accepts(pk: Seq<u8>, msg: Seq<u8>, sig: Seq<u8>) -> bool;

/// Relies on `ed25519_dalek::SigningKey::sign`: a deterministic 64-byte
/// signature from the seed and message alone, which the verifying key
/// derived from the same seed accepts.
#[verifier::external_body]
fn ed_sign(seed: &[u8; 32], msg: &[u8]) -> (r: Vec<u8>)
    ensures
        r@ == ed25519_signature(seed@, msg@),
        r@.len() == 64,
        ed25519_accepts(ed25519_public_key(seed@), msg@, r@),
{
    let sk = ed25519_dalek::SigningKey::from_bytes(seed);
    sk.sign(msg).to_bytes().to_vec()
}

/// Relies on `ed25519_dalek::SigningKey::verifying_key` and
/// `VerifyingKey::to_bytes`: the 32 public-key bytes derived from the
/// seed alone; they parse back as a valid verifying key.
#[verifier::external_body]
fn ed_public_key(seed: &[u8; 32]) -> (r: Vec<u8>)
    ensures
        r@ == ed25519_public_key(seed@),
        r@.len() == 32,
        ed25519_key_ok(r@),
{
    let sk = ed25519_dalek::SigningKey::from_bytes(seed);
    sk.verifying_key().to_bytes().to_vec()
}

/// Relies on `ed25519_dalek::VerifyingKey::from_bytes`: whether the 32
/// bytes are a valid public-key encoding, a property of the bytes alone.
#[verifier::external_body]
fn ed_key_check(pk: &[u8; 32]) -> (r: bool)
    ensures
        r == ed25519_key_ok(pk@),
{
    ed25519_dalek::VerifyingKey::from_bytes(pk).is_ok()
}

/// Relies on `ed25519_dalek::VerifyingKey::verify`: deterministic
/// acceptance of a signature over a message under a public key; bytes
/// that are no valid key accept nothing.
#[verifier::external_body]
fn ed_verify(pk: &[u8; 32], msg: &[u8], sig: &[u8; 64]) -> (r: bool)
    ensures
        r == ed25519_accepts(pk@, msg@, sig@),
{
    match ed25519_dalek::VerifyingKey::from_bytes(pk) {
        Ok(key) => key.verify(msg, &ed25519_dalek::Signature::from_bytes(sig)).is_ok(),
        Err(_) => false,
    }
}

/// The first 32 bytes of a buffer, as a key array.
fn key_array(key: &[u8]) -> (r: [u8; 32])
    requires
        key@.len() >= 32,
    ensures
        r@ == key@.take(32),
{
    let mut a = [0u8; 32];
    let mut i: usize = 0;
    while i < 32
        invariant
            i <= 32,
            key@.len() >= 32,
            a@.len() == 32,
            forall|j: int| 0 <= j < i ==> a@[j] == key@[j],
        decreases 32 - i,
    {
        a[i] = key[i];
        i = i + 1;
    }
    proof {
        assert(a@ =~= key@.take(32));
    }
    a
}

/// A 64-byte buffer, as a signature array.
fn sig_array(sig: &[u8]) -> (r: [u8; 64])
    requires
        sig@.len() == 64,
    ensures
        r@ == sig@,
{
    let mut a = [0u8; 64];
    let mut i: usize = 0;
    while i < 64
        invariant
            i <= 64,
            sig@.len() == 64,
            a@.len() == 64,
            forall|j: int| 0 <= j < i ==> a@[j] == sig@[j],
        decreases 64 - i,
    {
        a[i] = sig[i];
        i = i + 1;
    }
    proof {
        assert(a@ =~= sig@);
    }
    a
}

/// Byte-for-byte equality of two buffers.
fn bytes_eq(a: &[u8], b: &[u8]) -> (r: bool)
    ensures
        r == (a@ == b@),
{
    if a.len() != b.len() {
        proof {
            assert(a@ != b@);
        }
        return false;
    }
    let mut i: usize = 0;
    while i < a.len()
        invariant
            i <= a@.len(),
            a@.len() == b@.len(),
            forall|j: int| 0 <= j < i ==> a@[j] == b@[j],
        decreases a@.len() - i,
    {
        if a[i] != b[i] {
            return false;
        }
        i = i + 1;
    }
    proof {
        assert(a@ =~= b@);
    }
    true
}

/// The sign capability: produce a signature over a whole message.
pub trait TextSign {
    /// The signature this signer's key determines for a message.
    spec fn signature_spec(&self, msg: Seq<u8>) -> Seq<u8>;

    /// The scheme's fixed signature length.
    spec fn signature_len(&self) -> nat;

    /// Whether the matching verifier accepts a signature for a message.
    spec fn verifiable(&self, msg: Seq<u8>, sig: Seq<u8>) -> bool;

    /// Sign the whole message. Succeeds on every input, with the
    /// signature the key and message determine, of the scheme's fixed
    /// length, and accepted by the matching verifier.
    fn sign(&self, msg: &[u8]) -> (r: Result<Vec<u8>, TextError>)
        ensures
            r matches Ok(sig) && sig@ == self.signature_spec(msg@) && sig@.len()
                == self.signature_len() && self.verifiable(msg@, sig@),
    ;
}

/// The verify capability: check a signature against a whole message.
pub trait TextVerify {
    /// Whether this verifier's key accepts a signature for a message.
    spec fn accepts(&self, msg: Seq<u8>, sig: Seq<u8>) -> bool;

    /// The scheme's fixed signature length.
    spec fn expected_len(&self) -> nat;

    /// Check a signature of the scheme's fixed length against the whole
    /// message; a mismatch is a `false` result, not an error. A buffer of
    /// any other length fails with `MalformedSignature` before the check
    /// is attempted.
    fn verify(&self, msg: &[u8], sig: &[u8]) -> (r: Result<bool, TextError>)
        ensures
            sig@.len() == self.expected_len() ==> (r matches Ok(b) && b == self.accepts(
                msg@,
                sig@,
            )),
            sig@.len() != self.expected_len() ==> (r matches Err(e) && e
                == TextError::MalformedSignature),
    ;
}

/// The load half of the key lifecycle: key material from the raw bytes
/// of a key file.
pub trait KeyLoader: Sized {
    /// Whether these source bytes load successfully.
    spec fn load_ok(key: Seq<u8>) -> bool;

    /// The key bytes retained from the source bytes.
    spec fn loaded_key(key: Seq<u8>) -> Seq<u8>;

    /// The error when they do not load.
    spec fn load_err(key: Seq<u8>) -> TextError;

    /// The constructed value's key bytes.
    spec fn key_view(&self) -> Seq<u8>;

    /// Construct key material from the raw bytes of a key file.
    fn load(key: &[u8]) -> (r: Result<Self, TextError>)
        ensures
            r is Ok <==> Self::load_ok(key@),
            r matches Ok(v) ==> v.key_view() == Self::loaded_key(key@),
            r matches Err(e) ==> e == Self::load_err(key@),
    ;
}

/// The generate half of the key lifecycle: fresh key material as ordered
/// artifacts for the caller to persist.
pub trait KeyGenerator {
    /// What the returned artifacts look like: how many, their lengths,
    /// and how they relate.
    spec fn artifacts_ok(arts: Seq<Vec<u8>>) -> bool;

    /// Generate fresh key material. Fails only when the randomness
    /// source does.
    fn generate() -> (r: Result<Vec<Vec<u8>>, TextError>)
        ensures
            r matches Ok(a) ==> Self::artifacts_ok(a@),
            r matches Err(e) ==> e == TextError::RngUnavailable,
    ;
}

/// The symmetric keyed-hash scheme: one 32-byte key both signs and
/// verifies; the signature is the keyed digest of the message.
pub struct Blake3 {
    key: [u8; 32],
}

impl Blake3 {
    /// The key bytes this signer holds.
    pub closed spec fn key_spec(&self) -> Seq<u8> {
        self.key@
    }

    /// Wrap an exact 32-byte key.
    pub fn new(key: [u8; 32]) -> (s: Self)
        ensures
            s.key_spec() == key@,
    {
        Blake3 { key }
    }

    /// Key material from raw bytes: fewer than 32 are rejected, the first
    /// 32 of a longer buffer are kept and the rest dropped.
    pub fn try_new(key: &[u8]) -> (r: Result<Self, TextError>)
        ensures
            r is Ok <==> key@.len() >= 32,
            r matches Ok(v) ==> v.key_spec() == key@.take(32),
            r matches Err(e) ==> e == TextError::InvalidKeyLength,
    {
        if key.len() < 32 {
            return Result::Err(TextError::InvalidKeyLength);
        }
        Result::Ok(Blake3 { key: key_array(key) })
    }
}

impl TextSign for Blake3 {
    open spec fn signature_spec(&self, msg: Seq<u8>) -> Seq<u8> {
        blake3_keyed_hash(self.key_spec(), msg)
    }

    open spec fn signature_len(&self) -> nat {
        32
    }

    open spec fn verifiable(&self, msg: Seq<u8>, sig: Seq<u8>) -> bool {
        sig == blake3_keyed_hash(self.key_spec(), msg)
    }

    fn sign(&self, msg: &[u8]) -> (r: Result<Vec<u8>, TextError>) {
        Result::Ok(keyed_hash(&self.key, msg))
    }
}

impl TextVerify for Blake3 {
    open spec fn accepts(&self, msg: Seq<u8>, sig: Seq<u8>) -> bool {
        sig == blake3_keyed_hash(self.key_spec(), msg)
    }

    open spec fn expected_len(&self) -> nat {
        32
    }

    fn verify(&self, msg: &[u8], sig: &[u8]) -> (r: Result<bool, TextError>) {
        if sig.len() != 32 {
            return Result::Err(TextError::MalformedSignature);
        }
        let digest = keyed_hash(&self.key, msg);
        Result::Ok(bytes_eq(digest.as_slice(), sig))
    }
}

impl KeyLoader for Blake3 {
    open spec fn load_ok(key: Seq<u8>) -> bool {
        key.len() >= 32
    }

    open spec fn loaded_key(key: Seq<u8>) -> Seq<u8> {
        key.take(32)
    }

    open spec fn load_err(key: Seq<u8>) -> TextError {
        TextError::InvalidKeyLength
    }

    open spec fn key_view(&self) -> Seq<u8> {
        self.key_spec()
    }

    fn load(key: &[u8]) -> (r: Result<Self, TextError>) {
        Blake3::try_new(key)
    }
}

impl KeyGenerator for Blake3 {
    open spec fn artifacts_ok(arts: Seq<Vec<u8>>) -> bool {
        arts.len() == 1 && arts[0]@.len() == 32 && (forall|i: int|
            0 <= i < 32 ==> allowed_code(full_charset_opts(), #[trigger] arts[0]@[i] as int))
    }

    fn generate() -> (r: Result<Vec<Vec<u8>>, TextError>) {
        let opts = PwdOpts {
            length: 32,
            uppercase: true,
            lowercase: true,
            numbers: true,
            symbols: true,
        };
        let key = pwd_bytes(&opts)?;
        Result::Ok(vec![key])
    }
}

/// The options the symmetric generator draws under: 32 characters over
/// the full printable set.
pub open spec fn full_charset_opts() -> PwdOpts {
    PwdOpts { length: 32, uppercase: true, lowercase: true, numbers: true, symbols: true }
}

/// Law: the signature a symmetric signer determines for a message is
/// accepted when verified under the same key.
pub proof fn lemma_symmetric_sign_accepted(s: Blake3, msg: Seq<u8>)
    ensures
        s.accepts(msg, s.signature_spec(msg)),
{
}

/// The asymmetric scheme's signing half: a 32-byte seed from which the
/// key pair derives deterministically.
pub struct Ed255195Signer {
    key: [u8; 32],
}

impl Ed255195Signer {
    /// The seed bytes this signer holds.
    pub closed spec fn key_spec(&self) -> Seq<u8> {
        self.key@
    }

    /// Wrap an exact 32-byte seed.
    pub fn new(key: [u8; 32]) -> (s: Self)
        ensures
            s.key_spec() == key@,
    {
        Ed255195Signer { key }
    }

    /// Key material from raw bytes: exactly 32 are required, no
    /// truncation path.
    pub fn try_new(key: &[u8]) -> (r: Result<Self, TextError>)
        ensures
            r is Ok <==> key@.len() == 32,
            r matches Ok(v) ==> v.key_spec() == key@,
            r matches Err(e) ==> e == TextError::InvalidKeyLength,
    {
        if key.len() != 32 {
            return Result::Err(TextError::InvalidKeyLength);
        }
        let a = key_array(key);
        proof {
            assert(key@.take(32) =~= key@);
        }
        Result::Ok(Ed255195Signer { key: a })
    }
}

impl TextSign for Ed255195Signer {
    open spec fn signature_spec(&self, msg: Seq<u8>) -> Seq<u8> {
        ed25519_signature(self.key_spec(), msg)
    }

    open spec fn signature_len(&self) -> nat {
        64
    }

    open spec fn verifiable(&self, msg: Seq<u8>, sig: Seq<u8>) -> bool {
        ed25519_accepts(ed25519_public_key(self.key_spec()), msg, sig)
    }

    fn sign(&self, msg: &[u8]) -> (r: Result<Vec<u8>, TextError>) {
        Result::Ok(ed_sign(&self.key, msg))
    }
}

impl KeyLoader for Ed255195Signer {
    open spec fn load_ok(key: Seq<u8>) -> bool {
        key.len() == 32
    }

    open spec fn loaded_key(key: Seq<u8>) -> Seq<u8> {
        key
    }

    open spec fn load_err(key: Seq<u8>) -> TextError {
        TextError::InvalidKeyLength
    }

    open spec fn key_view(&self) -> Seq<u8> {
        self.key_spec()
    }

    fn load(key: &[u8]) -> (r: Result<Self, TextError>) {
        Ed255195Signer::try_new(key)
    }
}

impl KeyGenerator for Ed255195Signer {
    open spec fn artifacts_ok(arts: Seq<Vec<u8>>) -> bool {
        arts.len() == 2 && arts[0]@.len() == 32 && arts[1]@.len() == 32 && arts[1]@
            == ed25519_public_key(arts[0]@) && ed25519_key_ok(arts[1]@)
    }

    fn generate() -> (r: Result<Vec<Vec<u8>>, TextError>) {
        let seed = sys_random_seed()?;
        let pk = ed_public_key(&seed);
        let mut sk: Vec<u8> = Vec::new();
        let mut i: usize = 0;
        while i < 32
            invariant
                i <= 32,
                sk@ =~= seed@.take(i as int),
            decreases 32 - i,
        {
            sk.push(seed[i]);
            i = i + 1;
        }
        proof {
            assert(sk@ =~= seed@);
        }
        Result::Ok(vec![sk, pk])
    }
}

/// The asymmetric scheme's verifying half: a 32-byte public key,
/// independently loadable without the signing half.
pub struct Ed255195Verifier {
    key: [u8; 32],
}

impl Ed255195Verifier {
    /// The public-key bytes this verifier holds.
    pub closed spec fn key_spec(&self) -> Seq<u8> {
        self.key@
    }

    /// Wrap an exact 32-byte public key.
    pub fn new(key: [u8; 32]) -> (s: Self)
        ensures
            s.key_spec() == key@,
    {
        Ed255195Verifier { key }
    }

    /// Key material from raw bytes: the first 32 of a longer buffer are
    /// kept, fewer than 32 are rejected, and bytes that are no valid key
    /// encoding are rejected.
    pub fn try_new(key: &[u8]) -> (r: Result<Self, TextError>)
        ensures
            r is Ok <==> key@.len() >= 32 && ed25519_key_ok(key@.take(32)),
            r matches Ok(v) ==> v.key_spec() == key@.take(32),
            key@.len() < 32 ==> r == Result::<Self, TextError>::Err(TextError::InvalidKeyLength),
            key@.len() >= 32 && !ed25519_key_ok(key@.take(32)) ==> r == Result::<
                Self,
                TextError,
            >::Err(TextError::MalformedKey),
    {
        if key.len() < 32 {
            return Result::Err(TextError::InvalidKeyLength);
        }
        let a = key_array(key);
        if !ed_key_check(&a) {
            return Result::Err(TextError::MalformedKey);
        }
        Result::Ok(Ed255195Verifier { key: a })
    }
}

impl TextVerify for Ed255195Verifier {
    open spec fn accepts(&self, msg: Seq<u8>, sig: Seq<u8>) -> bool {
        ed25519_accepts(self.key_spec(), msg, sig)
    }

    open spec fn expected_len(&self) -> nat {
        64
    }

    fn verify(&self, msg: &[u8], sig: &[u8]) -> (r: Result<bool, TextError>) {
        if sig.len() != 64 {
            return Result::Err(TextError::MalformedSignature);
        }
        let sa = sig_array(sig);
        Result::Ok(ed_verify(&self.key, msg, &sa))
    }
}

impl KeyLoader for Ed255195Verifier {
    open spec fn load_ok(key: Seq<u8>) -> bool {
        key.len() >= 32 && ed25519_key_ok(key.take(32))
    }

    open spec fn loaded_key(key: Seq<u8>) -> Seq<u8> {
        key.take(32)
    }

    open spec fn load_err(key: Seq<u8>) -> TextError {
        if key.len() < 32 {
            TextError::InvalidKeyLength
        } else {
            TextError::MalformedKey
        }
    }

    open spec fn key_view(&self) -> Seq<u8> {
        self.key_spec()
    }

    fn load(key: &[u8]) -> (r: Result<Self, TextError>) {
        Ed255195Verifier::try_new(key)
    }
}

} // verus!
