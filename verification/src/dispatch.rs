//! The dispatcher: given a scheme identifier and an operation, select the
//! matching key lifecycle and signing scheme, perform the operation, and
//! return the encoded signature (sign), the boolean verification result
//! (verify), or the ordered artifact list (generate). Pure routing plus
//! error propagation; the caller supplies the message and key-file bytes.

use vstd::prelude::*;

use crate::codec::decode;
use crate::codec::decode_spec;
use crate::codec::encode;
use crate::codec::encode_spec;
use crate::codec::trim;
use crate::codec::trim_spec;
use crate::error::TextError;
use crate::format::TextSignFormat;
use crate::pwd::allowed_code;
use crate::sign::Blake3;
use crate::sign::Ed255195Signer;
use crate::sign::Ed255195Verifier;
use crate::sign::KeyGenerator;
use crate::sign::KeyLoader;
use crate::sign::TextSign;
use crate::sign::TextVerify;
use crate::sign::blake3_keyed_hash;
use crate::sign::ed25519_accepts;
use crate::sign::ed25519_key_ok;
use crate::sign::ed25519_public_key;
use crate::sign::ed25519_signature;
use crate::sign::full_charset_opts;
use crate::strutil::push_char;

verus! {

/// What a sign invocation carries: the input source name, the key source
/// name, and the scheme identifier. The caller resolves the two names to
/// bytes.
pub struct TextSignOpts {
    pub input: String,
    pub key: String,
    pub format: TextSignFormat,
}

/// What a verify invocation carries: the input source name, the key
/// source name, the signature text, and the scheme identifier.
pub struct TextVerifyOpts {
    pub input: String,
    pub key: String,
    pub signature: String,
    pub format: TextSignFormat,
}

/// What a generate invocation carries: the scheme identifier and the
/// output location the caller persists the artifacts under.
pub struct TextKeyGenerateOpts {
    pub format: TextSignFormat,
    pub output: String,
}

/// The three operations of the signing surface.
pub enum TextSubCommand {
    Sign(TextSignOpts),
    Verify(TextVerifyOpts),
    Generate(TextKeyGenerateOpts),
}

/// ASCII bytes read as text, character for character.
pub open spec fn text_of(bytes: Seq<u8>) -> Seq<char> {
    bytes.map_values(|b: u8| b as char)
}

/// A `String` whose characters are the bytes, one for one.
fn ascii_text(bytes: &[u8]) -> (s: String)
    ensures
        s@ == text_of(bytes@),
{
    let mut s = String::new();
    let mut i: usize = 0;
    while i < bytes.len()
        invariant
            i <= bytes@.len(),
            s@ =~= text_of(bytes@.take(i as int)),
        decreases bytes@.len() - i,
    {
        let b = bytes[i];
        push_char(&mut s, b as char);
        proof {
            assert(bytes@.take(i + 1) =~= bytes@.take(i as int).push(b));
            assert(s@ =~= text_of(bytes@.take(i + 1)));
        }
        i = i + 1;
    }
    proof {
        assert(bytes@.take(bytes@.len() as int) =~= bytes@);
    }
    s
}

/// The raw signature a sign invocation produces, or the error it fails
/// with, per scheme.
pub open spec fn sign_result_spec(input: Seq<u8>, key: Seq<u8>, format: TextSignFormat) -> Result<
    Seq<u8>,
    TextError,
> {
    match format {
        TextSignFormat::Blake3 => if key.len() >= 32 {
            Result::Ok(blake3_keyed_hash(key.take(32), input))
        } else {
            Result::Err(TextError::InvalidKeyLength)
        },
        TextSignFormat::Ed25519 => if key.len() == 32 {
            Result::Ok(ed25519_signature(key, input))
        } else {
            Result::Err(TextError::InvalidKeyLength)
        },
    }
}

/// Sign the input under the key loaded from raw key-file bytes, and
/// return the signature in its textual encoding.
pub fn process_text_sign(input: &[u8], key: &[u8], format: TextSignFormat) -> (r: Result<
    String,
    TextError,
>)
    ensures
        match sign_result_spec(input@, key@, format) {
            Result::Ok(sig) => r matches Ok(s) && s@ == text_of(encode_spec(sig)),
            Result::Err(e) => r == Result::<String, TextError>::Err(e),
        },
        format == TextSignFormat::Ed25519 && key@.len() == 32 ==> ed25519_accepts(
            ed25519_public_key(key@),
            input@,
            ed25519_signature(key@, input@),
        ),
{
    let signed = match format {
        TextSignFormat::Blake3 => {
            let signer = Blake3::load(key)?;
            let sig = signer.sign(input)?;
            sig
        },
        TextSignFormat::Ed25519 => {
            let signer = Ed255195Signer::load(key)?;
            let sig = signer.sign(input)?;
            sig
        },
    };
    let encoded = encode(signed.as_slice());
    Result::Ok(ascii_text(encoded.as_slice()))
}

/// The boolean result a verify invocation returns, or the error it fails
/// with: decode the signature text, load the key, check the signature
/// length, then check the signature.
pub open spec fn verify_result_spec(
    input: Seq<u8>,
    key: Seq<u8>,
    sig_text: Seq<u8>,
    format: TextSignFormat,
) -> Result<bool, TextError> {
    match decode_spec(trim_spec(sig_text)) {
        Option::None => Result::Err(TextError::InvalidEncoding),
        Option::Some(sig) => match format {
            TextSignFormat::Blake3 => if key.len() < 32 {
                Result::Err(TextError::InvalidKeyLength)
            } else if sig.len() != 32 {
                Result::Err(TextError::MalformedSignature)
            } else {
                Result::Ok(sig == blake3_keyed_hash(key.take(32), input))
            },
            TextSignFormat::Ed25519 => if key.len() < 32 {
                Result::Err(TextError::InvalidKeyLength)
            } else if !ed25519_key_ok(key.take(32)) {
                Result::Err(TextError::MalformedKey)
            } else if sig.len() != 64 {
                Result::Err(TextError::MalformedSignature)
            } else {
                Result::Ok(ed25519_accepts(key.take(32), input, sig))
            },
        },
    }
}

/// Verify the textual signature over the input under the key loaded from
/// raw key-file bytes. A mismatch is a `false` result, not an error.
pub fn process_text_verify(input: &[u8], key: &[u8], sig_text: &[u8], format: TextSignFormat) -> (r:
    Result<bool, TextError>)
    ensures
        r == verify_result_spec(input@, key@, sig_text@, format),
{
    let trimmed = trim(sig_text);
    let sig = match decode(trimmed.as_slice()) {
        Result::Ok(s) => s,
        Result::Err(e) => {
            return Result::Err(e);
        },
    };
    match format {
        TextSignFormat::Blake3 => {
            let signer = Blake3::load(key)?;
            let v = signer.verify(input, sig.as_slice())?;
            Result::Ok(v)
        },
        TextSignFormat::Ed25519 => {
            let verifier = Ed255195Verifier::load(key)?;
            let v = verifier.verify(input, sig.as_slice())?;
            Result::Ok(v)
        },
    }
}

/// Generate fresh key material for the scheme: one 32-byte artifact for
/// the symmetric scheme; a 32-byte signing seed then the 32-byte
/// verifying key derived from it for the asymmetric scheme.
pub fn process_text_generate(format: TextSignFormat) -> (r: Result<Vec<Vec<u8>>, TextError>)
    ensures
        format == TextSignFormat::Blake3 ==> (r matches Ok(a) ==> a@.len() == 1 && a@[0]@.len()
            == 32 && (forall|i: int|
            0 <= i < 32 ==> allowed_code(full_charset_opts(), #[trigger] a@[0]@[i] as int))),
        format == TextSignFormat::Ed25519 ==> (r matches Ok(a) ==> a@.len() == 2 && a@[0]@.len()
            == 32 && a@[1]@.len() == 32 && a@[1]@ == ed25519_public_key(a@[0]@) && ed25519_key_ok(
            a@[1]@,
        )),
        r matches Err(e) ==> e == TextError::RngUnavailable,
{
    match format {
        TextSignFormat::Blake3 => Blake3::generate(),
        TextSignFormat::Ed25519 => Ed255195Signer::generate(),
    }
}

/// Law: under the symmetric scheme, the textual signature a sign
/// invocation produces for a message is accepted by a verify invocation
/// over the same message and the same key file.
pub proof fn lemma_sign_verify_round_trip_symmetric(input: Seq<u8>, key: Seq<u8>, sig: Seq<u8>)
    requires
        key.len() >= 32,
        sig == blake3_keyed_hash(key.take(32), input),
        sig.len() == 32,
    ensures
        sign_result_spec(input, key, TextSignFormat::Blake3) == Result::<Seq<u8>, TextError>::Ok(
            sig,
        ),
        verify_result_spec(input, key, encode_spec(sig), TextSignFormat::Blake3) == Result::<
            bool,
            TextError,
        >::Ok(true),
{
    crate::codec::lemma_trim_encode(sig);
    crate::codec::lemma_codec_round_trip(sig);
}

/// Law: under the asymmetric scheme, the textual signature a sign
/// invocation produces for a message is accepted by a verify invocation
/// over the same message and the public key derived from the signing
/// seed.
pub proof fn lemma_sign_verify_round_trip_asymmetric(input: Seq<u8>, pk: Seq<u8>, sig: Seq<u8>)
    requires
        pk.len() == 32,
        sig.len() == 64,
        ed25519_key_ok(pk),
        ed25519_accepts(pk, input, sig),
    ensures
        verify_result_spec(input, pk, encode_spec(sig), TextSignFormat::Ed25519) == Result::<
            bool,
            TextError,
        >::Ok(true),
{
    crate::codec::lemma_trim_encode(sig);
    crate::codec::lemma_codec_round_trip(sig);
    assert(pk.take(32) =~= pk);
}

} // verus!
