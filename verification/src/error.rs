//! The error taxonomy of the signing subsystem.
//!
//! Every failure is reported to the caller as one of these values; none is
//! retried internally. A verification mismatch is never an error: it is the
//! designed `false` outcome of a successful `verify` call.

use vstd::prelude::*;

verus! {

/// What went wrong, by stage: reading a source, loading key material,
/// decoding signature text, or drawing randomness. Error values carry no
/// key or signature bytes.
#[derive(Clone, Copy, Debug, PartialEq, Eq, Structural)]
pub enum TextError {
    /// A byte source could not be read to exhaustion.
    IOError,
    /// A key file held fewer bytes than the scheme requires.
    InvalidKeyLength,
    /// The operation needs the other variant of key material (a signing
    /// key where only a verifying key was loaded, or the reverse).
    WrongKeyType,
    /// A signature buffer's length does not match the scheme's fixed
    /// signature length.
    MalformedSignature,
    /// Signature text failed to decode (a character outside the alphabet,
    /// or a length no whole number of bytes can encode to).
    InvalidEncoding,
    /// A verifying key of the right length is not a valid key encoding.
    MalformedKey,
    /// The randomness source failed; fatal, generation only.
    RngUnavailable,
}

impl TextError {
    /// A short diagnostic name, for display by callers.
    pub fn describe(&self) -> (r: &'static str)
        ensures
            r@ == self.describe_spec(),
    {
        match self {
            TextError::IOError => "input could not be read",
            TextError::InvalidKeyLength => "key file is shorter than the scheme requires",
            TextError::WrongKeyType => "operation needs the other kind of key",
            TextError::MalformedSignature => "signature length does not match the scheme",
            TextError::InvalidEncoding => "signature text is not valid encoded data",
            TextError::MalformedKey => "key bytes are not a valid key encoding",
            TextError::RngUnavailable => "randomness source failed",
        }
    }

    /// The diagnostic name of each variant.
    pub open spec fn describe_spec(&self) -> Seq<char> {
        match self {
            TextError::IOError => "input could not be read"@,
            TextError::InvalidKeyLength => "key file is shorter than the scheme requires"@,
            TextError::WrongKeyType => "operation needs the other kind of key"@,
            TextError::MalformedSignature => "signature length does not match the scheme"@,
            TextError::InvalidEncoding => "signature text is not valid encoded data"@,
            TextError::MalformedKey => "key bytes are not a valid key encoding"@,
            TextError::RngUnavailable => "randomness source failed"@,
        }
    }
}

} // verus!
