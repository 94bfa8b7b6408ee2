//! Scheme and encoding identifiers selected by the caller.

use vstd::prelude::*;

use crate::strutil::str_eq;

verus! {

/// The scheme identifier: which signing scheme and key-material variant
/// an invocation works under. One identifier per invocation; never mixed
/// within a single sign or verify call.
#[derive(Clone, Copy, Debug, PartialEq, Eq, Structural)]
pub enum TextSignFormat {
    /// The symmetric keyed-hash scheme.
    Blake3,
    /// The asymmetric signature scheme.
    Ed25519,
}

impl TextSignFormat {
    /// The identifier's textual name.
    pub open spec fn name_spec(&self) -> Seq<char> {
        match self {
            TextSignFormat::Blake3 => "blake3"@,
            TextSignFormat::Ed25519 => "ed25519"@,
        }
    }

    /// The identifier's textual name.
    pub fn name(&self) -> (r: &'static str)
        ensures
            r@ == self.name_spec(),
    {
        match self {
            TextSignFormat::Blake3 => "blake3",
            TextSignFormat::Ed25519 => "ed25519",
        }
    }
}

/// Parse a scheme identifier; only its two textual names are accepted.
pub fn parse_text_format(format: &str) -> (r: Result<TextSignFormat, &'static str>)
    ensures
        r == Result::<TextSignFormat, &'static str>::Ok(TextSignFormat::Blake3) <==> format@
            == "blake3"@,
        r == Result::<TextSignFormat, &'static str>::Ok(TextSignFormat::Ed25519) <==> format@
            == "ed25519"@,
        r matches Err(e) ==> e@ == "unknown sign format"@,
{
    proof {
        reveal_strlit("blake3");
        reveal_strlit("ed25519");
        assert("blake3"@.len() == 6);
        assert("ed25519"@.len() == 7);
    }
    if str_eq(format, "blake3") {
        Result::Ok(TextSignFormat::Blake3)
    } else if str_eq(format, "ed25519") {
        Result::Ok(TextSignFormat::Ed25519)
    } else {
        Result::Err("unknown sign format")
    }
}

impl core::str::FromStr for TextSignFormat {
    type Err = &'static str;

    fn from_str(s: &str) -> Result<Self, Self::Err> {
        parse_text_format(s)
    }
}

/// The encoding identifier of the transcoding surface: the standard
/// alphabet with padding, or the URL-safe alphabet without it.
#[derive(Clone, Copy, Debug, PartialEq, Eq, Structural)]
pub enum Base64Format {
    UrlSafe,
    Standard,
}

impl Base64Format {
    /// The identifier's textual name.
    pub open spec fn name_spec(&self) -> Seq<char> {
        match self {
            Base64Format::UrlSafe => "urlsafe"@,
            Base64Format::Standard => "standard"@,
        }
    }

    /// The identifier's textual name.
    pub fn name(&self) -> (r: &'static str)
        ensures
            r@ == self.name_spec(),
    {
        match self {
            Base64Format::UrlSafe => "urlsafe",
            Base64Format::Standard => "standard",
        }
    }
}

/// Parse an encoding identifier; only its two textual names are accepted.
pub fn parse_base64_format(format: &str) -> (r: Result<Base64Format, &'static str>)
    ensures
        r == Result::<Base64Format, &'static str>::Ok(Base64Format::UrlSafe) <==> format@
            == "urlsafe"@,
        r == Result::<Base64Format, &'static str>::Ok(Base64Format::Standard) <==> format@
            == "standard"@,
        r matches Err(e) ==> e@ == "invalid base64 format"@,
{
    proof {
        reveal_strlit("urlsafe");
        reveal_strlit("standard");
        assert("urlsafe"@.len() == 7);
        assert("standard"@.len() == 8);
    }
    if str_eq(format, "urlsafe") {
        Result::Ok(Base64Format::UrlSafe)
    } else if str_eq(format, "standard") {
        Result::Ok(Base64Format::Standard)
    } else {
        Result::Err("invalid base64 format")
    }
}

impl core::str::FromStr for Base64Format {
    type Err = &'static str;

    fn from_str(s: &str) -> Result<Self, Self::Err> {
        parse_base64_format(s)
    }
}

} // verus!
