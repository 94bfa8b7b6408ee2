//! Text signing and verification: a keyed-hash scheme and an asymmetric
//! signature scheme behind one uniform sign/verify interface, the key
//! lifecycle (load, generate, validate) each scheme requires, and the
//! URL-safe unpadded textual codec used to display and transport signatures.

pub mod codec;
pub mod dispatch;
pub mod error;
pub mod format;
pub mod paths;
pub mod pwd;
mod rng;
pub mod sign;
mod strutil;

pub use dispatch::TextKeyGenerateOpts;
pub use dispatch::TextSignOpts;
pub use dispatch::TextSubCommand;
pub use dispatch::TextVerifyOpts;
pub use dispatch::process_text_generate;
pub use dispatch::process_text_sign;
pub use dispatch::process_text_verify;
pub use error::TextError;
pub use format::Base64Format;
pub use format::TextSignFormat;
pub use format::parse_base64_format;
pub use format::parse_text_format;
pub use paths::verify_file;
pub use paths::verify_input_file;
pub use paths::verify_path;
pub use pwd::PwdOpts;
pub use pwd::process_pwd;
pub use sign::Blake3;
pub use sign::Ed255195Signer;
pub use sign::Ed255195Verifier;
pub use sign::KeyGenerator;
pub use sign::KeyLoader;
pub use sign::TextSign;
pub use sign::TextVerify;
