use std::str::FromStr;

use rcli::Base64Format;
use rcli::PwdOpts;
use rcli::TextError;
use rcli::TextSignFormat;
use rcli::parse_base64_format;
use rcli::parse_text_format;
use rcli::process_pwd;
use rcli::verify_file;
use rcli::verify_path;

#[test]
fn test_verify_input_file() {
    assert_eq!(verify_file("-"), Ok("-".into()));
    assert_eq!(
        verify_file("nonexistent"),
        Err("Input file does not exist.")
    );
    // The runner's working directory need not hold the package manifest;
    // when it does, the name is accepted as-is.
    if verify_file("Cargo.toml").is_ok() {
        assert_eq!(verify_file("Cargo.toml"), Ok("Cargo.toml".into()));
    }
    // A source file of this crate is always there to accept.
    assert_eq!(verify_file("src/lib.rs"), Ok("src/lib.rs".into()));
}

#[test]
fn verify_input_file_without_sentinel() {
    assert_eq!(
        rcli::verify_input_file("nonexistent"),
        Err("Input file does not exist.".to_string())
    );
    assert_eq!(
        rcli::verify_input_file("src/lib.rs"),
        Ok("src/lib.rs".to_string())
    );
}

#[test]
fn verify_path_accepts_directories_only() {
    assert_eq!(verify_path("."), Ok(".".into()));
    assert_eq!(
        verify_path("Cargo.toml"),
        Err("Path does not exist or is not a directory.")
    );
    assert_eq!(
        verify_path("nonexistent"),
        Err("Path does not exist or is not a directory.")
    );
}

#[test]
fn text_format_parsing() {
    assert!(matches!(
        parse_text_format("blake3"),
        Ok(TextSignFormat::Blake3)
    ));
    assert!(matches!(
        parse_text_format("ed25519"),
        Ok(TextSignFormat::Ed25519)
    ));
    assert!(parse_text_format("rsa").is_err());
    assert!(matches!(
        TextSignFormat::from_str("blake3"),
        Ok(TextSignFormat::Blake3)
    ));
    assert_eq!(TextSignFormat::Blake3.name(), "blake3");
    assert_eq!(TextSignFormat::Ed25519.name(), "ed25519");
}

#[test]
fn base64_format_parsing() {
    assert!(matches!(
        parse_base64_format("urlsafe"),
        Ok(Base64Format::UrlSafe)
    ));
    assert!(matches!(
        parse_base64_format("standard"),
        Ok(Base64Format::Standard)
    ));
    assert!(parse_base64_format("mime").is_err());
    assert!(matches!(
        Base64Format::from_str("urlsafe"),
        Ok(Base64Format::UrlSafe)
    ));
    assert_eq!(Base64Format::UrlSafe.name(), "urlsafe");
    assert_eq!(Base64Format::Standard.name(), "standard");
}

#[test]
fn pwd_draws_from_enabled_classes() {
    let opts = PwdOpts {
        length: 16,
        uppercase: true,
        lowercase: true,
        numbers: true,
        symbols: false,
    };
    let pwd = process_pwd(&opts).unwrap();
    assert_eq!(pwd.len(), 16);
    for c in pwd.chars() {
        assert!(c.is_ascii_alphanumeric());
    }

    let digits_only = PwdOpts {
        length: 8,
        uppercase: false,
        lowercase: false,
        numbers: true,
        symbols: false,
    };
    let pwd = process_pwd(&digits_only).unwrap();
    assert_eq!(pwd.len(), 8);
    for c in pwd.chars() {
        assert!(c.is_ascii_digit());
    }
}

#[test]
fn command_surface_types_carry_their_fields() {
    let sign = rcli::TextSignOpts {
        input: "-".to_string(),
        key: "key.bin".to_string(),
        format: TextSignFormat::Blake3,
    };
    let cmd = rcli::TextSubCommand::Sign(sign);
    match cmd {
        rcli::TextSubCommand::Sign(s) => {
            assert_eq!(s.input, "-");
            assert_eq!(s.key, "key.bin");
        }
        _ => panic!("wrong variant"),
    }
    let generate = rcli::TextKeyGenerateOpts {
        format: TextSignFormat::Ed25519,
        output: ".".to_string(),
    };
    assert_eq!(generate.output, ".");
}

#[test]
fn error_descriptions_name_the_stage() {
    assert_eq!(
        TextError::InvalidKeyLength.describe(),
        "key file is shorter than the scheme requires"
    );
    assert_eq!(
        TextError::InvalidEncoding.describe(),
        "signature text is not valid encoded data"
    );
    assert_ne!(
        TextError::MalformedSignature.describe(),
        TextError::MalformedKey.describe()
    );
}
