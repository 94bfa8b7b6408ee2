use rcli::TextError;
use rcli::TextSignFormat;
use rcli::process_text_generate;
use rcli::process_text_sign;
use rcli::process_text_verify;

#[test]
fn symmetric_sign_then_verify_is_true() {
    let key = vec![42u8; 32];
    let msg = b"the quick brown fox";
    let sig_text = process_text_sign(msg, &key, TextSignFormat::Blake3).unwrap();
    let verified = process_text_verify(msg, &key, sig_text.as_bytes(), TextSignFormat::Blake3);
    assert_eq!(verified, Ok(true));
}

#[test]
fn symmetric_verify_under_other_key_is_false() {
    let key = vec![42u8; 32];
    let other = vec![43u8; 32];
    let msg = b"the quick brown fox";
    let sig_text = process_text_sign(msg, &key, TextSignFormat::Blake3).unwrap();
    let verified = process_text_verify(msg, &other, sig_text.as_bytes(), TextSignFormat::Blake3);
    assert_eq!(verified, Ok(false));
}

#[test]
fn asymmetric_sign_then_verify_is_true() {
    let keys = process_text_generate(TextSignFormat::Ed25519).unwrap();
    let msg = b"signed at the dispatcher";
    let sig_text = process_text_sign(msg, &keys[0], TextSignFormat::Ed25519).unwrap();
    let verified =
        process_text_verify(msg, &keys[1], sig_text.as_bytes(), TextSignFormat::Ed25519);
    assert_eq!(verified, Ok(true));
}

#[test]
fn asymmetric_verify_under_other_key_is_false() {
    let keys = process_text_generate(TextSignFormat::Ed25519).unwrap();
    let other = process_text_generate(TextSignFormat::Ed25519).unwrap();
    let msg = b"signed at the dispatcher";
    let sig_text = process_text_sign(msg, &keys[0], TextSignFormat::Ed25519).unwrap();
    let verified =
        process_text_verify(msg, &other[1], sig_text.as_bytes(), TextSignFormat::Ed25519);
    assert_eq!(verified, Ok(false));
}

#[test]
fn empty_input_signs_under_both_schemes() {
    let key = vec![1u8; 32];
    let sig_text = process_text_sign(b"", &key, TextSignFormat::Blake3).unwrap();
    // 32 bytes encode to 43 characters without padding
    assert_eq!(sig_text.len(), 43);
    assert_eq!(
        process_text_verify(b"", &key, sig_text.as_bytes(), TextSignFormat::Blake3),
        Ok(true)
    );

    let keys = process_text_generate(TextSignFormat::Ed25519).unwrap();
    let sig_text = process_text_sign(b"", &keys[0], TextSignFormat::Ed25519).unwrap();
    // 64 bytes encode to 86 characters without padding
    assert_eq!(sig_text.len(), 86);
    assert_eq!(
        process_text_verify(b"", &keys[1], sig_text.as_bytes(), TextSignFormat::Ed25519),
        Ok(true)
    );
}

#[test]
fn generate_returns_ordered_artifacts() {
    let symmetric = process_text_generate(TextSignFormat::Blake3).unwrap();
    assert_eq!(symmetric.len(), 1);
    assert_eq!(symmetric[0].len(), 32);

    let asymmetric = process_text_generate(TextSignFormat::Ed25519).unwrap();
    assert_eq!(asymmetric.len(), 2);
    assert_eq!(asymmetric[0].len(), 32);
    assert_eq!(asymmetric[1].len(), 32);
    // signing key first, verifying key second: the second is derived from
    // the first
    let derived = ed25519_dalek::SigningKey::from_bytes(asymmetric[0].as_slice().try_into().unwrap())
        .verifying_key();
    assert_eq!(asymmetric[1].as_slice(), derived.to_bytes().as_slice());
}

#[test]
fn verify_trims_surrounding_whitespace() {
    let key = vec![42u8; 32];
    let msg = b"whitespace around the signature";
    let sig_text = process_text_sign(msg, &key, TextSignFormat::Blake3).unwrap();
    let padded = format!("  {}\r\n", sig_text);
    let verified = process_text_verify(msg, &key, padded.as_bytes(), TextSignFormat::Blake3);
    assert_eq!(verified, Ok(true));
}

#[test]
fn verify_rejects_malformed_signature_text() {
    let key = vec![42u8; 32];
    assert_eq!(
        process_text_verify(b"x", &key, b"not*base64", TextSignFormat::Blake3),
        Err(TextError::InvalidEncoding)
    );
}

#[test]
fn verify_rejects_wrong_signature_length() {
    let key = vec![42u8; 32];
    // "AAAA" decodes to 3 bytes: well-formed text, wrong length
    assert_eq!(
        process_text_verify(b"x", &key, b"AAAA", TextSignFormat::Blake3),
        Err(TextError::MalformedSignature)
    );
    let keys = process_text_generate(TextSignFormat::Ed25519).unwrap();
    assert_eq!(
        process_text_verify(b"x", &keys[1], b"AAAA", TextSignFormat::Ed25519),
        Err(TextError::MalformedSignature)
    );
}

#[test]
fn sign_rejects_short_keys() {
    assert_eq!(
        process_text_sign(b"x", &vec![1u8; 31], TextSignFormat::Blake3),
        Err(TextError::InvalidKeyLength)
    );
    assert_eq!(
        process_text_sign(b"x", &vec![1u8; 31], TextSignFormat::Ed25519),
        Err(TextError::InvalidKeyLength)
    );
    // the asymmetric signing key has no truncation path
    assert_eq!(
        process_text_sign(b"x", &vec![1u8; 40], TextSignFormat::Ed25519),
        Err(TextError::InvalidKeyLength)
    );
    // the symmetric key does: the first 32 bytes are kept
    assert!(process_text_sign(b"x", &vec![1u8; 40], TextSignFormat::Blake3).is_ok());
}
