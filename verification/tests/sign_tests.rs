use ed25519_dalek::Signer;

use rcli::Blake3;
use rcli::Ed255195Signer;
use rcli::Ed255195Verifier;
use rcli::KeyGenerator;
use rcli::KeyLoader;
use rcli::TextError;
use rcli::TextSign;
use rcli::TextVerify;

fn sample_key(fill: u8) -> Vec<u8> {
    vec![fill; 32]
}

#[test]
fn blake3_sign_verify_round_trip() {
    let signer = Blake3::load(&sample_key(7)).unwrap();
    let msgs: [&[u8]; 3] = [b"", b"hello", b"a longer message with some length to it"];
    for msg in msgs {
        let sig = signer.sign(msg).unwrap();
        assert_eq!(sig.len(), 32);
        assert_eq!(signer.verify(msg, &sig), Ok(true));
    }
}

#[test]
fn blake3_matches_reference_digest() {
    let key = [9u8; 32];
    let signer = Blake3::new(key);
    let msg = b"grounding the wrapper";
    let sig = signer.sign(msg).unwrap();
    let reference = blake3::keyed_hash(&key, msg);
    assert_eq!(sig.as_slice(), reference.as_bytes());
}

#[test]
fn blake3_rejects_other_key() {
    let signer = Blake3::load(&sample_key(7)).unwrap();
    let other = Blake3::load(&sample_key(8)).unwrap();
    let sig = signer.sign(b"hello").unwrap();
    assert_eq!(other.verify(b"hello", &sig), Ok(false));
}

#[test]
fn blake3_tamper_sensitivity() {
    let signer = Blake3::load(&sample_key(3)).unwrap();
    let msg = b"tamper with me";
    let sig = signer.sign(msg).unwrap();
    for byte in 0..sig.len() {
        for bit in 0..8 {
            let mut bad = sig.clone();
            bad[byte] ^= 1u8 << bit;
            assert_eq!(signer.verify(msg, &bad), Ok(false));
        }
    }
}

#[test]
fn blake3_signature_length_is_checked() {
    let signer = Blake3::load(&sample_key(3)).unwrap();
    assert_eq!(
        signer.verify(b"x", &[0u8; 31]),
        Err(TextError::MalformedSignature)
    );
    assert_eq!(
        signer.verify(b"x", &[0u8; 33]),
        Err(TextError::MalformedSignature)
    );
}

#[test]
fn blake3_key_length_rules() {
    // 31 bytes: too short
    assert!(matches!(
        Blake3::try_new(&[5u8; 31]),
        Err(TextError::InvalidKeyLength)
    ));
    // 40 bytes: the first 32 are used
    let mut long = vec![5u8; 40];
    for (i, b) in long.iter_mut().enumerate() {
        *b = i as u8;
    }
    let from_long = Blake3::try_new(&long).unwrap();
    let mut exact = long.clone();
    exact.truncate(32);
    let from_exact = Blake3::try_new(&exact).unwrap();
    let sig_long = from_long.sign(b"same key?").unwrap();
    let sig_exact = from_exact.sign(b"same key?").unwrap();
    assert_eq!(sig_long, sig_exact);
}

#[test]
fn blake3_generate_one_printable_artifact() {
    let arts = Blake3::generate().unwrap();
    assert_eq!(arts.len(), 1);
    assert_eq!(arts[0].len(), 32);
    for &b in &arts[0] {
        assert!(b.is_ascii_graphic());
    }
}

#[test]
fn ed25519_sign_verify_round_trip() {
    let arts = Ed255195Signer::generate().unwrap();
    assert_eq!(arts.len(), 2);
    assert_eq!(arts[0].len(), 32);
    assert_eq!(arts[1].len(), 32);
    let signer = Ed255195Signer::load(&arts[0]).unwrap();
    let verifier = Ed255195Verifier::load(&arts[1]).unwrap();
    let msgs: [&[u8]; 3] = [b"", b"hello", b"a longer message with some length to it"];
    for msg in msgs {
        let sig = signer.sign(msg).unwrap();
        assert_eq!(sig.len(), 64);
        assert_eq!(verifier.verify(msg, &sig), Ok(true));
    }
}

#[test]
fn ed25519_matches_reference_signature() {
    let seed = [11u8; 32];
    let signer = Ed255195Signer::new(seed);
    let msg = b"grounding the wrapper";
    let sig = signer.sign(msg).unwrap();
    let reference = ed25519_dalek::SigningKey::from_bytes(&seed).sign(msg);
    assert_eq!(sig.as_slice(), reference.to_bytes().as_slice());
}

#[test]
fn ed25519_rejects_other_public_key() {
    let a = Ed255195Signer::generate().unwrap();
    let b = Ed255195Signer::generate().unwrap();
    let signer = Ed255195Signer::load(&a[0]).unwrap();
    let other_pk = Ed255195Verifier::load(&b[1]).unwrap();
    let sig = signer.sign(b"hello").unwrap();
    assert_eq!(other_pk.verify(b"hello", &sig), Ok(false));
}

#[test]
fn ed25519_tamper_sensitivity() {
    let arts = Ed255195Signer::generate().unwrap();
    let signer = Ed255195Signer::load(&arts[0]).unwrap();
    let verifier = Ed255195Verifier::load(&arts[1]).unwrap();
    let msg = b"tamper with me";
    let sig = signer.sign(msg).unwrap();
    for byte in 0..sig.len() {
        let mut bad = sig.clone();
        bad[byte] ^= 1;
        assert_eq!(verifier.verify(msg, &bad), Ok(false));
    }
}

#[test]
fn ed25519_signature_length_is_checked() {
    let arts = Ed255195Signer::generate().unwrap();
    let verifier = Ed255195Verifier::load(&arts[1]).unwrap();
    assert_eq!(
        verifier.verify(b"x", &[0u8; 63]),
        Err(TextError::MalformedSignature)
    );
    assert_eq!(
        verifier.verify(b"x", &[0u8; 65]),
        Err(TextError::MalformedSignature)
    );
}

#[test]
fn ed25519_key_length_rules() {
    assert!(matches!(
        Ed255195Signer::try_new(&[1u8; 31]),
        Err(TextError::InvalidKeyLength)
    ));
    assert!(matches!(
        Ed255195Signer::try_new(&[1u8; 33]),
        Err(TextError::InvalidKeyLength)
    ));
    assert!(Ed255195Signer::try_new(&[1u8; 32]).is_ok());
    assert!(matches!(
        Ed255195Verifier::try_new(&[1u8; 31]),
        Err(TextError::InvalidKeyLength)
    ));
}

#[test]
fn ed25519_verifier_rejects_invalid_encoding() {
    // at least one constant pattern is no valid public-key encoding
    let mut saw_malformed = false;
    for c in 0u8..=255 {
        match Ed255195Verifier::try_new(&[c; 32]) {
            Err(TextError::MalformedKey) => {
                saw_malformed = true;
                break;
            }
            Err(e) => panic!("unexpected error: {e:?}"),
            Ok(_) => {}
        }
    }
    assert!(saw_malformed);
}

#[test]
fn ed25519_verifier_keeps_first_32_bytes() {
    let arts = Ed255195Signer::generate().unwrap();
    let mut long = arts[1].clone();
    long.extend_from_slice(b"trailing garbage");
    let verifier = Ed255195Verifier::load(&long).unwrap();
    let signer = Ed255195Signer::load(&arts[0]).unwrap();
    let sig = signer.sign(b"payload").unwrap();
    assert_eq!(verifier.verify(b"payload", &sig), Ok(true));
}
