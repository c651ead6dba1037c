use solkit::codec::{base58_decode, base58_encode, base58_round_trip, base64_decode, base64_encode,
    base64_round_trip};
use solkit::keys::{generate_keypair, generated_keypair_well_formed, parse_keypair,
    parse_public_key};
use solkit::response::{error, success, ApiError, ApiResponse};
use solkit::signer::{sign, sign_deterministic, sign_message, sign_verify_round_trip, verify,
    verify_message, SignMessageRequest, VerifyMessageRequest};

#[test]
fn base58_round_trips_arbitrary_bytes() {
    let cases: Vec<Vec<u8>> = vec![
        vec![],
        vec![0],
        vec![0, 0, 1],
        vec![255, 254, 253, 0, 1, 2],
        (0u8..=255).collect(),
    ];
    for bytes in cases {
        let text = base58_encode(&bytes);
        assert_eq!(base58_decode(&text), Some(bytes.clone()));
        assert_eq!(base58_round_trip(&bytes), bytes);
    }
}

#[test]
fn base58_known_values() {
    assert_eq!(base58_encode(&vec![0, 0, 1]), "112");
    assert_eq!(base58_decode("112"), Some(vec![0, 0, 1]));
    assert_eq!(base58_encode(&vec![]), "");
}

#[test]
fn base64_round_trips_arbitrary_bytes() {
    let cases: Vec<Vec<u8>> = vec![
        vec![],
        vec![1, 2, 3],
        vec![255],
        (0u8..=255).collect(),
    ];
    for bytes in cases {
        let text = base64_encode(&bytes);
        assert_eq!(base64_decode(&text), Some(bytes.clone()));
        assert_eq!(base64_round_trip(&bytes), bytes);
    }
}

#[test]
fn base64_known_value() {
    assert_eq!(base64_encode(&vec![1, 2, 3]), "AQID");
    assert_eq!(base64_decode("AQID"), Some(vec![1, 2, 3]));
}

#[test]
fn base58_rejects_excluded_characters() {
    // '0', 'I', 'O' and 'l' are not in the base58 alphabet
    assert_eq!(base58_decode("0"), None);
    assert_eq!(base58_decode("I"), None);
    assert_eq!(base58_decode("O"), None);
    assert_eq!(base58_decode("abcl"), None);
    assert!(matches!(parse_public_key("0mango"), Err(ApiError::InvalidEncoding)));
}

#[test]
fn parse_public_key_checks_length() {
    assert!(matches!(parse_public_key("abc"), Err(ApiError::InvalidLength)));
    assert!(parse_public_key("11111111111111111111111111111111").is_ok());
    let pk = parse_public_key("TokenkegQfeZyiNwAJbNbGKPFXCWuBvf9Ss623VQ5DA").unwrap();
    assert_eq!(pk.bytes.len(), 32);
    assert_eq!(pk.to_base58(), "TokenkegQfeZyiNwAJbNbGKPFXCWuBvf9Ss623VQ5DA");
}

#[test]
fn generated_keypair_decodes_consistently() {
    let kp = generate_keypair();
    let pubkey_bytes = base58_decode(&kp.pubkey).expect("pubkey is base58");
    assert_eq!(pubkey_bytes.len(), 32);
    let secret_bytes = base58_decode(&kp.secret).expect("secret is base58");
    assert_eq!(secret_bytes.len(), 64);
    let material = parse_keypair(&kp.secret).expect("generated secret parses");
    assert_eq!(material.public_key().to_base58(), kp.pubkey);
    assert_eq!(&secret_bytes[32..], &pubkey_bytes[..]);
    let (pk, material2) = generated_keypair_well_formed();
    assert_eq!(pk.bytes, material2.bytes[32..].to_vec());
}

#[test]
fn fresh_keypairs_differ() {
    let a = generate_keypair();
    let b = generate_keypair();
    assert_ne!(a.secret, b.secret);
    assert_ne!(a.pubkey, b.pubkey);
}

#[test]
fn sign_then_verify_succeeds() {
    let kp = generate_keypair();
    let signed = sign_message(&SignMessageRequest {
        message: "Hello, Solana!".to_string(),
        secret: kp.secret.clone(),
    })
    .expect("signing succeeds");
    assert_eq!(signed.public_key, kp.pubkey);
    assert_eq!(signed.message, "Hello, Solana!");
    let verified = verify_message(&VerifyMessageRequest {
        message: "Hello, Solana!".to_string(),
        signature: signed.signature.clone(),
        pubkey: kp.pubkey.clone(),
    })
    .expect("verification is well-formed");
    assert!(verified.valid);
    assert_eq!(verified.message, "Hello, Solana!");
    assert_eq!(verified.pubkey, kp.pubkey);
}

#[test]
fn empty_message_signs_and_verifies() {
    let kp = generate_keypair();
    let material = parse_keypair(&kp.secret).unwrap();
    let message: Vec<u8> = vec![];
    let signature = sign(&message, &material);
    assert_eq!(signature.len(), 64);
    assert!(verify(&message, &signature, &material.public_key()));
}

#[test]
fn sign_verify_round_trip_law_holds() {
    assert!(sign_verify_round_trip(&vec![]));
    assert!(sign_verify_round_trip(&vec![42, 0, 255]));
}

#[test]
fn signing_is_deterministic() {
    let (first, second) = sign_deterministic(&vec![1, 2, 3]);
    assert_eq!(first, second);
    let kp = generate_keypair();
    let a = sign_message(&SignMessageRequest {
        message: "same message".to_string(),
        secret: kp.secret.clone(),
    })
    .unwrap();
    let b = sign_message(&SignMessageRequest {
        message: "same message".to_string(),
        secret: kp.secret,
    })
    .unwrap();
    assert_eq!(a.signature, b.signature);
}

#[test]
fn flipped_message_bit_fails_verification() {
    let kp = generate_keypair();
    let signed = sign_message(&SignMessageRequest {
        message: "hello".to_string(),
        secret: kp.secret.clone(),
    })
    .unwrap();
    // flip the lowest bit of the first byte: "hello" -> "iello"
    let verified = verify_message(&VerifyMessageRequest {
        message: "iello".to_string(),
        signature: signed.signature.clone(),
        pubkey: kp.pubkey.clone(),
    })
    .expect("well-formed input verifies without error");
    assert!(!verified.valid);
}

#[test]
fn flipped_signature_bit_fails_verification() {
    let kp = generate_keypair();
    let signed = sign_message(&SignMessageRequest {
        message: "hello".to_string(),
        secret: kp.secret.clone(),
    })
    .unwrap();
    let mut sig_bytes = base64_decode(&signed.signature).unwrap();
    for bit in 0..8 {
        let mut flipped = sig_bytes.clone();
        flipped[0] ^= 1u8 << bit;
        let verified = verify_message(&VerifyMessageRequest {
            message: "hello".to_string(),
            signature: base64_encode(&flipped),
            pubkey: kp.pubkey.clone(),
        })
        .expect("well-formed input verifies without error");
        assert!(!verified.valid);
    }
    sig_bytes[63] ^= 0x80;
    let verified = verify_message(&VerifyMessageRequest {
        message: "hello".to_string(),
        signature: base64_encode(&sig_bytes),
        pubkey: kp.pubkey,
    })
    .expect("well-formed input verifies without error");
    assert!(!verified.valid);
}

#[test]
fn sign_message_requires_fields() {
    let kp = generate_keypair();
    assert!(matches!(
        sign_message(&SignMessageRequest { message: String::new(), secret: kp.secret.clone() }),
        Err(ApiError::MissingField)
    ));
    assert!(matches!(
        sign_message(&SignMessageRequest { message: "hi".to_string(), secret: String::new() }),
        Err(ApiError::MissingField)
    ));
}

#[test]
fn sign_message_rejects_bad_secrets() {
    assert!(matches!(
        sign_message(&SignMessageRequest { message: "hi".to_string(), secret: "0".to_string() }),
        Err(ApiError::InvalidEncoding)
    ));
    assert!(matches!(
        sign_message(&SignMessageRequest { message: "hi".to_string(), secret: "abc".to_string() }),
        Err(ApiError::InvalidLength)
    ));
    // corrupt the embedded public half of a real secret
    let kp = generate_keypair();
    let mut bytes = base58_decode(&kp.secret).unwrap();
    bytes[40] ^= 1;
    let corrupted = base58_encode(&bytes);
    assert!(matches!(
        sign_message(&SignMessageRequest { message: "hi".to_string(), secret: corrupted }),
        Err(ApiError::InvalidKeypair)
    ));
}

#[test]
fn verify_message_requires_fields_and_encodings() {
    let kp = generate_keypair();
    let signed = sign_message(&SignMessageRequest {
        message: "hi".to_string(),
        secret: kp.secret.clone(),
    })
    .unwrap();
    assert!(matches!(
        verify_message(&VerifyMessageRequest {
            message: String::new(),
            signature: signed.signature.clone(),
            pubkey: kp.pubkey.clone(),
        }),
        Err(ApiError::MissingField)
    ));
    assert!(matches!(
        verify_message(&VerifyMessageRequest {
            message: "hi".to_string(),
            signature: signed.signature.clone(),
            pubkey: "0".to_string(),
        }),
        Err(ApiError::InvalidEncoding)
    ));
    assert!(matches!(
        verify_message(&VerifyMessageRequest {
            message: "hi".to_string(),
            signature: signed.signature.clone(),
            pubkey: "abc".to_string(),
        }),
        Err(ApiError::InvalidLength)
    ));
    assert!(matches!(
        verify_message(&VerifyMessageRequest {
            message: "hi".to_string(),
            signature: "!!!".to_string(),
            pubkey: kp.pubkey.clone(),
        }),
        Err(ApiError::InvalidEncoding)
    ));
    assert!(matches!(
        verify_message(&VerifyMessageRequest {
            message: "hi".to_string(),
            signature: base64_encode(&vec![1, 2, 3]),
            pubkey: kp.pubkey.clone(),
        }),
        Err(ApiError::InvalidLength)
    ));
}

#[test]
fn envelope_wraps_success_and_error() {
    match success(7u8) {
        ApiResponse::Success { success, data } => {
            assert!(success);
            assert_eq!(data, 7);
        },
        ApiResponse::Error { .. } => panic!("expected the success arm"),
    }
    match error::<u8>("boom") {
        ApiResponse::Error { success, error } => {
            assert!(!success);
            assert_eq!(error, "boom");
        },
        ApiResponse::Success { .. } => panic!("expected the error arm"),
    }
    assert_eq!(ApiError::InvalidAmount.message(), "Amount must be greater than 0");
    assert_eq!(ApiError::MissingField.message(), "Missing required fields");
}
