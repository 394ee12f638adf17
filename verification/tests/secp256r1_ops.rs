use routines::secp256r1::{p256_ix_test, PasskeyOpsError, PasskeyProgramOps, ERROR_SIGNATURE_COUNT};

use p256::ecdsa::signature::Verifier;

fn sample_ops(message: &[u8]) -> PasskeyProgramOps {
    let mut signature = [0u8; 64];
    for (i, b) in signature.iter_mut().enumerate() {
        *b = i as u8;
    }
    let mut public_key = [0u8; 33];
    for (i, b) in public_key.iter_mut().enumerate() {
        *b = 200 - i as u8;
    }
    PasskeyProgramOps { signature, public_key, message: message.to_vec() }
}

#[test]
fn new_ops_are_zeroed() {
    let ops = PasskeyProgramOps::new();
    assert_eq!(ops.signature, [0u8; 64]);
    assert_eq!(ops.public_key, [0u8; 33]);
    assert!(ops.message.is_empty());
}

#[test]
fn build_lays_out_header_key_signature_message() {
    let ops = sample_ops(b"hello");
    let data = ops.build();
    let header: [u8; 16] = [1, 0, 49, 0, 255, 255, 16, 0, 255, 255, 113, 0, 5, 0, 255, 255];
    assert_eq!(&data[..16], &header);
    assert_eq!(&data[16..49], &ops.public_key);
    assert_eq!(&data[49..113], &ops.signature);
    assert_eq!(&data[113..], b"hello");
    assert_eq!(data.len(), 118);
}

#[test]
fn build_truncates_long_message_length() {
    let ops = sample_ops(&vec![7u8; 65536 + 3]);
    let data = ops.build();
    assert_eq!(&data[12..14], &[3, 0]);
    assert_eq!(data.len(), 113 + 65539);
}

#[test]
fn parse_reads_back_what_build_wrote() {
    for message in [&b""[..], &b"x"[..], &[9u8; 300][..]] {
        let ops = sample_ops(message);
        let parsed = PasskeyProgramOps::parse_instruction_data(&ops.build()).unwrap();
        assert_eq!(parsed, ops);
    }
}

#[test]
fn parse_refuses_other_signature_counts() {
    assert_eq!(PasskeyProgramOps::parse_instruction_data(&[2, 0]), Err(ERROR_SIGNATURE_COUNT));
    assert_eq!(PasskeyProgramOps::parse_instruction_data(&[1, 1, 0, 0]), Err(1));
    let mut data = sample_ops(b"m").build();
    data[0] = 0;
    assert_eq!(PasskeyProgramOps::parse_instruction_data(&data), Err(1));
}

#[test]
fn parse_takes_fields_by_offset() {
    let mut data = vec![0u8; 120];
    data[0] = 1;
    for i in 16..49 {
        data[i] = 1;
    }
    for i in 49..113 {
        data[i] = 2;
    }
    for i in 113..120 {
        data[i] = 3;
    }
    let ops = PasskeyProgramOps::parse_instruction_data(&data).unwrap();
    assert_eq!(ops.public_key, [1u8; 33]);
    assert_eq!(ops.signature, [2u8; 64]);
    assert_eq!(ops.message, vec![3u8; 7]);
}

#[test]
fn signature_first_layout() {
    let signature = [5u8; 64];
    let public_key = [6u8; 33];
    let data = p256_ix_test(&public_key, &signature, b"abc");
    let header: [u8; 16] = [1, 0, 16, 0, 255, 255, 80, 0, 255, 255, 113, 0, 3, 0, 255, 255];
    assert_eq!(&data[..16], &header);
    assert_eq!(&data[16..80], &signature);
    assert_eq!(&data[80..113], &public_key);
    assert_eq!(&data[113..], b"abc");
}

#[test]
fn set_message_keeps_key_and_signature() {
    let mut ops = sample_ops(b"old");
    let before = ops.clone();
    ops.set_message(b"new message");
    assert_eq!(ops.message, b"new message".to_vec());
    assert_eq!(ops.signature, before.signature);
    assert_eq!(ops.public_key, before.public_key);
}

#[test]
fn sign_with_key_gives_verifiable_signature() {
    let secret = [7u8; 32];
    let mut ops = PasskeyProgramOps::new();
    ops.set_message(b"authenticatorData || hash");
    ops.sign_with_key(&secret).unwrap();
    let key = p256::ecdsa::SigningKey::from_slice(&secret).unwrap();
    let expected_pk = key.verifying_key().to_encoded_point(true);
    assert_eq!(&ops.public_key[..], expected_pk.as_bytes());
    let verifying = p256::ecdsa::VerifyingKey::from_sec1_bytes(&ops.public_key).unwrap();
    let signature = p256::ecdsa::Signature::from_slice(&ops.signature).unwrap();
    assert!(verifying.verify(&ops.message, &signature).is_ok());
}

#[test]
fn sign_with_invalid_key_changes_nothing() {
    let mut ops = sample_ops(b"msg");
    let before = ops.clone();
    assert_eq!(ops.sign_with_key(&[0u8; 32]), Err(PasskeyOpsError::InvalidSigningKey));
    assert_eq!(ops, before);
    assert_eq!(ops.sign_with_key(&[0xffu8; 32]), Err(PasskeyOpsError::InvalidSigningKey));
    assert_eq!(ops, before);
}

#[test]
fn sign_with_random_key() {
    let mut ops = PasskeyProgramOps::new();
    ops.set_message(b"payload");
    ops.sign().unwrap();
    let verifying = p256::ecdsa::VerifyingKey::from_sec1_bytes(&ops.public_key).unwrap();
    let signature = p256::ecdsa::Signature::from_slice(&ops.signature).unwrap();
    assert!(verifying.verify(b"payload", &signature).is_ok());
    let parsed = PasskeyProgramOps::parse_instruction_data(&ops.build()).unwrap();
    assert_eq!(parsed, ops);
}

#[test]
fn get_signature_checks_scalars() {
    let mut ops = PasskeyProgramOps::new();
    assert_eq!(ops.get_signature(), Err(PasskeyOpsError::UnableToParseP256SignatureFromBytes));
    ops.set_message(b"payload");
    ops.sign_with_key(&[7u8; 32]).unwrap();
    assert_eq!(ops.get_signature(), Ok(ops.signature));
    let mut high = ops.clone();
    high.signature[..32].copy_from_slice(&[0xffu8; 32]);
    assert_eq!(high.get_signature(), Err(PasskeyOpsError::UnableToParseP256SignatureFromBytes));
    let mut zero_s = ops.clone();
    zero_s.signature[32..].copy_from_slice(&[0u8; 32]);
    assert_eq!(zero_s.get_signature(), Err(PasskeyOpsError::UnableToParseP256SignatureFromBytes));
}

#[test]
fn signature_with_key_verifies() {
    let mut ops = PasskeyProgramOps::new();
    ops.set_message(b"sign then verify");
    ops.sign_with_key(&[9u8; 32]).unwrap();
    let verifying = p256::ecdsa::VerifyingKey::from_sec1_bytes(&ops.public_key).unwrap();
    let signature = p256::ecdsa::Signature::from_slice(&ops.signature).unwrap();
    assert!(verifying.verify(b"sign then verify", &signature).is_ok());
}

#[test]
fn random_signature_reads_back() {
    let mut ops = PasskeyProgramOps::new();
    ops.set_message(b"read back");
    ops.sign().unwrap();
    assert_eq!(ops.get_signature(), Ok(ops.signature));
}
