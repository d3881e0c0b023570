use encryptor::{open_in_place, seal_in_place, CipherKey, EncryptError, TAG_LEN};

fn hex(bytes: &[u8]) -> String {
    bytes.iter().map(|b| format!("{:02x}", b)).collect()
}

#[test]
fn key_of_32_bytes_is_accepted() {
    assert!(CipherKey::new(&[7u8; 32]).is_ok());
}

#[test]
fn keys_of_other_lengths_are_refused() {
    for len in [0usize, 1, 16, 31, 33, 64] {
        let material = vec![1u8; len];
        assert!(matches!(CipherKey::new(&material), Err(EncryptError::AeadError)));
    }
}

#[test]
fn seal_matches_known_answer_for_empty_input() {
    // AES-256-GCM, zero key, zero nonce, empty plaintext: the tag alone.
    let key = CipherKey::new(&[0u8; 32]).ok().unwrap();
    let mut buf: Vec<u8> = Vec::new();
    assert_eq!(seal_in_place(&key, &[0u8; 12], &mut buf), Ok(()));
    assert_eq!(hex(&buf), "530f8afbc74536b9a963b4f1c4cb738b");
}

#[test]
fn seal_matches_known_answer_for_one_block() {
    // AES-256-GCM, zero key, zero nonce, one zero block.
    let key = CipherKey::new(&[0u8; 32]).ok().unwrap();
    let mut buf = vec![0u8; 16];
    assert_eq!(seal_in_place(&key, &[0u8; 12], &mut buf), Ok(()));
    assert_eq!(
        hex(&buf),
        "cea7403d4d606b6e074ec5d3baf39d18d0d1c8a799996bf0265b98b5d48ab919"
    );
}

#[test]
fn seal_then_open_gives_input_back() {
    let key = CipherKey::new(b"abcdefghijklmnopqrstuvwxyz012345").ok().unwrap();
    let nonce = [9u8; 12];
    let plain: Vec<u8> = (0..1000u32).map(|i| (i % 251) as u8).collect();
    let mut buf = plain.clone();
    assert_eq!(seal_in_place(&key, &nonce, &mut buf), Ok(()));
    assert_eq!(buf.len(), plain.len() + TAG_LEN);
    assert_ne!(&buf[..plain.len()], &plain[..]);
    assert_eq!(open_in_place(&key, &nonce, &mut buf), Ok(()));
    assert_eq!(buf, plain);
}

#[test]
fn seal_refuses_nonce_of_wrong_length() {
    let key = CipherKey::new(&[3u8; 32]).ok().unwrap();
    for len in [0usize, 11, 13, 16] {
        let mut buf = b"data".to_vec();
        let nonce = vec![0u8; len];
        assert_eq!(seal_in_place(&key, &nonce, &mut buf), Err(EncryptError::AeadError));
    }
}

#[test]
fn open_refuses_nonce_of_wrong_length() {
    let key = CipherKey::new(&[3u8; 32]).ok().unwrap();
    let mut buf = b"data".to_vec();
    assert_eq!(seal_in_place(&key, &[0u8; 12], &mut buf), Ok(()));
    assert_eq!(open_in_place(&key, &[0u8; 11], &mut buf), Err(EncryptError::AeadError));
    assert!(buf.is_empty());
}

#[test]
fn open_refuses_input_shorter_than_tag() {
    let key = CipherKey::new(&[3u8; 32]).ok().unwrap();
    let mut buf = vec![0u8; 15];
    assert_eq!(open_in_place(&key, &[0u8; 12], &mut buf), Err(EncryptError::AeadError));
    assert!(buf.is_empty());
}

#[test]
fn open_with_other_nonce_fails_and_empties_buffer() {
    let key = CipherKey::new(&[3u8; 32]).ok().unwrap();
    let mut buf = b"secret text".to_vec();
    assert_eq!(seal_in_place(&key, &[0u8; 12], &mut buf), Ok(()));
    assert_eq!(open_in_place(&key, &[1u8; 12], &mut buf), Err(EncryptError::AeadError));
    assert!(buf.is_empty());
}

#[test]
fn every_flipped_bit_is_detected() {
    let key = CipherKey::new(&[5u8; 32]).ok().unwrap();
    let nonce = [2u8; 12];
    let mut sealed = b"tamper".to_vec();
    assert_eq!(seal_in_place(&key, &nonce, &mut sealed), Ok(()));
    for byte in 0..sealed.len() {
        for bit in 0..8 {
            let mut buf = sealed.clone();
            buf[byte] ^= 1 << bit;
            assert_eq!(open_in_place(&key, &nonce, &mut buf), Err(EncryptError::AeadError));
            assert!(buf.is_empty());
        }
    }
}

#[test]
fn error_messages_name_the_kind() {
    assert_eq!(EncryptError::AeadError.message(), "AEAD error: ring::error::Unspecified");
    assert_eq!(
        EncryptError::io("No such file or directory (os error 2)".to_string()).message(),
        "IO error: No such file or directory (os error 2)"
    );
}
