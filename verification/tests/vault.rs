use base64::Engine;
use crypto::buffer::{ReadBuffer, WriteBuffer};
use rpush::aes::{
    decrypt, decrypt_with_key, derive_key, encrypt, encrypt_with_key, gen_key, key_for, pad, unpad,
    VaultError,
};

#[test]
fn test() {
    let message = "Hello, World";

    let key = derive_key(&[0x02, 0xfc, 0x00, 0x00, 0x00, 0x01]);
    let encrypted_data = encrypt_with_key(&key, message);
    println!("加密：{:?}", encrypted_data);

    let decrypted_data = decrypt_with_key(&key, &encrypted_data).ok().unwrap();
    println!("解密：{:?}", decrypted_data);

    assert_eq!(message, decrypted_data)
}

#[test]
fn sealing_on_this_machine_round_trips_or_reports_no_key() {
    let message = "Hello, World";
    match encrypt(message) {
        Ok(token) => {
            assert_ne!(token, message);
            assert_eq!(decrypt(&token).as_deref(), Ok(message));
        }
        Err(e) => {
            assert_eq!(e, VaultError::KeyUnavailable);
            assert_eq!(gen_key(), Err(VaultError::KeyUnavailable));
            assert_eq!(decrypt("AAAA"), Err(VaultError::KeyUnavailable));
        }
    }
}

#[test]
fn key_is_the_address_then_zeros() {
    let key = derive_key(&[0x02, 0xfc, 0x00, 0x10, 0x20, 0x30]);
    let mut expected = [0u8; 32];
    expected[..6].copy_from_slice(&[0x02, 0xfc, 0x00, 0x10, 0x20, 0x30]);
    assert_eq!(key, expected);
    assert_eq!(key_for(Some([1, 2, 3, 4, 5, 6])), Ok(derive_key(&[1, 2, 3, 4, 5, 6])));
}

#[test]
fn no_address_means_no_key() {
    assert_eq!(key_for(None), Err(VaultError::KeyUnavailable));
}

#[test]
fn machine_key_is_stable() {
    assert_eq!(gen_key(), gen_key());
}

#[test]
fn padding_fills_the_last_block() {
    assert_eq!(pad(&[]), vec![16u8; 16]);
    assert_eq!(pad(&[7, 7, 7]), {
        let mut v = vec![7u8, 7, 7];
        v.extend(vec![13u8; 13]);
        v
    });
    let full = vec![9u8; 16];
    let padded = pad(&full);
    assert_eq!(padded.len(), 32);
    assert_eq!(&padded[16..], &[16u8; 16]);
    assert_eq!(pad(&[1u8; 15]).last(), Some(&1u8));
}

#[test]
fn unpadding_undoes_padding() {
    for len in 0..40usize {
        let data: Vec<u8> = (0..len).map(|i| i as u8).collect();
        assert_eq!(unpad(pad(&data)), Some(data));
    }
}

#[test]
fn unpadding_refuses_what_is_not_padded() {
    assert_eq!(unpad(vec![]), None);
    assert_eq!(unpad(vec![1, 2, 3, 0]), None);
    assert_eq!(unpad(vec![5; 4]), None);
    assert_eq!(unpad(vec![17; 32]), None);
    assert_eq!(unpad(vec![200; 16]), None);
    assert_eq!(unpad(vec![1, 2, 3, 2]), None);
    assert_eq!(unpad(vec![1, 2, 2, 2]), Some(vec![1, 2]));
    assert_eq!(unpad(vec![9, 1]), Some(vec![9]));
}

#[test]
fn sealing_gives_the_known_tokens() {
    // AES-256 in electronic-codebook mode with block padding, in base64.
    let key = derive_key(&[0x02, 0xfc, 0x00, 0x00, 0x00, 0x01]);
    assert_eq!(encrypt_with_key(&key, "Hello, World"), "rhl034aQhSJbge/ZrLTJ9w==");
    assert_eq!(encrypt_with_key(&key, "secret"), "+qBkZ4pieOLVk7orm7rhYg==");
    assert_eq!(encrypt_with_key(&[0u8; 32], ""), "H3iP5thsMXVJaX+/DAf6Qw==");
    let other = derive_key(&[1, 2, 3, 4, 5, 6]);
    assert_eq!(
        encrypt_with_key(&other, "exactly16bytes!!"),
        "jgYM7A1npvaSezdRn2c7bxzEHCYXCzjiwZPTpF10nvY="
    );
    assert_eq!(encrypt_with_key(&other, "密码"), "tH7zjaD4CfTMNL+1/Nd01Q==");
}

#[test]
fn opening_the_known_tokens_gives_their_text() {
    let key = derive_key(&[0x02, 0xfc, 0x00, 0x00, 0x00, 0x01]);
    assert_eq!(decrypt_with_key(&key, "rhl034aQhSJbge/ZrLTJ9w==").as_deref(), Ok("Hello, World"));
    assert_eq!(decrypt_with_key(&key, "+qBkZ4pieOLVk7orm7rhYg==").as_deref(), Ok("secret"));
    assert_eq!(decrypt_with_key(&[0u8; 32], "H3iP5thsMXVJaX+/DAf6Qw==").as_deref(), Ok(""));
    let other = derive_key(&[1, 2, 3, 4, 5, 6]);
    assert_eq!(decrypt_with_key(&other, "tH7zjaD4CfTMNL+1/Nd01Q==").as_deref(), Ok("密码"));
    // The seal of one key does not open under another.
    assert_ne!(decrypt_with_key(&other, "+qBkZ4pieOLVk7orm7rhYg==").as_deref(), Ok("secret"));
}

#[test]
fn a_long_password_is_sealed_and_opened_whole() {
    let key = derive_key(&[1, 2, 3, 4, 5, 6]);
    let text: String = (0..10_000).map(|i| char::from(b'a' + (i % 26) as u8)).collect();
    let token = encrypt_with_key(&key, &text);
    // 10000 bytes and 16 of padding make 626 blocks, 13356 characters.
    assert_eq!(token.len(), 13356);
    assert_eq!(decrypt_with_key(&key, &token), Ok(text));
}

#[test]
fn opening_gives_back_what_was_sealed() {
    let key = derive_key(&[0x02, 0xfc, 0, 0, 0, 1]);
    for text in ["secret", "", "a", "exactly16bytes!!", "密码 with spaces and ünïcödé", "0123456789abcdef0123456789abcdef0"] {
        let token = encrypt_with_key(&key, text);
        assert_ne!(token, text);
        assert_eq!(token.len() % 4, 0);
        assert_eq!(decrypt_with_key(&key, &token).as_deref(), Ok(text));
    }
}

#[test]
fn a_token_is_not_its_plaintext_returned() {
    let key = derive_key(&[9, 8, 7, 6, 5, 4]);
    let token = encrypt_with_key(&key, "secret");
    assert_ne!(token, "secret");
    assert!(!token.contains("secret"));
    assert_eq!(token.len(), 24);
}

#[test]
fn opening_under_another_key_fails_or_differs() {
    let key = derive_key(&[1, 2, 3, 4, 5, 6]);
    let other = derive_key(&[6, 5, 4, 3, 2, 1]);
    let token = encrypt_with_key(&key, "secret");
    assert_ne!(decrypt_with_key(&other, &token).as_deref(), Ok("secret"));
}

#[test]
fn malformed_tokens_are_refused() {
    let key = derive_key(&[1, 2, 3, 4, 5, 6]);
    assert_eq!(decrypt_with_key(&key, "not base64!"), Err(VaultError::Encoding));
    assert_eq!(decrypt_with_key(&key, "secret"), Err(VaultError::Encoding));
    // Valid base64 of three bytes: no whole block.
    assert_eq!(decrypt_with_key(&key, "AAAA"), Err(VaultError::Length));
    // No block at all carries no padding.
    assert_eq!(decrypt_with_key(&key, ""), Err(VaultError::Padding));
}

#[test]
fn blocks_without_padding_are_refused() {
    let key = derive_key(&[1, 2, 3, 4, 5, 6]);
    let mut refused = 0;
    for seed in 0..16u8 {
        let block = [seed; 16];
        let token = base64::engine::general_purpose::STANDARD.encode(block);
        match decrypt_with_key(&key, &token) {
            Err(VaultError::Padding) => refused += 1,
            Err(VaultError::Text) | Ok(_) => {}
            Err(other) => panic!("unexpected {:?}", other),
        }
    }
    assert!(refused > 0);
}

#[test]
fn bytes_that_are_no_text_are_refused() {
    let key = derive_key(&[1, 2, 3, 4, 5, 6]);
    // Seal the bytes ff fe, which are no UTF-8, with the cipher itself.
    let mut padded = vec![0xffu8, 0xfe];
    padded.extend(vec![14u8; 14]);
    let mut cipher = crypto::aes::ecb_encryptor(
        crypto::aes::KeySize::KeySize256,
        &key,
        crypto::blockmodes::NoPadding,
    );
    let mut out = [0u8; 64];
    let mut blocks = Vec::new();
    {
        let mut input = crypto::buffer::RefReadBuffer::new(&padded);
        let mut output = crypto::buffer::RefWriteBuffer::new(&mut out);
        cipher.encrypt(&mut input, &mut output, true).unwrap();
        blocks.extend_from_slice(output.take_read_buffer().take_remaining());
    }
    let token = base64::engine::general_purpose::STANDARD.encode(&blocks);
    assert_eq!(decrypt_with_key(&key, &token), Err(VaultError::Text));
}

#[test]
fn tokens_agree_with_the_padding_of_the_cipher_library() {
    // For every text that is not empty, the token is the one that the
    // cipher library makes with its own block padding.
    let key = derive_key(&[0x02, 0xfc, 0, 0, 0, 1]);
    for len in 1..=48usize {
        let text: String = (0..len).map(|i| char::from(b'A' + (i % 26) as u8)).collect();
        let mut cipher = crypto::aes::ecb_encryptor(
            crypto::aes::KeySize::KeySize256,
            &key,
            crypto::blockmodes::PkcsPadding,
        );
        let mut out = [0u8; 128];
        let mut blocks = Vec::new();
        {
            let mut input = crypto::buffer::RefReadBuffer::new(text.as_bytes());
            let mut output = crypto::buffer::RefWriteBuffer::new(&mut out);
            cipher.encrypt(&mut input, &mut output, true).unwrap();
            blocks.extend_from_slice(output.take_read_buffer().take_remaining());
        }
        let token = base64::engine::general_purpose::STANDARD.encode(&blocks);
        assert_eq!(encrypt_with_key(&key, &text), token);
        assert_eq!(decrypt_with_key(&key, &token), Ok(text));
    }
}
