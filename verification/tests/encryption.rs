use trustybox::aes_key::set_aes_key;
use trustybox::encryption::{decrypt_data, decrypt_data_checked, encrypt_data, stored_padding_fits};

fn counting_key() -> [u8; 32] {
    let mut key = [0u8; 32];
    for (i, b) in key.iter_mut().enumerate() {
        *b = i as u8;
    }
    key
}

fn hex(s: &str) -> Vec<u8> {
    (0..s.len()).step_by(2).map(|i| u8::from_str_radix(&s[i..i + 2], 16).unwrap()).collect()
}

#[test]
fn encrypts_the_standard_test_block() {
    // FIPS-197, appendix C.3: AES-256 of 00112233..ff under the key 00010203..1f.
    let data = hex("00112233445566778899aabbccddeeff");
    let stored = encrypt_data(&data, counting_key());
    assert_eq!(
        stored,
        hex("8ea2b7ca516745bfeafc49904b4960899f3b7504926f8bd36e3118e903a4cd4a")
    );
}

#[test]
fn pads_to_whole_blocks() {
    let stored = encrypt_data(b"hello world", counting_key());
    assert_eq!(stored, hex("af79df073287ee3f511d2556d54dce39"));
    for len in 0..40usize {
        let data = vec![7u8; len];
        let stored = encrypt_data(&data, counting_key());
        assert_eq!(stored.len(), len + 16 - len % 16);
    }
}

#[test]
fn decrypts_what_was_encrypted() {
    for len in [0usize, 1, 5, 15, 16, 17, 31, 32, 33, 100, 1000] {
        let data: Vec<u8> = (0..len).map(|i| (i * 7 + 3) as u8).collect();
        let key = set_aes_key();
        let stored = encrypt_data(&data, key);
        assert!(stored_padding_fits(&stored, key));
        assert_eq!(decrypt_data(&stored, key), data);
        assert_eq!(decrypt_data_checked(&stored, key), Some(data));
    }
}

#[test]
fn decrypts_the_standard_test_block() {
    let stored = hex("8ea2b7ca516745bfeafc49904b4960899f3b7504926f8bd36e3118e903a4cd4a");
    assert_eq!(decrypt_data(&stored, counting_key()), hex("00112233445566778899aabbccddeeff"));
}

#[test]
fn drops_as_many_bytes_as_the_last_deciphered_byte() {
    // 16 zero bytes decipher to 6d9f08eb2a2e277ab48984cff1ab9a09: the last byte drops 9.
    let stored = vec![0u8; 16];
    assert!(stored_padding_fits(&stored, counting_key()));
    assert_eq!(decrypt_data(&stored, counting_key()), hex("6d9f08eb2a2e27"));
}

#[test]
fn a_final_part_shorter_than_a_block_is_not_deciphered() {
    // 16 zero bytes and then 1, 2, 2: the tail stays, and its last byte 2 drops two bytes.
    let mut stored = vec![0u8; 16];
    stored.extend_from_slice(&[1, 2, 2]);
    let mut expected = hex("6d9f08eb2a2e277ab48984cff1ab9a09");
    expected.push(1);
    assert_eq!(decrypt_data(&stored, counting_key()), expected);
}

#[test]
fn unreadable_padding_is_reported() {
    assert!(!stored_padding_fits(&[], counting_key()));
    assert_eq!(decrypt_data_checked(&[], counting_key()), None);
    // The standard test block deciphers to a last byte of 0xff: more than 16 bytes.
    let stored = hex("8ea2b7ca516745bfeafc49904b496089");
    assert!(!stored_padding_fits(&stored, counting_key()));
    assert_eq!(decrypt_data_checked(&stored, counting_key()), None);
    // A short tail whose last byte is too large.
    assert_eq!(decrypt_data_checked(&[1, 2, 200], counting_key()), None);
    assert_eq!(decrypt_data_checked(&[1, 2, 3], counting_key()), Some(vec![]));
}

#[test]
fn a_wrong_key_does_not_give_the_data_back() {
    let data = b"some file contents".to_vec();
    let stored = encrypt_data(&data, counting_key());
    let other = [9u8; 32];
    assert_ne!(decrypt_data_checked(&stored, other), Some(data));
}

#[test]
fn whole_blocks_are_enciphered_independently() {
    let key = counting_key();
    let a: Vec<u8> = (0..32u8).collect();
    let b = b"tail of the file".to_vec();
    let mut ab = a.clone();
    ab.extend_from_slice(&b);
    let mut expected = encrypt_data(&a, key)[..a.len()].to_vec();
    expected.extend_from_slice(&encrypt_data(&b, key));
    assert_eq!(encrypt_data(&ab, key), expected);
    // Equal plaintext blocks give equal stored blocks.
    let twice = [[5u8; 16], [5u8; 16]].concat();
    let stored = encrypt_data(&twice, key);
    assert_eq!(stored[..16], stored[16..32]);
}
