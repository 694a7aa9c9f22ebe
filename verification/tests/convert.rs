use trustybox::aes_key::set_aes_key;
use trustybox::base64_convert::{
    convert_aes_to_base64, convert_base64_to_aes, get_aes_key_from_base64, KeyError, KeyTextError,
};

#[test]
fn convert_correct() {
    let key = set_aes_key();
    let base_str = convert_aes_to_base64(key);

    assert_eq!(convert_base64_to_aes(base_str.clone()).unwrap(), key);

    assert_eq!(convert_aes_to_base64(key.clone()), base_str);
}

fn counting_key() -> [u8; 32] {
    let mut key = [0u8; 32];
    for (i, b) in key.iter_mut().enumerate() {
        *b = i as u8;
    }
    key
}

#[test]
fn key_text_is_url_safe_unpadded_base64() {
    assert_eq!(
        convert_aes_to_base64(counting_key()),
        "AAECAwQFBgcICQoLDA0ODxAREhMUFRYXGBkaGxwdHh8"
    );
    assert_eq!(
        convert_aes_to_base64([255u8; 32]),
        "__________________________________________8"
    );
}

#[test]
fn key_text_reads_back() {
    let text = String::from("AAECAwQFBgcICQoLDA0ODxAREhMUFRYXGBkaGxwdHh8");
    assert_eq!(convert_base64_to_aes(text.clone()), Ok(counting_key()));
    assert_eq!(get_aes_key_from_base64(text), Ok(counting_key()));
}

#[test]
fn fresh_keys_round_trip() {
    for _ in 0..20 {
        let key = set_aes_key();
        let text = convert_aes_to_base64(key);
        assert_eq!(text.len(), 43);
        assert_eq!(get_aes_key_from_base64(text), Ok(key));
    }
}

#[test]
fn text_that_is_not_base64_is_refused() {
    assert_eq!(convert_base64_to_aes("not base64!".to_string()), Err(KeyError::NotBase64));
    // The standard alphabet's '+' and '/' are not URL-safe symbols.
    assert_eq!(convert_base64_to_aes("+/+/".to_string()), Err(KeyError::NotBase64));
    // Padding is refused.
    assert_eq!(
        convert_base64_to_aes("AAECAwQFBgcICQoLDA0ODxAREhMUFRYXGBkaGxwdHh8=".to_string()),
        Err(KeyError::NotBase64)
    );
    // Set trailing bits are refused.
    assert_eq!(
        convert_base64_to_aes("AAECAwQFBgcICQoLDA0ODxAREhMUFRYXGBkaGxwdHh9".to_string()),
        Err(KeyError::NotBase64)
    );
    assert_eq!(
        get_aes_key_from_base64("A".to_string()),
        Err(KeyTextError { kind: KeyError::NotBase64, message: "Can not convert aes_key into base64" })
    );
}

#[test]
fn base64_of_other_lengths_is_refused() {
    assert_eq!(convert_base64_to_aes("AAEC".to_string()), Err(KeyError::WrongLength));
    assert_eq!(convert_base64_to_aes(String::new()), Err(KeyError::WrongLength));
    assert_eq!(
        convert_base64_to_aes("AAECAwQFBgcICQoLDA0ODxAREhMUFRYXGBkaGxwdHh8g".to_string()),
        Err(KeyError::WrongLength)
    );
}

#[test]
fn key_text_error_of_another_length() {
    assert_eq!(
        get_aes_key_from_base64("AAEC".to_string()),
        Err(KeyTextError { kind: KeyError::WrongLength, message: "Can not convert aes_key to bytes" })
    );
}

#[test]
fn key_error_messages() {
    assert_eq!(KeyError::NotBase64.message(), "Can not convert to base64");
    assert_eq!(KeyError::WrongLength.message(), "Can not convert aes_key to bytes");
}
