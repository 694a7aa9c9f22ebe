use trustybox::short_url::{generate_short_path_url, CHARS, NUMBERS, SHORT_URL_LEN};

#[test]
pub fn short_url() {
    assert_eq!(generate_short_path_url().len(), 8);
}

#[test]
fn short_url_holds_only_letters_and_digits() {
    for _ in 0..50 {
        let url = generate_short_path_url();
        assert_eq!(url.chars().count(), SHORT_URL_LEN);
        assert!(url.chars().all(|c| CHARS.contains(&c) || NUMBERS.contains(&c)));
    }
}

#[test]
fn short_urls_differ() {
    let a = generate_short_path_url();
    let b = generate_short_path_url();
    let c = generate_short_path_url();
    assert!(a != b || b != c);
}
