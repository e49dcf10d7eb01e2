use valorant_store::store::{
    cookies_from_keychain, decode_cookie_key, new_cookie_key, open_cookies, place_cookies,
    seal_cookies, seal_cookies_with_nonce, ConfigData, CookiePlacement, StoreManager,
    KEYCHAIN_COOKIE_LIMIT,
};

#[test]
fn store_paths() {
    let store = StoreManager::new("/tmp/valorant".to_string());
    assert_eq!(store.config_path(), "/tmp/valorant/config.json");
    assert_eq!(store.cookie_enc_path(), "/tmp/valorant/cookies.enc");
    let store = StoreManager::new("/tmp/valorant/".to_string());
    assert_eq!(store.config_path(), "/tmp/valorant/config.json");
    let here = StoreManager::new(String::new());
    assert_eq!(here.config_path(), "config.json");
}

#[test]
fn default_config_is_empty() {
    let c = ConfigData::default();
    assert_eq!(c.puuid, None);
    assert_eq!(c.token_expiry, None);
}

#[test]
fn small_cookie_jars_go_to_the_keychain() {
    match place_cookies("{}") {
        CookiePlacement::Keychain(t) => {
            assert_eq!(t, "e30=");
            assert_eq!(cookies_from_keychain(&t), Some("{}".to_string()));
        }
        CookiePlacement::EncryptedFile => panic!("small jar placed in a file"),
    }
    let jar = "é".repeat(10);
    match place_cookies(&jar) {
        CookiePlacement::Keychain(t) => assert_eq!(cookies_from_keychain(&t), Some(jar)),
        CookiePlacement::EncryptedFile => panic!("small jar placed in a file"),
    }
}

#[test]
fn the_keychain_limit_is_on_the_base64_text() {
    // 1500 bytes encode to exactly 2000 characters, 1501 to 2004
    let at_limit = "a".repeat(1500);
    assert!(matches!(place_cookies(&at_limit), CookiePlacement::Keychain(ref t) if t.len() == KEYCHAIN_COOKIE_LIMIT));
    let over = "a".repeat(1501);
    assert_eq!(place_cookies(&over), CookiePlacement::EncryptedFile);
}

#[test]
fn bad_keychain_texts_hold_no_jar() {
    assert_eq!(cookies_from_keychain("not base64!"), None);
    assert_eq!(cookies_from_keychain("/w=="), None); // the single byte 0xff is not UTF-8
}

#[test]
fn fresh_cookie_keys() {
    let a = new_cookie_key();
    let b = new_cookie_key();
    assert_eq!(a.len(), 44);
    assert_eq!(decode_cookie_key(&a).unwrap().len(), 32);
    assert_ne!(a, b);
    assert!(decode_cookie_key("%%").is_err());
}

#[test]
fn sealed_cookie_files_open_again() {
    let key = [7u8; 32];
    let nonce = [1u8; 12];
    let jar = r#"{"cookies":[{"name":"ssid","value":"abc"}]}"#;
    let blob = seal_cookies_with_nonce(&key, &nonce, jar).unwrap();
    assert_eq!(&blob[..12], &nonce);
    assert_eq!(blob.len(), 12 + jar.len() + 16);
    assert_ne!(&blob[12..12 + jar.len()], jar.as_bytes());
    assert_eq!(open_cookies(&key, &blob), Some(jar.to_string()));
    let fresh = seal_cookies(&key, jar).unwrap();
    assert_eq!(open_cookies(&key, &fresh), Some(jar.to_string()));
}

#[test]
fn cookie_files_that_do_not_open() {
    let key = [7u8; 32];
    let blob = seal_cookies_with_nonce(&key, &[0u8; 12], "{}").unwrap();
    assert_eq!(open_cookies(&[8u8; 32], &blob), None);
    let mut tampered = blob.clone();
    let last = tampered.len() - 1;
    tampered[last] ^= 1;
    assert_eq!(open_cookies(&key, &tampered), None);
    assert_eq!(open_cookies(&key, &blob[..12]), None);
    assert_eq!(open_cookies(&[], &[0u8; 12]), None);
}

#[test]
fn base64_texts_of_the_keychain() {
    for (jar, text) in [("", ""), ("f", "Zg=="), ("fo", "Zm8="), ("foo", "Zm9v"), ("foob", "Zm9vYg==")] {
        assert_eq!(place_cookies(jar), CookiePlacement::Keychain(text.to_string()));
        assert_eq!(cookies_from_keychain(text), Some(jar.to_string()));
    }
    assert_eq!(cookies_from_keychain("Zh=="), None); // trailing bits set
    assert_eq!(cookies_from_keychain("Zg"), None); // padding missing
}
