use my_hood::password::{looks_like_bcrypt_hash, prepare_password};

const HASH: &str = "$2b$12$R9h/cIPz0gi.URNNX3kh2OPST9/PgBkqquzi.Ss7KIUgO2t0jWMUW";

#[test]
fn recognises_bcrypt_hashes() {
    assert_eq!(HASH.len(), 60);
    assert!(looks_like_bcrypt_hash(HASH));
    assert!(looks_like_bcrypt_hash(&HASH.replacen("2b", "2y", 1)));
    assert!(!looks_like_bcrypt_hash(&HASH.replacen("2b", "2c", 1)));
    assert!(!looks_like_bcrypt_hash(&HASH[..59]));
    assert!(!looks_like_bcrypt_hash(&format!("{}!", &HASH[..59])));
    assert!(!looks_like_bcrypt_hash("secret"));
    assert!(!looks_like_bcrypt_hash(""));
}

#[test]
fn hashes_are_kept_plain_text_is_hashed() {
    assert_eq!(prepare_password(None).unwrap(), None);
    assert_eq!(prepare_password(Some(HASH.to_owned())).unwrap().as_deref(), Some(HASH));
    let stored = prepare_password(Some("secret".to_owned())).unwrap().unwrap();
    assert_ne!(stored, "secret");
    assert!(looks_like_bcrypt_hash(&stored));
    assert!(stored.starts_with("$2b$12$"));
    assert!(bcrypt::verify("secret", &stored).unwrap());
}
