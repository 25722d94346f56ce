use thesis_backend::password::{
    derive_cookie_key, digest_matches, hash_password, hash_password_under, verify_password,
};

#[test]
fn hash_then_verify_accepts_the_same_password() {
    let (hash, salt) = hash_password("correct horse").expect("hashing works");
    assert_eq!(salt.len(), 16);
    assert_eq!(hash.len(), 32);
    assert_eq!(verify_password("correct horse", &hash, &salt).ok(), Some(true));
}

#[test]
fn verify_rejects_another_password() {
    let (hash, salt) = hash_password("correct horse").expect("hashing works");
    assert_eq!(verify_password("battery staple", &hash, &salt).ok(), Some(false));
}

#[test]
fn two_hashes_of_one_password_use_different_salts() {
    let (hash_a, salt_a) = hash_password("same").expect("hashing works");
    let (hash_b, salt_b) = hash_password("same").expect("hashing works");
    assert_ne!(salt_a, salt_b);
    assert_ne!(hash_a, hash_b);
}

#[test]
fn verify_fails_on_a_salt_the_hasher_refuses() {
    // Five bytes encode to a valid salt string, but Argon2 wants eight.
    assert!(verify_password("pw", &[0u8; 32], &[1, 2, 3, 4, 5]).is_err());
}

#[test]
fn digest_matches_compares_bytes() {
    assert!(digest_matches(&[1, 2, 3], &[1, 2, 3]));
    assert!(!digest_matches(&[1, 2, 3], &[1, 2, 4]));
    assert!(!digest_matches(&[1, 2, 3], &[1, 2]));
    assert!(digest_matches(&[], &[]));
}

#[test]
fn cookie_key_is_64_bytes_and_stable() {
    let a = derive_cookie_key("a passphrase").expect("derivation works");
    let b = derive_cookie_key("a passphrase").expect("derivation works");
    let c = derive_cookie_key("another passphrase").expect("derivation works");
    assert_eq!(a.len(), 64);
    assert_eq!(a, b);
    assert_ne!(a, c);
}

#[test]
fn verify_accepts_the_digest_of_the_raw_hasher() {
    let mut digest = [0u8; 32];
    argon2::Argon2::default()
        .hash_password_into(b"password", b"somesalt", &mut digest)
        .expect("raw hashing works");
    assert_eq!(verify_password("password", &digest, b"somesalt").ok(), Some(true));
    digest[31] ^= 1;
    assert_eq!(verify_password("password", &digest, b"somesalt").ok(), Some(false));
}

#[test]
fn cookie_key_is_the_raw_hash_under_the_fixed_salt() {
    let mut key = [0u8; 64];
    argon2::Argon2::default()
        .hash_password_into(b"a passphrase", b"hdu2025_software_eng_thesis_mgmt/backend", &mut key)
        .expect("raw hashing works");
    assert_eq!(derive_cookie_key("a passphrase"), Some(key.to_vec()));
}

#[test]
fn digest_of_a_known_password_and_salt() {
    let digest: [u8; 32] = [
        60, 189, 53, 106, 99, 242, 121, 75, 177, 27, 177, 244, 188, 138, 249, 95, 234, 135, 145, 155, 214, 156,
        121, 134, 4, 101, 197, 98, 248, 124, 207, 97,
    ];
    assert_eq!(verify_password("password", &digest, b"somesalt").ok(), Some(true));
    assert_eq!(verify_password("Password", &digest, b"somesalt").ok(), Some(false));
    assert_eq!(verify_password("password", &digest, b"somesalt2").ok(), Some(false));
}

#[test]
fn cookie_key_of_a_known_passphrase() {
    let key: [u8; 64] = [
        169, 30, 141, 129, 41, 16, 218, 47, 96, 175, 89, 49, 248, 51, 230, 86, 27, 41, 36, 70, 47, 38, 75, 7, 122,
        102, 99, 191, 99, 22, 37, 116, 173, 242, 22, 50, 219, 73, 79, 16, 6, 213, 76, 148, 220, 202, 213, 193, 64,
        143, 238, 233, 196, 245, 196, 139, 161, 5, 243, 44, 214, 79, 205, 199,
    ];
    assert_eq!(derive_cookie_key("a passphrase"), Some(key.to_vec()));
}

#[test]
fn hashing_under_a_given_salt_gives_the_known_digest_and_the_salt() {
    let (hash, salt) = hash_password_under("password", b"somesalt".to_vec()).expect("hashing works");
    assert_eq!(
        hash,
        vec![
            60, 189, 53, 106, 99, 242, 121, 75, 177, 27, 177, 244, 188, 138, 249, 95, 234, 135, 145, 155, 214, 156,
            121, 134, 4, 101, 197, 98, 248, 124, 207, 97,
        ]
    );
    assert_eq!(salt, b"somesalt".to_vec());
}

#[test]
fn hashing_under_a_salt_the_hasher_refuses_fails() {
    assert!(hash_password_under("password", vec![1, 2, 3, 4, 5]).is_err());
    assert!(hash_password_under("password", vec![7; 49]).is_err());
    assert!(hash_password_under("password", vec![7; 48]).is_ok());
}

#[test]
fn fresh_hash_is_the_hash_under_the_salt_that_was_drawn() {
    let (hash, salt) = hash_password("correct horse").expect("hashing works");
    let (again, kept) = hash_password_under("correct horse", salt.clone()).expect("hashing works");
    assert_eq!(hash, again);
    assert_eq!(salt, kept);
}

#[test]
fn hashing_a_password_always_finds_a_salt_and_a_digest() {
    for password in ["", "a", "correct horse battery staple", "密码"] {
        let (hash, salt) = hash_password(password).expect("a salt is drawn and the password hashed");
        assert_eq!((hash.len(), salt.len()), (32, 16));
    }
}
