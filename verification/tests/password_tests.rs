use tracker_lib::password::{hash_password, hash_password_with_salt, verify_password, HashError};

#[test]
fn hashed_password_verifies() {
    let (hash, salt) = hash_password(&"hunter2".to_string()).unwrap();
    assert_eq!(hash.len(), 128);
    assert_eq!(salt.len(), 128);
    assert!(verify_password("hunter2", &hash, &salt));
    assert!(!verify_password("hunter3", &hash, &salt));
}

#[test]
fn fixed_salt_is_deterministic() {
    let salt = [7u8; 64];
    let a = hash_password_with_salt(&"pw".to_string(), &salt).unwrap();
    let b = hash_password_with_salt(&"pw".to_string(), &salt).unwrap();
    assert_eq!(a, b);
    assert_eq!(a.1, "07".repeat(64));
    assert!(a.0.chars().all(|c| c.is_ascii_digit() || ('A'..='F').contains(&c)));
    let _ = HashError::Random;
}
