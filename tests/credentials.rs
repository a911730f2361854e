use medman::error::ErrorKind;
use medman::password::PasswordHasher;
use medman::token::{bearer_token, TokenService};

fn fast_hasher() -> PasswordHasher {
    PasswordHasher::with_cost(4).unwrap()
}

#[test]
fn hasher_costs() {
    assert_eq!(PasswordHasher::new().cost, 12);
    assert!(PasswordHasher::with_cost(3).is_none());
    assert!(PasswordHasher::with_cost(32).is_none());
    assert_eq!(PasswordHasher::with_cost(31).unwrap().cost, 31);
}

#[test]
fn password_verifies_against_its_hash() {
    let h = fast_hasher();
    for p in ["pw123", "", "correct horse battery staple", "\u{fc}n\u{ef}c\u{f6}d\u{e9}"] {
        let hash = h.hash(p).unwrap();
        assert_ne!(hash, p);
        assert!(h.verify(p, &hash).unwrap());
    }
}

#[test]
fn wrong_password_does_not_verify() {
    let h = fast_hasher();
    let hash = h.hash("pw123").unwrap();
    assert!(!h.verify("pw124", &hash).unwrap());
    assert!(!h.verify("", &hash).unwrap());
}

#[test]
fn same_password_gets_different_salts() {
    let h = fast_hasher();
    let a = h.hash("pw123").unwrap();
    let b = h.hash("pw123").unwrap();
    assert_ne!(a, b);
}

#[test]
fn malformed_hash_is_hashing_error() {
    let h = fast_hasher();
    let e = h.verify("pw123", "not-a-hash").unwrap_err();
    assert_eq!(e.kind(), ErrorKind::Hashing);
}

#[test]
fn token_round_trip() {
    let t = TokenService::new(b"secret".to_vec());
    let token = t.issue("65d0b2b3d3b0b3d3b0b3d3b0", 1_000);
    assert_eq!(t.verify(&token, 1_000).unwrap(), "65d0b2b3d3b0b3d3b0b3d3b0");
    assert_eq!(t.verify(&token, 1_000 + 86_400).unwrap(), "65d0b2b3d3b0b3d3b0b3d3b0");
}

#[test]
fn expired_token_fails() {
    let t = TokenService::new(b"secret".to_vec());
    let token = t.issue("abc", 1_000);
    let e = t.verify(&token, 1_000 + 86_401).unwrap_err();
    assert_eq!(e.kind(), ErrorKind::Auth);
    assert_eq!(e.message(), "Token expired");
}

#[test]
fn tampered_token_fails() {
    let t = TokenService::new(b"secret".to_vec());
    let token = t.issue("abc", 1_000);
    let mut parts: Vec<String> = token.split('.').map(|s| s.to_string()).collect();
    assert_eq!(parts.len(), 3);
    let other = t.issue("abd", 1_000);
    parts[1] = other.split('.').nth(1).unwrap().to_string();
    let forged = parts.join(".");
    let e = t.verify(&forged, 1_000).unwrap_err();
    assert_eq!(e.kind(), ErrorKind::Auth);
    assert_eq!(e.message(), "Invalid token");
    assert_eq!(t.verify("garbage", 1_000).unwrap_err().kind(), ErrorKind::Auth);
}

#[test]
fn token_from_other_key_fails() {
    let a = TokenService::new(b"secret".to_vec());
    let b = TokenService::new(b"other".to_vec());
    let token = a.issue("abc", 1_000);
    assert_eq!(b.verify(&token, 1_000).unwrap_err().kind(), ErrorKind::Auth);
}

#[test]
fn bearer_header_parsing() {
    assert_eq!(bearer_token("Bearer abc.def.ghi"), Some("abc.def.ghi".to_string()));
    assert_eq!(bearer_token("Bearer "), Some(String::new()));
    assert_eq!(bearer_token("Bearer"), None);
    assert_eq!(bearer_token("bearer abc"), None);
    assert_eq!(bearer_token("Basic abc"), None);
    assert_eq!(bearer_token(""), None);
}
