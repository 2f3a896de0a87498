use libre_user::jwt::{
    private_key_from_pem, public_key_from_pem, select_jwt_algorithm, AlgorithmError, Claims,
    JwtAlgorithm, JwtUtil, TimeDelta, TokenError,
};
use rsa::pkcs1::{EncodeRsaPrivateKey, EncodeRsaPublicKey, LineEnding};
use libre_user::models::User;

fn epoch() -> chrono::NaiveDateTime {
    chrono::DateTime::from_timestamp(0, 0).unwrap().naive_utc()
}

fn alice() -> User {
    User {
        uid: 0x67e5_5044_10b1_426f_9247_bb68_0e5f_e0c8,
        login: "alice".to_string(),
        username: "Alice Liddell".to_string(),
        avatar: "https://example.org/alice.png".to_string(),
        email: "alice@example.org".to_string(),
        created_at: epoch(),
        admin: false,
    }
}

fn bob() -> User {
    User {
        uid: 1,
        login: "bob".to_string(),
        username: "Bob".to_string(),
        avatar: String::new(),
        email: "bob@example.org".to_string(),
        created_at: epoch(),
        admin: true,
    }
}

#[test]
fn issued_claims_name_the_user_and_last_an_hour() {
    let claims = Claims::issued_at(&alice(), 1_700_000_000);
    assert_eq!(claims.iss, "libre");
    assert_eq!(claims.aud, "libre");
    assert_eq!(claims.iat, 1_700_000_000);
    assert_eq!(claims.exp, 1_700_003_600);
    assert_eq!(claims.sub, "67e55044-10b1-426f-9247-bb680e5fe0c8");
    assert_eq!(claims.jti, "67e55044-10b1-426f-9247-bb680e5fe0c8");
    assert_eq!(claims.login, "alice");
    assert_eq!(claims.name, "Alice Liddell");
    assert!(!claims.admin);
}

#[test]
fn subject_is_zero_padded_hyphenated_uuid() {
    let claims = Claims::issued_at(&bob(), 0);
    assert_eq!(claims.sub, "00000000-0000-0000-0000-000000000001");
    assert_eq!(claims.exp, 3600);
    assert!(claims.admin);
}

#[test]
fn expiry_is_held_at_the_top_of_the_range() {
    let claims = Claims::issued_at(&bob(), u64::MAX - 10);
    assert_eq!(claims.exp, u64::MAX);
    let claims = Claims::issued_at(&bob(), u64::MAX - 3600);
    assert_eq!(claims.exp, u64::MAX);
}

#[test]
fn expiration_counts_from_issue_time() {
    let claims = Claims::issued_at(&alice(), 1000).expiration(TimeDelta::seconds(7200));
    assert_eq!(claims.exp, 8200);
    assert_eq!(claims.iat, 1000);
    assert_eq!(claims.login, "alice");
    let again = claims.expiration(TimeDelta::seconds(7200));
    assert_eq!(again.exp, 8200);
}

#[test]
fn negative_expiration_wraps_like_a_cast() {
    let claims = Claims::issued_at(&alice(), 5).expiration(TimeDelta::seconds(-10));
    assert_eq!(claims.exp, u64::MAX - 4);
}

#[test]
fn time_delta_reports_its_seconds() {
    assert_eq!(TimeDelta::seconds(-42).num_seconds(), -42);
    assert_eq!(TimeDelta::seconds(3600).num_seconds(), 3600);
}

#[test]
fn user_repoints_claims_but_keeps_login_and_times() {
    let claims = Claims::issued_at(&alice(), 50).user(&bob());
    assert_eq!(claims.sub, "00000000-0000-0000-0000-000000000001");
    assert_eq!(claims.jti, "00000000-0000-0000-0000-000000000001");
    assert_eq!(claims.name, "Bob");
    assert!(claims.admin);
    assert_eq!(claims.login, "alice");
    assert_eq!(claims.iat, 50);
    assert_eq!(claims.exp, 3650);
    assert_eq!(claims.iss, "libre");
}

#[test]
fn token_library_failures_mean_invalid_token() {
    let err = jsonwebtoken::errors::Error::from(jsonwebtoken::errors::ErrorKind::ExpiredSignature);
    assert_eq!(TokenError::from(err), TokenError::InvalidToken);
    assert_eq!(TokenError::from(rsa::pkcs1::Error::Version), TokenError::InvalidToken);
    assert_ne!(TokenError::BadInitialize, TokenError::InvalidToken);
}

#[test]
fn algorithm_defaults_to_rs256() {
    assert_eq!(select_jwt_algorithm(None), Ok(JwtAlgorithm::RS256));
}

#[test]
fn rsa_algorithms_are_accepted() {
    assert_eq!(select_jwt_algorithm(Some("RS256")), Ok(JwtAlgorithm::RS256));
    assert_eq!(select_jwt_algorithm(Some("RS384")), Ok(JwtAlgorithm::RS384));
    assert_eq!(select_jwt_algorithm(Some("RS512")), Ok(JwtAlgorithm::RS512));
}

#[test]
fn other_known_algorithms_are_refused() {
    for name in ["HS256", "HS384", "HS512", "ES256", "ES384", "PS256", "PS384", "PS512", "EdDSA"] {
        assert_eq!(select_jwt_algorithm(Some(name)), Err(AlgorithmError::NotRsa), "{}", name);
    }
}

#[test]
fn unknown_algorithm_names_are_unparsable() {
    for name in ["rs256", "", "RS 256", "RSA", "none"] {
        assert_eq!(select_jwt_algorithm(Some(name)), Err(AlgorithmError::Unparsable), "{}", name);
    }
}

fn key_pair_pem() -> (String, String) {
    let private = rsa::RsaPrivateKey::new(&mut rand::rngs::OsRng, 512).unwrap();
    let public = rsa::RsaPublicKey::from(&private);
    (
        public.to_pkcs1_pem(LineEnding::LF).unwrap(),
        private.to_pkcs1_pem(LineEnding::LF).unwrap().to_string(),
    )
}

#[test]
fn rsa_pem_keys_are_read() {
    let (public, private) = key_pair_pem();
    assert!(public_key_from_pem(public.as_bytes()).is_ok());
    assert!(private_key_from_pem(private.as_bytes()).is_ok());
    let util = JwtUtil::from_rsa_pem(JwtAlgorithm::RS384, public.as_bytes(), private.as_bytes());
    assert_eq!(util.map(|u| u.algorithm).ok(), Some(JwtAlgorithm::RS384));
}

#[test]
fn unreadable_keys_leave_the_service_uninitialised() {
    let (public, private) = key_pair_pem();
    assert_eq!(public_key_from_pem(b"not a key").err(), Some(TokenError::BadInitialize));
    assert_eq!(private_key_from_pem(b"").err(), Some(TokenError::BadInitialize));
    let bad_public = JwtUtil::from_rsa_pem(JwtAlgorithm::RS256, b"garbage", private.as_bytes());
    assert_eq!(bad_public.err(), Some(TokenError::BadInitialize));
    let bad_private = JwtUtil::from_rsa_pem(JwtAlgorithm::RS256, public.as_bytes(), b"garbage");
    assert_eq!(bad_private.err(), Some(TokenError::BadInitialize));
}
