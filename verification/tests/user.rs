use chat_backend::models::api::{APIResponse, HttpStatus, Reply};
use chat_backend::user::constant::{JWTError, Sign, ValidationError};
use chat_backend::libs::hash::{hash, to_hex, HASH_ROUNDS};
use chat_backend::user::controller::{
    AuthAction, Refresh, RefreshEvent, SignIn, SignInEvent, SignUp, SignUpEvent, TOKEN_LIFETIME,
};
use chat_backend::user::model::{Claims, User};
use chat_backend::user::service::Validation;
use chat_backend::text::trimmed_byte_len;

fn user(name: &str, pass: &str) -> User {
    User { name: name.to_string(), pass: pass.to_string() }
}

fn key() -> String {
    "server key".to_string()
}

fn respond(a: AuthAction) -> Reply {
    match a {
        AuthAction::Respond(r) => r,
        _ => panic!("expected a reply"),
    }
}

fn claims(name: &str, exp: u128) -> Option<Claims> {
    Some(Claims { name: name.to_string(), exp })
}

fn remember(a: AuthAction) -> Reply {
    match a {
        AuthAction::Remember(r) => r,
        _ => panic!("expected a token to keep"),
    }
}

#[test]
fn trimmed_length_counts_utf8_bytes() {
    assert_eq!(trimmed_byte_len("  abc \t\n"), 3);
    assert_eq!(trimmed_byte_len("é"), 2);
    assert_eq!(trimmed_byte_len("\u{3000}日本\u{3000}"), 6);
    assert_eq!(trimmed_byte_len("a b"), 3);
    assert_eq!(trimmed_byte_len("   "), 0);
    assert_eq!(trimmed_byte_len(""), 0);
    assert_eq!(trimmed_byte_len("\u{85}x\u{a0}"), 1);
    assert_eq!(trimmed_byte_len("😀"), 4);
    for t in ["  a b c  ", "\u{2009}hé\u{2028}", "x\u{1680}", "\r\n z"] {
        assert_eq!(trimmed_byte_len(t), t.trim().len() as u128);
    }
}

#[test]
fn too_short_credentials() {
    assert!(Validation::is_too_short(&user("abcd", "secret")));
    assert!(Validation::is_too_short(&user("alice", "   abcd   ")));
    assert!(!Validation::is_too_short(&user("alice", "abcde")));
    // Five bytes, three characters.
    assert!(!Validation::is_too_short(&user("ééa", "secret")));
    assert!(Validation::is_too_short(&user("éé", "secret")));
}

#[test]
fn too_long_credentials() {
    let long = "a".repeat(33);
    let limit = "a".repeat(32);
    assert!(Validation::is_too_long(&user(&long, "secret")));
    assert!(Validation::is_too_long(&user("alice", &long)));
    assert!(!Validation::is_too_long(&user(&limit, &limit)));
    assert!(!Validation::is_too_long(&user(&format!("  {}  ", limit), "secret")));
    // Seventeen two-byte characters are 34 bytes.
    assert!(Validation::is_too_long(&user(&"é".repeat(17), "secret")));
}

#[test]
fn fixed_reply_bodies() {
    assert_eq!(Sign::success().detail, "Logged in");
    assert!(Sign::success().success);
    assert_eq!(Sign::signed().detail, "Already sign in");
    assert_eq!(Sign::out().detail, "Sign out");
    assert!(Sign::out().success);
    assert_eq!(Sign::incorrect().detail, "Username or Password is incorrect");
    assert_eq!(Sign::existed().detail, "This user is already existed");
    assert_eq!(Sign::unauthorized().detail, "Unauthorized");
    assert_eq!(ValidationError::too_short().detail, "Username and Password need to be atleast 5 characters");
    assert_eq!(ValidationError::too_long().detail, "Username and Password need to be atleast 5 characters");
    assert_eq!(JWTError::creation().detail, "Unable to create token");
    assert_eq!(JWTError::invalid().detail, "Invalid Token");
    assert_eq!(JWTError::expired().detail, "Token Expired");
    assert!(APIResponse::success().success);
    assert!(!APIResponse::failure().success);
    assert_eq!(APIResponse::success().detail, "");
}

#[test]
fn sign_up_refuses_bad_lengths() {
    let r = respond(SignUp::new(user("abc", "secret"), key()).step(SignUpEvent::Submitted));
    assert_eq!(r.status, HttpStatus::BadRequest);
    assert!(!r.success);
    assert_eq!(r.detail, "Username and Password need to be atleast 5 characters");
    let r = respond(SignUp::new(user("alice", &"p".repeat(40)), key()).step(SignUpEvent::Submitted));
    assert_eq!(r.status, HttpStatus::BadRequest);
}

#[test]
fn sign_up_flow() {
    let flow = SignUp::new(user("alice", "secret"), key());
    match flow.step(SignUpEvent::Submitted) {
        AuthAction::LookUpUser(name) => assert_eq!(name, "alice"),
        _ => panic!("expected a lookup of the submitted name"),
    }
    let r = respond(flow.step(SignUpEvent::LookedUp(Ok(1))));
    assert_eq!(r.status, HttpStatus::Unauthorized);
    assert_eq!(r.detail, "This user is already existed");
    for absent in [Ok(0), Ok(2), Err(())] {
        match flow.step(SignUpEvent::LookedUp(absent)) {
            AuthAction::CreateUser { name, pass_hash } => {
                assert_eq!(name, "alice");
                assert_eq!(pass_hash, hash("secret", "server key"));
                assert_ne!(pass_hash, "secret");
            }
            _ => panic!("expected the account to be stored"),
        }
    }
    let r = respond(flow.step(SignUpEvent::Created(true)));
    assert_eq!(r.status, HttpStatus::Success);
    assert!(r.success);
    assert_eq!(r.detail, "");
    let r = respond(flow.step(SignUpEvent::Created(false)));
    assert_eq!(r.status, HttpStatus::Unauthorized);
    assert!(!r.success);
}

#[test]
fn sign_in_flow() {
    let r = respond(SignIn::new(user("alice", "secret"), key()).step(SignInEvent::Submitted { signed_in: true }));
    assert_eq!(r.status, HttpStatus::BadRequest);
    assert_eq!(r.detail, "Already sign in");
    let r = respond(SignIn::new(user("al", "secret"), key()).step(SignInEvent::Submitted { signed_in: false }));
    assert_eq!(r.status, HttpStatus::BadRequest);
    let flow = SignIn::new(user("alice", "secret"), key());
    match flow.step(SignInEvent::Submitted { signed_in: false }) {
        AuthAction::VerifyPassword { name, pass_hash } => {
            assert_eq!(name, "alice");
            assert_eq!(pass_hash, hash("secret", "server key"));
        }
        _ => panic!("expected the credentials to be checked"),
    }
    match flow.step(SignInEvent::Verified(Ok(1))) {
        AuthAction::IssueToken(name) => assert_eq!(name, "alice"),
        _ => panic!("expected a token for the submitted user"),
    }
    for bad in [Ok(0), Ok(3), Err(())] {
        let r = respond(flow.step(SignInEvent::Verified(bad)));
        assert_eq!(r.status, HttpStatus::Unauthorized);
        assert_eq!(r.detail, "Username or Password is incorrect");
    }
    let r = remember(flow.step(SignInEvent::TokenEncoded(true)));
    assert_eq!(r.status, HttpStatus::Success);
    assert_eq!(r.detail, "Logged in");
    let r = respond(flow.step(SignInEvent::TokenEncoded(false)));
    assert_eq!(r.status, HttpStatus::InternalServerError);
    assert_eq!(r.detail, "Unable to create token");
}

#[test]
fn refresh_refuses_missing_and_unreadable_tokens() {
    let mut flow = Refresh::new();
    let r = respond(flow.step(RefreshEvent::Submitted { signed_in: false }));
    assert_eq!(r.status, HttpStatus::Unauthorized);
    assert_eq!(r.detail, "Unauthorized");
    let mut flow = Refresh::new();
    assert!(matches!(flow.step(RefreshEvent::Submitted { signed_in: true }), AuthAction::DecodeToken));
    let r = respond(flow.step(RefreshEvent::Decoded { claims: None, now: 1000 }));
    assert_eq!(r.status, HttpStatus::BadRequest);
    assert_eq!(r.detail, "Invalid Token");
    assert!(!flow.knows_holder());
}

#[test]
fn refresh_drops_expired_tokens() {
    let now = 1_700_000_000u128;
    let mut flow = Refresh::new();
    let r = respond(flow.step(RefreshEvent::Decoded { claims: claims("alice", now - 1), now }));
    assert_eq!(r.status, HttpStatus::Unauthorized);
    assert!(!r.success);
    assert_eq!(r.detail, "Token Expired");
    assert!(!flow.knows_holder());
}

#[test]
fn refresh_renews_a_valid_token_for_its_user() {
    let now = 1_700_000_000u128;
    for exp in [now, now + 1, now + TOKEN_LIFETIME, now + 10 * TOKEN_LIFETIME] {
        let mut flow = Refresh::new();
        match flow.step(RefreshEvent::Decoded { claims: claims("alice", exp), now }) {
            AuthAction::IssueToken(name) => assert_eq!(name, "alice"),
            _ => panic!("expected a new token"),
        }
        assert!(flow.knows_holder());
        let r = remember(flow.step(RefreshEvent::TokenEncoded(true)));
        assert_eq!(r.status, HttpStatus::Success);
        assert!(r.success);
        assert_eq!(r.detail, "alice");
    }
    let mut flow = Refresh::new();
    flow.step(RefreshEvent::Decoded { claims: claims("bob", now), now });
    let r = respond(flow.step(RefreshEvent::TokenEncoded(false)));
    assert_eq!(r.status, HttpStatus::InternalServerError);
    assert_eq!(r.detail, "Unable to create token");
    assert_eq!(TOKEN_LIFETIME, 259_200);
}

#[test]
fn password_hash_is_hex_pbkdf2_sha256() {
    assert_eq!(
        hash("password", "salt"),
        "0394a2ede332c9a13eb82e9b24631604c31df978b4e2f0fbd2c549944f9d79a5"
    );
    assert_eq!(
        hash("pässwörd", "server secret"),
        "6c45b97cbd9cfb6c3b4d4810bba550ece6c95e266217a1ff7cf71f444ac69602"
    );
    assert_eq!(hash("", ""), "64a868d4b23af696d3734d0b814d04cdd1ac280128e97653a05f32b49c13a29a");
    assert_ne!(hash("password", "salt"), hash("password", "pepper"));
    assert_eq!(HASH_ROUNDS, 100_000);
}

#[test]
fn hex_writes_two_digits_per_byte() {
    assert_eq!(to_hex(&[]), "");
    assert_eq!(to_hex(&[0x00, 0x0f, 0xa5, 0xff]), "000fa5ff");
    assert_eq!(to_hex(&[0x12, 0x34]), "1234");
}
