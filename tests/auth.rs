use simple_auth::auth::{login, query};
use simple_auth::codec::encode;
use simple_auth::credential::verify;
use simple_auth::directory::find_by_email;
use simple_auth::errors::ServiceError;
use simple_auth::models::{AuthData, LoggedUser, SlimUser, UserRecord};

const PEPPER: &str = "0123012301230123";

fn hash_of(password: &str, pepper: &str) -> String {
    let config = argon2::Config {
        mem_cost: 64,
        time_cost: 1,
        lanes: 1,
        secret: pepper.as_bytes(),
        ..argon2::Config::default()
    };
    argon2::hash_encoded(password.as_bytes(), b"somesaltvalue", &config).unwrap()
}

fn record(email: &str, password: &str) -> UserRecord {
    UserRecord { email: email.to_string(), hash: hash_of(password, PEPPER) }
}

fn creds(email: &str, password: &str) -> AuthData {
    AuthData { email: email.to_string(), password: password.to_string() }
}

fn slim(email: &str) -> SlimUser {
    SlimUser { email: email.to_string() }
}

/// Reads a session token as a principal through serde_json, as the server does.
fn read(token: &str) -> Option<SlimUser> {
    let value: serde_json::Value = serde_json::from_str(token).ok()?;
    let email = value.as_object()?.get("email")?.as_str()?;
    Some(slim(email))
}

#[test]
fn login_scenario_single_user() {
    let store = vec![record("a@x.com", "secret")];
    let ok = query(&creds("a@x.com", "secret"), &store, PEPPER).unwrap();
    assert_eq!(ok.email, "a@x.com");
    assert_eq!(query(&creds("a@x.com", "wrong"), &store, PEPPER), Err(ServiceError::Unauthorized));
    assert_eq!(query(&creds("b@x.com", "secret"), &store, PEPPER), Err(ServiceError::Unauthorized));
}

#[test]
fn login_then_me_then_logout() {
    let store = vec![record("a@x.com", "secret")];
    let token = login(&creds("a@x.com", "secret"), &store, PEPPER).unwrap();
    let me: LoggedUser = SlimUser::from_request(read(&token)).unwrap();
    assert_eq!(me, slim("a@x.com"));
    // after logout the request carries no session any more
    assert_eq!(SlimUser::from_request(None), Err(ServiceError::Unauthorized));
}

#[test]
fn login_principal_equals_stored_record() {
    let store = vec![record("a@x.com", "pw-a"), record("b@x.com", "pw-b"), record("c@x.com", "pw-c")];
    for (email, pw) in [("a@x.com", "pw-a"), ("b@x.com", "pw-b"), ("c@x.com", "pw-c")] {
        assert_eq!(query(&creds(email, pw), &store, PEPPER), Ok(slim(email)));
    }
}

#[test]
fn wrong_password_is_unauthorized() {
    let store = vec![record("a@x.com", "pw-a"), record("b@x.com", "pw-b")];
    assert_eq!(query(&creds("a@x.com", "pw-b"), &store, PEPPER), Err(ServiceError::Unauthorized));
    assert_eq!(query(&creds("a@x.com", ""), &store, PEPPER), Err(ServiceError::Unauthorized));
    assert_eq!(login(&creds("b@x.com", "PW-B"), &store, PEPPER), Err(ServiceError::Unauthorized));
}

#[test]
fn unknown_email_matches_wrong_password_error() {
    let store = vec![record("a@x.com", "pw-a")];
    let unknown = query(&creds("nobody@x.com", "pw-a"), &store, PEPPER);
    let wrong = query(&creds("a@x.com", "nope"), &store, PEPPER);
    assert_eq!(unknown, Err(ServiceError::Unauthorized));
    assert_eq!(unknown, wrong);
    assert_eq!(query(&creds("a@x.com", "pw-a"), &Vec::new(), PEPPER), Err(ServiceError::Unauthorized));
}

#[test]
fn wrong_pepper_is_unauthorized() {
    let store = vec![record("a@x.com", "secret")];
    assert_eq!(
        query(&creds("a@x.com", "secret"), &store, "another-pepper-value"),
        Err(ServiceError::Unauthorized)
    );
}

#[test]
fn duplicate_emails_are_refused() {
    let store = vec![record("a@x.com", "one"), record("a@x.com", "two")];
    assert_eq!(find_by_email(&store, &"a@x.com".to_string()), None);
    assert_eq!(query(&creds("a@x.com", "one"), &store, PEPPER), Err(ServiceError::Unauthorized));
    assert_eq!(query(&creds("a@x.com", "two"), &store, PEPPER), Err(ServiceError::Unauthorized));
}

#[test]
fn find_by_email_positions() {
    let store = vec![record("a@x.com", "p"), record("b@x.com", "p"), record("c@x.com", "p")];
    assert_eq!(find_by_email(&store, &"a@x.com".to_string()), Some(0));
    assert_eq!(find_by_email(&store, &"c@x.com".to_string()), Some(2));
    assert_eq!(find_by_email(&store, &"d@x.com".to_string()), None);
    assert_eq!(find_by_email(&Vec::new(), &"a@x.com".to_string()), None);
}

#[test]
fn verify_outcomes() {
    let h = hash_of("secret", PEPPER);
    assert_eq!(verify(&h, "secret", PEPPER), Ok(true));
    assert_eq!(verify(&h, "secreT", PEPPER), Ok(false));
    assert_eq!(verify("not-a-hash", "secret", PEPPER), Err(ServiceError::Unauthorized));
    assert_eq!(verify("", "secret", PEPPER), Err(ServiceError::Unauthorized));
}

#[test]
fn malformed_stored_hash_is_unauthorized() {
    let store = vec![UserRecord { email: "a@x.com".to_string(), hash: "$argon2i$garbage".to_string() }];
    assert_eq!(query(&creds("a@x.com", "secret"), &store, PEPPER), Err(ServiceError::Unauthorized));
}

#[test]
fn encode_exact_tokens() {
    assert_eq!(encode(&slim("a@x.com")), "{\"email\":\"a@x.com\"}");
    assert_eq!(encode(&slim("q\"b\\c")), "{\"email\":\"q\\\"b\\\\c\"}");
    assert_eq!(encode(&slim("")), "{\"email\":\"\"}");
    assert_eq!(encode(&slim("\u{1}\u{1f}\n\t\r\u{8}\u{c}\u{7f}é")), "{\"email\":\"\\u0001\\u001f\\n\\t\\r\\b\\f\u{7f}é\"}");
}

#[test]
fn encode_decode_round_trip() {
    for email in ["a@x.com", "", "quote\"slash\\", "line\nbreak\ttab", "ünïcødé✓", "}{\"email\":"] {
        let p = slim(email);
        let token = encode(&p);
        assert_eq!(read(&token), Some(p));
    }
}

#[test]
fn login_token_round_trip() {
    let store = vec![record("a@x.com", "secret")];
    let token = login(&creds("a@x.com", "secret"), &store, PEPPER).unwrap();
    assert_eq!(token, "{\"email\":\"a@x.com\"}");
    assert_eq!(read(&token), Some(slim("a@x.com")));
}

#[test]
fn extract_refuses_missing_empty_and_corrupted() {
    assert_eq!(SlimUser::from_request(None), Err(ServiceError::Unauthorized));
    assert_eq!(SlimUser::from_request(read("")), Err(ServiceError::Unauthorized));
    let good = encode(&slim("a@x.com"));
    let corrupted = good.replace("email", "mail");
    assert_eq!(SlimUser::from_request(read(&corrupted)), Err(ServiceError::Unauthorized));
    let truncated = &good[..good.len() - 2];
    assert_eq!(SlimUser::from_request(read(truncated)), Err(ServiceError::Unauthorized));
    assert_eq!(SlimUser::from_request(read("{\"email\":null}")), Err(ServiceError::Unauthorized));
    assert_eq!(SlimUser::from_request(read("{ \"email\" : \"a\", \"id\": 1 } ")), Ok(slim("a")));
}

#[test]
fn interleaved_logins_keep_principals_apart() {
    let store = vec![record("a@x.com", "pw-a"), record("b@x.com", "pw-b"), record("c@x.com", "pw-c")];
    let ta = login(&creds("a@x.com", "pw-a"), &store, PEPPER).unwrap();
    let tb = login(&creds("b@x.com", "pw-b"), &store, PEPPER).unwrap();
    let tc = login(&creds("c@x.com", "pw-c"), &store, PEPPER).unwrap();
    assert_eq!(SlimUser::from_request(read(&tb)), Ok(slim("b@x.com")));
    assert_eq!(SlimUser::from_request(read(&tc)), Ok(slim("c@x.com")));
    assert_eq!(SlimUser::from_request(read(&ta)), Ok(slim("a@x.com")));
}
