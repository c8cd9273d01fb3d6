use std::cell::Cell;
use std::time::{Duration, Instant};

use hapctl::form::request_body;
use hapctl::iam::{serve, Client, Error, Token, TokenResponse};
use hapctl::time::Moment;

fn get_test_token() -> Token {
    let access_token = String::from("");
    let refresh_token = String::from("");
    let token_type = String::from("test");

    Token {
        access_token,
        refresh_token,
        token_type,
        expiry: Moment::now().after_secs(1200),
    }
}

fn expired_token() -> Token {
    Token {
        access_token: String::from("old"),
        token_type: String::from("Bearer"),
        refresh_token: String::from(""),
        expiry: Moment { origin: Instant::now() - Duration::from_secs(10), nanos: 0 },
    }
}

fn response(access: &str, refresh: Option<&str>, expires_in: Option<u64>) -> TokenResponse {
    TokenResponse {
        access_token: access.to_string(),
        token_type: "Bearer".to_string(),
        refresh_token: refresh.map(|r| r.to_string()),
        expires_in,
    }
}

fn unreachable_transport(_body: String) -> Result<TokenResponse, Error> {
    panic!("the provider must not be asked")
}

#[test]
fn token_expiry() {
    let mut token = get_test_token();
    token.expiry = Moment::now().after_secs(10);
    assert!(token.valid());

    token.expiry = Moment { origin: Instant::now() - Duration::from_secs(10), nanos: 0 };
    assert!(!token.valid());
}

#[test]
fn token_caching() {
    let iam = Client::new("".into());
    iam.set_cached(Some(get_test_token()));

    let token = iam.token(unreachable_transport).unwrap();
    let token2 = iam.token(unreachable_transport).unwrap();
    assert_eq!(token, token2);
}

#[test]
fn valid_at_compares_with_expiry() {
    let mut token = get_test_token();
    token.expiry = Moment { origin: Instant::now(), nanos: 10_000_000_000 };
    assert!(token.valid_at(0));
    assert!(token.valid_at(9_999_999_999));
    assert!(!token.valid_at(10_000_000_000));
    assert!(!token.valid_at(11_000_000_000));
}

#[test]
fn token_at_its_origin_is_never_valid() {
    let mut token = get_test_token();
    token.expiry = Moment::now();
    assert!(!token.valid());
}

#[test]
fn cache_miss_fetches_once() {
    let iam = Client::new("key");
    let calls = Cell::new(0u32);
    let transport = |_body: String| {
        calls.set(calls.get() + 1);
        Ok(response("abc", Some("r"), Some(3600)))
    };
    let first = iam.token(&transport).unwrap();
    assert_eq!(first.access_token, "abc");
    assert_eq!(first.refresh_token, "r");
    assert_eq!(first.expiry.nanos, 3600 * 1_000_000_000);
    let second = iam.token(&transport).unwrap();
    assert_eq!(first, second);
    assert_eq!(calls.get(), 1);
    assert_eq!(iam.cached(), Some(first));
}

#[test]
fn many_callers_share_one_refresh() {
    let iam = Client::new("key");
    let calls = Cell::new(0u32);
    let transport = |_body: String| {
        calls.set(calls.get() + 1);
        Ok(response("shared", None, None))
    };
    let results: Vec<Token> = (0..8).map(|_| iam.token(&transport).unwrap()).collect();
    assert_eq!(calls.get(), 1);
    for t in &results {
        assert_eq!(t, &results[0]);
    }
}

#[test]
fn expired_token_is_refreshed() {
    let iam = Client::new("key");
    iam.set_cached(Some(expired_token()));
    let t = iam.token(|_body: String| Ok(response("new", None, Some(5)))).unwrap();
    assert_eq!(t.access_token, "new");
    assert_eq!(iam.cached(), Some(t));
}

#[test]
fn failed_refresh_keeps_prior_token() {
    let iam = Client::new("key");
    let prior = expired_token();
    iam.set_cached(Some(prior.clone()));
    let r = iam.token(|_body: String| Err(Error::Transport("connection refused".to_string())));
    assert_eq!(r, Err(Error::Transport("connection refused".to_string())));
    assert_eq!(iam.cached(), Some(prior));
}

#[test]
fn failed_refresh_on_empty_cache_keeps_it_empty() {
    let iam = Client::new("key");
    let r = iam.token(|_body: String| Err(Error::Protocol("not json".to_string())));
    assert_eq!(r, Err(Error::Protocol("not json".to_string())));
    assert_eq!(iam.cached(), None);
}

#[test]
fn transport_receives_form_body() {
    let iam = Client::new("my key+1");
    let seen = Cell::new(false);
    iam.token(|body: String| {
        assert_eq!(
            body,
            "grant_type=urn%3Aibm%3Aparams%3Aoauth%3Agrant-type%3Aapikey&apikey=my+key%2B1"
        );
        seen.set(true);
        Ok(response("x", None, None))
    })
    .unwrap();
    assert!(seen.get());
}

#[test]
fn request_body_encodes_key() {
    assert_eq!(
        request_body("abc"),
        "grant_type=urn%3Aibm%3Aparams%3Aoauth%3Agrant-type%3Aapikey&apikey=abc"
    );
    assert_eq!(
        request_body(""),
        "grant_type=urn%3Aibm%3Aparams%3Aoauth%3Agrant-type%3Aapikey&apikey="
    );
    assert_eq!(
        request_body("a/b=c&d é"),
        "grant_type=urn%3Aibm%3Aparams%3Aoauth%3Agrant-type%3Aapikey&apikey=a%2Fb%3Dc%26d+%C3%A9"
    );
}

#[test]
fn absent_refresh_token_is_empty() {
    let t = Token::from_response(response("a", None, Some(1)));
    assert_eq!(t.refresh_token, "");
    let t = Token::from_response(response("a", Some("keep"), Some(1)));
    assert_eq!(t.refresh_token, "keep");
}

#[test]
fn default_lifetime_is_1200_seconds() {
    let t = Token::from_response(response("a", None, None));
    assert_eq!(t.expiry.nanos, 1200 * 1_000_000_000);
    assert!(t.valid());
    let t = Token::from_response(response("a", None, Some(60)));
    assert_eq!(t.expiry.nanos, 60 * 1_000_000_000);
}

#[test]
fn empty_access_token_is_kept() {
    let t = Token::from_response(response("", None, None));
    assert_eq!(t.access_token, "");
    assert_eq!(t.token_type, "Bearer");
}

#[test]
fn issued_at_offsets_expiry() {
    let issued = Moment { origin: Instant::now(), nanos: 5 };
    let t = Token::issued_at(response("a", None, Some(2)), issued);
    assert_eq!(t.expiry.origin, issued.origin);
    assert_eq!(t.expiry.nanos, 2_000_000_005);
}

#[test]
fn after_secs_adds_seconds() {
    let m = Moment { origin: Instant::now(), nanos: 7 };
    assert_eq!(m.after_secs(3).nanos, 3_000_000_007);
    assert_eq!(m.after_secs(0), m);
}

#[test]
fn authorization_header() {
    let mut t = get_test_token();
    t.access_token = "xyz".to_string();
    assert_eq!(t.authorization(), "Bearer xyz");
}

#[test]
fn serve_hit_and_miss() {
    let live = get_test_token();
    let mut cached = Some(live.clone());
    let r = serve(&mut cached, 0, "k", unreachable_transport);
    assert_eq!(r, Ok(live.clone()));
    assert_eq!(cached, Some(live.clone()));

    let r = serve(&mut cached, 1200 * 1_000_000_000, "k", |_b: String| Ok(response("n", None, None)));
    let fresh = r.unwrap();
    assert_eq!(fresh.access_token, "n");
    assert_eq!(cached, Some(fresh));

    let mut empty: Option<Token> = None;
    let r = serve(&mut empty, 0, "k", |_b: String| Err(Error::Transport("down".to_string())));
    assert_eq!(r, Err(Error::Transport("down".to_string())));
    assert_eq!(empty, None);
}

#[test]
fn configured_needs_a_key() {
    match Client::configured(None) {
        Err(Error::Configuration(m)) => assert!(m.contains("IBMCLOUD_API_KEY")),
        _ => panic!("a missing key must be a configuration error"),
    }
    assert!(Client::configured(Some("k")).is_ok());
}

#[test]
fn error_messages() {
    assert_eq!(Error::Transport("x".to_string()).message(), "transport error: x");
    assert_eq!(Error::Protocol("y".to_string()).message(), "protocol error: y");
    assert_eq!(Error::Configuration("z".to_string()).message(), "configuration error: z");
}
