use nbx_api::client::{
    format_path, next_page_url, sign_request, token_age_valid, token_request, token_request_at, Method,
    Token, TokenRequestError, TOKEN_EXPIRY_MINUTES,
};
use nbx_api::clock::current_time_millis;
use nbx_api::error::{api_error_message, is_error_status};
use nbx_api::text::{concat3, concat4, concat5, decimal_string};
use nbx_api::Config;

fn config(secret: &str) -> Config {
    Config {
        account_id: "acc".to_string(),
        api_key: "key".to_string(),
        api_secret: secret.to_string(),
        api_passphrase: "pass".to_string(),
    }
}

#[test]
fn decimal_rendering() {
    assert_eq!(decimal_string(0), "0");
    assert_eq!(decimal_string(7), "7");
    assert_eq!(decimal_string(10), "10");
    assert_eq!(decimal_string(1700000000000), "1700000000000");
    assert_eq!(decimal_string(u128::MAX), u128::MAX.to_string());
}

#[test]
fn concatenation() {
    assert_eq!(concat3("a", "bc", ""), "abc");
    assert_eq!(concat4("/m/", "x", "/o/", "1"), "/m/x/o/1");
    assert_eq!(concat5("1", "2", "3", "4", "5"), "12345");
}

#[test]
fn paths_are_resolved_against_the_base_url() {
    assert_eq!(format_path("/markets/ETH-NOK"), "https://api.nbx.com/markets/ETH-NOK");
    assert_eq!(format_path("https://api.nbx.com/markets?page=2"), "https://api.nbx.com/markets?page=2");
    assert_eq!(format_path("http://example.com"), "https://api.nbx.comhttp://example.com");
    assert_eq!(format_path(""), "https://api.nbx.com");
    assert_eq!(format_path("https:/"), "https://api.nbx.comhttps:/");
}

#[test]
fn resolving_twice_changes_nothing() {
    for p in ["/a", "", "https://x", "ht"] {
        let once = format_path(p);
        assert_eq!(format_path(&once), once);
        assert!(once.starts_with("https://"));
    }
}

#[test]
fn method_names() {
    assert_eq!(Method::Get.as_str(), "GET");
    assert_eq!(Method::Post.as_str(), "POST");
    assert_eq!(Method::Delete.as_str(), "DELETE");
}

#[test]
fn signature_matches_known_vectors() {
    assert_eq!(
        sign_request(
            b"secret",
            1700000000000,
            Method::Post,
            "/accounts/acc/api_keys/key/tokens",
            "{\"expiresIn\":30}"
        ),
        "OalVeWYguIafZyKBzqRAv8ugJJdSt1YxCoGaRcarSNU="
    );
    assert_eq!(sign_request(b"k", 0, Method::Get, "/x", ""), "GCDVPGSPne0yTrS7ydSTbkikuRyY6y/bK1HGlu5Ytbo=");
    assert_eq!(
        sign_request(&[1, 2, 3], 42, Method::Delete, "/markets/ETH-NOK/orders/9", "é"),
        "MEPjrcWfC9YeWZDHPNzpLCNieQ5z5eyFzuLjUPVzOx4="
    );
}

#[test]
fn token_request_at_fixed_time() {
    let r = token_request_at(&config("c2VjcmV0"), b"secret", 1700000000000);
    assert_eq!(r.url, "https://api.nbx.com/accounts/acc/api_keys/key/tokens");
    assert_eq!(r.body, "{\"expiresIn\":30}");
    assert_eq!(r.content_type, "application/json");
    assert_eq!(r.timestamp, "1700000000000");
    assert_eq!(r.authorization, "NBX-HMAC-SHA256 pass:OalVeWYguIafZyKBzqRAv8ugJJdSt1YxCoGaRcarSNU=");
    assert_eq!(TOKEN_EXPIRY_MINUTES, 30);
}

#[test]
fn token_request_decodes_the_secret_and_signs_now() {
    let before = current_time_millis().unwrap();
    let r = token_request(&config("c2VjcmV0")).unwrap();
    let after = current_time_millis().unwrap();
    let ts: u128 = r.timestamp.parse().unwrap();
    assert!(before <= ts && ts <= after);
    let expected = token_request_at(&config("c2VjcmV0"), b"secret", ts);
    assert_eq!(r.authorization, expected.authorization);
    assert_eq!(r.url, expected.url);
    assert_eq!(r.body, expected.body);
}

#[test]
fn token_request_rejects_invalid_secret() {
    assert_eq!(token_request(&config("not base64!")).err(), Some(TokenRequestError::InvalidSecret));
    assert_eq!(token_request(&config("abc")).err(), Some(TokenRequestError::InvalidSecret));
}

#[test]
fn clock_reads_after_2023() {
    assert!(current_time_millis().unwrap() > 1_672_531_200_000);
}

#[test]
fn token_lifetime() {
    assert!(token_age_valid(0));
    assert!(token_age_valid(1789));
    assert!(!token_age_valid(1790));
    assert!(!token_age_valid(u64::MAX));
}

#[test]
fn token_cache() {
    let mut token = Token::new();
    assert!(!token.is_valid());
    assert_eq!(token.value(), "");
    token.refresh("abc".to_string());
    assert!(token.is_valid());
    assert_eq!(token.value(), "abc");
}

#[test]
fn next_page_header() {
    assert_eq!(next_page_url(None), None);
    assert_eq!(
        next_page_url(Some(b"https://api.nbx.com/markets/ETH-NOK/orders?page=2")),
        Some("https://api.nbx.com/markets/ETH-NOK/orders?page=2".to_string())
    );
    assert_eq!(next_page_url(Some(b"a\tb ~")), Some("a\tb ~".to_string()));
    assert_eq!(next_page_url(Some(b"")), Some(String::new()));
    assert_eq!(next_page_url(Some(b"a\nb")), None);
    assert_eq!(next_page_url(Some("é".as_bytes())), None);
    assert_eq!(next_page_url(Some(&[0x7f])), None);
}

#[test]
fn error_statuses() {
    assert!(!is_error_status(200));
    assert!(!is_error_status(399));
    assert!(is_error_status(400));
    assert!(is_error_status(404));
    assert!(is_error_status(499));
    assert!(is_error_status(500));
    assert!(is_error_status(599));
    assert!(!is_error_status(600));
}

#[test]
fn api_error_message_text() {
    assert_eq!(api_error_message(404, "not found"), "Api Error: 404 not found");
    assert_eq!(api_error_message(500, ""), "Api Error: 500 ");
    assert_eq!(api_error_message(0, "x"), "Api Error: 0 x");
}
