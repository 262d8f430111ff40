//! Everything the client computes around its HTTP exchanges: the signed
//! request that obtains a session token, the cache of that token, the
//! resolution of request paths against the API's base URL, and the reading
//! of the pagination header of list responses.

pub mod accounts;
pub mod markets;

use base64::{engine::general_purpose, Engine as _};
use hmac::{Hmac, Mac};
use sha2::Sha256;
use std::time::Instant;
use vstd::prelude::*;
use vstd::utf8::*;

use crate::clock::{current_time_millis, elapsed_secs, instant_now};
use crate::config::Config;
use crate::text::{decimal, decimal_string};

verus! {

// ---------------------------------------------------------------------------
// Outside computations: HMAC-SHA256 and base64.
// ---------------------------------------------------------------------------

/// The HMAC-SHA256 tag of `message` under `key`.
pub uninterp spec fn hmac_sha256(key: Seq<u8>, message: Seq<u8>) -> Seq<u8>;

/// The character of a six-bit value in the standard base64 alphabet:
/// `A`-`Z`, `a`-`z`, `0`-`9`, `+` and `/`.
pub open spec fn base64_char(v: nat) -> char {
    if v < 26 {
        ((65 + v) as u32) as char
    } else if v < 52 {
        ((97 + (v - 26)) as u32) as char
    } else if v < 62 {
        ((48 + (v - 52)) as u32) as char
    } else if v == 62 {
        '+'
    } else {
        '/'
    }
}

/// The standard (padded) base64 text of `data`: every three bytes become
/// four characters, each standing for six bits, most significant first; a
/// last group of one or two bytes is filled with zero bits and padded with
/// `=` to four characters.
pub open spec fn base64_standard_encode(data: Seq<u8>) -> Seq<char>
    decreases data.len(),
{
    if data.len() == 0 {
        Seq::empty()
    } else if data.len() == 1 {
        let n = data[0] as nat;
        seq![base64_char(n / 4), base64_char((n % 4) * 16), '=', '=']
    } else if data.len() == 2 {
        let n = (data[0] as nat) * 256 + (data[1] as nat);
        seq![base64_char(n / 1024), base64_char((n / 16) % 64), base64_char((n % 16) * 4), '=']
    } else {
        let n = (data[0] as nat) * 65536 + (data[1] as nat) * 256 + (data[2] as nat);
        seq![
            base64_char(n / 262144),
            base64_char((n / 4096) % 64),
            base64_char((n / 64) % 64),
            base64_char(n % 64),
        ] + base64_standard_encode(data.skip(3))
    }
}

/// The bytes that a standard (padded) base64 text decodes to: the bytes
/// whose standard base64 text it is, or `None` when it is the text of no
/// bytes (the standard engine accepts canonical padded text only, with no
/// stray bits in the last character).
pub open spec fn base64_standard_decode(text: Seq<char>) -> Option<Seq<u8>> {
    if exists|data: Seq<u8>| #[trigger] base64_standard_encode(data) == text {
        Some(choose|data: Seq<u8>| #[trigger] base64_standard_encode(data) == text)
    } else {
        None
    }
}

/// The length of the padded base64 text of `n` bytes.
pub open spec fn base64_encoded_len(n: nat) -> nat {
    (n / 3) * 4 + if n % 3 == 0 { 0nat } else { 4nat }
}

/// HMAC-SHA256 through the `hmac` crate's `Mac` interface
/// (`Hmac::<Sha256>::new_from_slice`, `update`, `finalize`). The contract
/// claims that the tag is the HMAC-SHA256 of `data` under `secret` and that
/// it has the 32 bytes of a SHA-256 output; `new_from_slice` accepts keys
/// of every length for HMAC, so the unwrap never fails.
#[verifier::external_body]
fn calculate_hmac(data: &[u8], secret: &[u8]) -> (tag: Vec<u8>)
    ensures
        tag@ == hmac_sha256(secret@, data@),
        tag@.len() == 32,
{
    let mut mac = Hmac::<Sha256>::new_from_slice(secret).unwrap();
    mac.update(data);
    mac.finalize().into_bytes().to_vec()
}

/// Calls `base64::engine::general_purpose::STANDARD.encode`. The contract
/// claims the text is the standard padded base64 of `data` as
/// `base64_standard_encode` spells it out, whose length the crate computes
/// with `encoded_len`; the call panics when that length
/// overflows `usize`, which `requires` rules out.
#[verifier::external_body]
fn base64_encode(data: &[u8]) -> (text: String)
    requires
        base64_encoded_len(data@.len()) <= usize::MAX,
    ensures
        text@ == base64_standard_encode(data@),
        text@.len() == base64_encoded_len(data@.len()),
{
    general_purpose::STANDARD.encode(data)
}

/// Calls `base64::engine::general_purpose::STANDARD.decode`; `None` stands
/// for its `DecodeError`. The contract claims the engine decodes exactly
/// the texts that its `encode` produces, each back to the bytes it came
/// from, and refuses every other text.
#[verifier::external_body]
fn base64_decode(text: &str) -> (bytes: Option<Vec<u8>>)
    ensures
        bytes is None <==> base64_standard_decode(text@) is None,
        bytes matches Some(b) ==> base64_standard_decode(text@) == Some(b@),
{
    general_purpose::STANDARD.decode(text).ok()
}

// ---------------------------------------------------------------------------
// Request signatures.
// ---------------------------------------------------------------------------

/// The HTTP methods the client sends.
#[derive(Clone, Copy, Debug, PartialEq, Eq, Structural)]
pub enum Method {
    Get,
    Post,
    Delete,
}

impl Method {
    /// The method's name as it appears in a request line.
    pub open spec fn name(self) -> Seq<char> {
        match self {
            Method::Get => "GET"@,
            Method::Post => "POST"@,
            Method::Delete => "DELETE"@,
        }
    }

    pub fn as_str(&self) -> (s: &'static str)
        ensures
            s@ == self.name(),
    {
        match self {
            Method::Get => "GET",
            Method::Post => "POST",
            Method::Delete => "DELETE",
        }
    }
}

/// The text that is signed: the timestamp in decimal milliseconds, the
/// method, the path and the body, with nothing between them.
pub open spec fn signing_payload(
    timestamp: nat,
    method: Method,
    path: Seq<char>,
    body: Seq<char>,
) -> Seq<char> {
    decimal(timestamp) + method.name() + path + body
}

/// The request signature: the standard base64 text of the HMAC-SHA256 tag
/// of the UTF-8 bytes of the signing payload, keyed with the API secret.
pub open spec fn request_signature(
    secret: Seq<u8>,
    timestamp: nat,
    method: Method,
    path: Seq<char>,
    body: Seq<char>,
) -> Seq<char> {
    base64_standard_encode(hmac_sha256(secret, encode_utf8(signing_payload(timestamp, method, path, body))))
}

/// Signs a request made at `timestamp` (milliseconds since the Unix epoch).
pub fn sign_request(secret: &[u8], timestamp: u128, method: Method, path: &str, body: &str) -> (signature: String)
    ensures
        signature@ == request_signature(secret@, timestamp as nat, method, path@, body@),
{
    let mut payload = decimal_string(timestamp);
    payload.append(method.as_str());
    payload.append(path);
    payload.append(body);
    let tag = calculate_hmac(payload.as_str().as_bytes(), secret);
    base64_encode(tag.as_slice())
}

/// Signs a request with the current time; gives the signature and the
/// timestamp it was made with, or `None` when the system clock reads a time
/// before the Unix epoch.
fn generate_signature(secret: &[u8], method: Method, path: &str, body: &str) -> (signed: Option<(String, u128)>)
    ensures
        signed matches Some((signature, timestamp)) ==> signature@ == request_signature(
            secret@,
            timestamp as nat,
            method,
            path@,
            body@,
        ),
{
    match current_time_millis() {
        Some(timestamp) => Some((sign_request(secret, timestamp, method, path, body), timestamp)),
        None => None,
    }
}

// ---------------------------------------------------------------------------
// Paths and URLs.
// ---------------------------------------------------------------------------

/// The base URL of the REST API.
pub open spec fn base_url() -> Seq<char> {
    "https://api.nbx.com"@
}

pub open spec fn https_scheme() -> Seq<char> {
    "https://"@
}

/// A path is resolved against the base URL unless it is already an
/// absolute `https://` URL (as the pagination links are).
pub open spec fn resolve_path(path: Seq<char>) -> Seq<char> {
    if https_scheme().is_prefix_of(path) {
        path
    } else {
        base_url() + path
    }
}

fn base_url_str() -> (s: &'static str)
    ensures
        s@ == base_url(),
{
    "https://api.nbx.com"
}

/// Whether `path` starts with `https://`.
fn has_https_scheme(path: &str) -> (b: bool)
    ensures
        b == https_scheme().is_prefix_of(path@),
{
    let scheme = "https://";
    proof {
        reveal_strlit("https://");
    }
    let n = path.unicode_len();
    if n < 8 {
        return false;
    }
    let mut i: usize = 0;
    while i < 8
        invariant
            i <= 8,
            n == path@.len(),
            n >= 8,
            scheme@ == https_scheme(),
            scheme@.len() == 8,
            forall|j: int| 0 <= j < i ==> path@[j] == scheme@[j],
        decreases 8 - i,
    {
        if path.get_char(i) != scheme.get_char(i) {
            return false;
        }
        i = i + 1;
    }
    assert(path@.subrange(0, 8) =~= scheme@);
    true
}

/// Resolves a request path against the base URL.
pub fn format_path(path: &str) -> (url: String)
    ensures
        url@ == resolve_path(path@),
{
    if has_https_scheme(path) {
        path.to_owned()
    } else {
        let mut url = base_url_str().to_owned();
        url.append(path);
        url
    }
}

/// A resolved path is an absolute `https://` URL, and resolving it again
/// leaves it as it is.
pub proof fn law_resolve_path_idempotent(path: Seq<char>)
    ensures
        https_scheme().is_prefix_of(resolve_path(path)),
        resolve_path(resolve_path(path)) == resolve_path(path),
{
    reveal_strlit("https://api.nbx.com");
    reveal_strlit("https://");
    if !https_scheme().is_prefix_of(path) {
        let url = base_url() + path;
        assert(url.subrange(0, 8) =~= https_scheme());
    }
}

// ---------------------------------------------------------------------------
// Session tokens.
// ---------------------------------------------------------------------------

/// Lifetime, in minutes, that the client asks for when it requests a token.
pub const TOKEN_EXPIRY_MINUTES: u64 = 30;

/// A token is reused while its age in seconds is below this bound: ten
/// seconds before the lifetime the client asked for runs out.
pub open spec fn token_age_is_valid(age_secs: nat) -> bool {
    age_secs < TOKEN_EXPIRY_MINUTES * 60 - 10
}

/// Whether a token of the given age (in seconds) is still used.
pub fn token_age_valid(age_secs: u64) -> (valid: bool)
    ensures
        valid == token_age_is_valid(age_secs as nat),
{
    age_secs < TOKEN_EXPIRY_MINUTES * 60 - 10
}

/// A token is reused for 29 minutes and 50 seconds: at every age below
/// 1790 seconds, and at no age from 1790 seconds on.
pub proof fn law_token_lifetime(age_secs: nat)
    ensures
        age_secs < 1790 ==> token_age_is_valid(age_secs),
        age_secs >= 1790 ==> !token_age_is_valid(age_secs),
{
}

/// A token that has been valid at some age was valid at every younger age.
pub proof fn law_token_validity_monotone(younger: nat, older: nat)
    requires
        younger <= older,
        token_age_is_valid(older),
    ensures
        token_age_is_valid(younger),
{
}

/// The session token of the client with the instant it was obtained; a
/// token that was never obtained counts as expired.
pub struct Token {
    token: String,
    created_at: Option<Instant>,
}

impl Token {
    /// The token text.
    pub closed spec fn text(&self) -> Seq<char> {
        self.token@
    }

    /// Whether the token was ever obtained.
    pub closed spec fn obtained(&self) -> bool {
        self.created_at is Some
    }

    /// An expired token with empty text.
    pub fn new() -> (token: Token)
        ensures
            token.text() == Seq::<char>::empty(),
            !token.obtained(),
    {
        Token { token: String::new(), created_at: None }
    }

    /// Whether the token can still be used: it was obtained, and its age in
    /// seconds satisfies `token_age_is_valid` at the time of the call. The
    /// age is read from the clock, so only the first half is promised.
    pub fn is_valid(&self) -> (valid: bool)
        ensures
            valid ==> self.obtained(),
    {
        match &self.created_at {
            Some(created_at) => token_age_valid(elapsed_secs(created_at)),
            None => false,
        }
    }

    /// The token text.
    pub fn value(&self) -> (text: &String)
        ensures
            text@ == self.text(),
    {
        &self.token
    }

    /// Replaces the token with one that was obtained just now.
    pub fn refresh(&mut self, token: String)
        ensures
            final(self).text() == token@,
            final(self).obtained(),
    {
        self.token = token;
        self.created_at = Some(instant_now());
    }
}

impl Default for Token {
    /// An expired token with empty text.
    fn default() -> (token: Token)
        ensures
            token.text() == Seq::<char>::empty(),
            !token.obtained(),
    {
        Token::new()
    }
}

/// The path of the request that creates a session token.
pub open spec fn token_path(account_id: Seq<char>, api_key: Seq<char>) -> Seq<char> {
    "/accounts/"@ + account_id + "/api_keys/"@ + api_key + "/tokens"@
}

/// The JSON body of the token request: an object with the single field
/// `expiresIn`, the lifetime in minutes.
pub open spec fn token_request_body(expires_in_minutes: nat) -> Seq<char> {
    "{\"expiresIn\":"@ + decimal(expires_in_minutes) + "}"@
}

/// The content type of the token request's body.
pub open spec fn token_content_type() -> Seq<char> {
    "application/json"@
}

/// The value of the `authorization` header of the token request.
pub open spec fn token_authorization(passphrase: Seq<char>, signature: Seq<char>) -> Seq<char> {
    "NBX-HMAC-SHA256 "@ + passphrase + ":"@ + signature
}

/// The parts of the signed request that creates a session token; it is
/// posted to `url` with the given headers and body.
pub struct TokenRequest {
    pub url: String,
    pub body: String,
    /// Value of the `Content-Type` header.
    pub content_type: String,
    /// Value of the `authorization` header.
    pub authorization: String,
    /// Value of the `X-NBX-TIMESTAMP` header.
    pub timestamp: String,
}

/// What the token request for `config`, signed with `secret` at
/// `timestamp`, consists of.
pub open spec fn token_request_spec(config: Config, secret: Seq<u8>, timestamp: nat, request: TokenRequest) -> bool {
    let path = token_path(config.account_id@, config.api_key@);
    let body = token_request_body(TOKEN_EXPIRY_MINUTES as nat);
    &&& request.url@ == base_url() + path
    &&& request.body@ == body
    &&& request.content_type@ == token_content_type()
    &&& request.authorization@ == token_authorization(
        config.api_passphrase@,
        request_signature(secret, timestamp, Method::Post, path, body),
    )
    &&& request.timestamp@ == decimal(timestamp)
}

/// Builds the JSON body of the token request.
fn token_body(expires_in_minutes: u64) -> (body: String)
    ensures
        body@ == token_request_body(expires_in_minutes as nat),
{
    let mut body = "{\"expiresIn\":".to_owned();
    body.append(decimal_string(expires_in_minutes as u128).as_str());
    body.append("}");
    body
}

/// Builds the token request for `config`, signed with the decoded API
/// secret at `timestamp` (milliseconds since the Unix epoch).
pub fn token_request_at(config: &Config, secret: &[u8], timestamp: u128) -> (request: TokenRequest)
    ensures
        token_request_spec(*config, secret@, timestamp as nat, request),
{
    let mut path = "/accounts/".to_owned();
    path.append(config.account_id.as_str());
    path.append("/api_keys/");
    path.append(config.api_key.as_str());
    path.append("/tokens");
    let body = token_body(TOKEN_EXPIRY_MINUTES);
    let signature = sign_request(secret, timestamp, Method::Post, path.as_str(), body.as_str());
    let mut authorization = "NBX-HMAC-SHA256 ".to_owned();
    authorization.append(config.api_passphrase.as_str());
    authorization.append(":");
    authorization.append(signature.as_str());
    let mut url = base_url_str().to_owned();
    url.append(path.as_str());
    TokenRequest {
        url,
        body,
        content_type: "application/json".to_owned(),
        authorization,
        timestamp: decimal_string(timestamp),
    }
}

/// Why a token request could not be built.
#[derive(Clone, Copy, Debug, PartialEq, Eq, Structural)]
pub enum TokenRequestError {
    /// The API secret of the configuration is not standard base64.
    InvalidSecret,
    /// The system clock reads a time before the Unix epoch.
    ClockBeforeEpoch,
}

/// Builds the token request for `config`, signed at the current time with
/// the API secret decoded from base64.
pub fn token_request(config: &Config) -> (request: Result<TokenRequest, TokenRequestError>)
    ensures
        request == Err::<TokenRequest, TokenRequestError>(TokenRequestError::InvalidSecret)
            <==> base64_standard_decode(config.api_secret@) is None,
        request matches Ok(r) ==> exists|timestamp: nat|
            #[trigger] token_request_spec(*config, base64_standard_decode(config.api_secret@).unwrap(), timestamp, r),
{
    let secret = match base64_decode(config.api_secret.as_str()) {
        Some(secret) => secret,
        None => return Err(TokenRequestError::InvalidSecret),
    };
    match current_time_millis() {
        Some(timestamp) => {
            let request: Result<TokenRequest, TokenRequestError> = Ok(
                token_request_at(config, secret.as_slice(), timestamp),
            );
            assert(token_request_spec(
                *config,
                base64_standard_decode(config.api_secret@).unwrap(),
                timestamp as nat,
                request->Ok_0,
            ));
            request
        },
        None => Err(TokenRequestError::ClockBeforeEpoch),
    }
}

// ---------------------------------------------------------------------------
// Pagination links.
// ---------------------------------------------------------------------------

/// A header byte is readable as text when it is visible ASCII or a tab.
pub open spec fn is_visible_ascii(b: u8) -> bool {
    (32 <= b && b < 127) || b == 9
}

/// The text of a header value: present exactly when every byte is visible
/// ASCII or a tab, and then the characters of those bytes.
pub open spec fn header_text(bytes: Seq<u8>) -> Option<Seq<char>> {
    if forall|i: int| 0 <= i < bytes.len() ==> is_visible_ascii(#[trigger] bytes[i]) {
        Some(bytes.map_values(|b: u8| b as char))
    } else {
        None
    }
}

/// Calls `String::from_utf8`; `None` stands for its `FromUtf8Error`. The
/// contract claims what std documents: the bytes are accepted exactly when
/// they are valid UTF-8, and the string holds the characters they encode.
#[verifier::external_body]
fn string_from_utf8(bytes: Vec<u8>) -> (s: Option<String>)
    ensures
        s is Some <==> valid_utf8(bytes@),
        s matches Some(t) ==> t@ == decode_utf8(bytes@),
{
    String::from_utf8(bytes).ok()
}

/// Bytes that are all ASCII are valid UTF-8 and decode to the characters
/// of the same codes.
proof fn lemma_ascii_bytes_decode(bytes: Seq<u8>)
    requires
        forall|i: int| 0 <= i < bytes.len() ==> #[trigger] bytes[i] < 128,
    ensures
        valid_utf8(bytes),
        decode_utf8(bytes) == bytes.map_values(|b: u8| b as char),
{
    let chars = bytes.map_values(|b: u8| b as char);
    assert(is_ascii_chars(chars)) by {
        assert forall|i: int| 0 <= i < chars.len() implies '\0' <= #[trigger] chars[i] <= '\u{7f}' by {
            assert(bytes[i] < 128);
        }
    }
    is_ascii_chars_encode_utf8(chars);
    assert forall|i: int| 0 <= i < bytes.len() implies encode_utf8(chars)[i] == bytes[i] by {
        assert(chars[i] as u8 == encode_utf8(chars)[i]);
        assert(bytes[i] < 128);
    }
    assert(encode_utf8(chars) =~= bytes);
    encode_utf8_valid_utf8(chars);
    encode_utf8_decode_utf8(chars);
}

/// The text of a header value, when it is readable as text.
fn header_value_text(bytes: &[u8]) -> (text: Option<String>)
    ensures
        match header_text(bytes@) {
            None => text is None,
            Some(t) => text matches Some(s) && s@ == t,
        },
{
    let n = bytes.len();
    let mut i: usize = 0;
    while i < n
        invariant
            i <= n,
            n == bytes@.len(),
            forall|j: int| 0 <= j < i ==> is_visible_ascii(#[trigger] bytes@[j]),
        decreases n - i,
    {
        let b = bytes[i];
        if !((32 <= b && b < 127) || b == 9) {
            assert(!is_visible_ascii(bytes@[i as int]));
            return None;
        }
        i = i + 1;
    }
    let owned = vstd::slice::slice_to_vec(bytes);
    proof {
        lemma_ascii_bytes_decode(bytes@);
    }
    string_from_utf8(owned)
}

/// Reads the `x-next-page-url` header of a list response: the link to the
/// next page is the header's value when it is present and readable as text.
pub fn next_page_url(header: Option<&[u8]>) -> (url: Option<String>)
    ensures
        match header {
            None => url is None,
            Some(bytes) => match header_text(bytes@) {
                None => url is None,
                Some(text) => url matches Some(u) && u@ == text,
            },
        },
{
    match header {
        None => None,
        Some(bytes) => header_value_text(bytes),
    }
}

} // verus!
