//! OIDC/JWKS token authentication for the gateway.
//!
//! A validator holds the signing keys of the identity provider by key id. A token names
//! its key; where the key is not held, the keys are fetched anew once before the token is
//! refused.

use vstd::hash_map::StringHashMap;
use vstd::prelude::*;
use vstd::string::*;

use crate::text::{
    joined, rsplit_once, same_text, split_at_last, trim_end_char, trimmed_end,
    trimmed_end_is_idempotent,
};

verus! {

/// Authentication settings.
#[derive(Debug, Clone, PartialEq, Eq)]
pub struct AuthConfig {
    /// Whether authentication is bypassed.
    pub disabled: bool,
    /// The user that everybody is while authentication is bypassed.
    pub dev_user_id: Option<String>,
    /// The OIDC issuer.
    pub issuer_url: Option<String>,
    /// The audience that a token has to be meant for.
    pub audience: Option<String>,
    /// The JWKS endpoint, where it is not the issuer's standard one.
    pub jwks_url: Option<String>,
}

/// Whether a setting switches authentication off.
pub open spec fn switches_off(setting: Option<String>) -> bool {
    match setting {
        Some(value) => value@ == "true"@ || value@ == "1"@,
        None => false,
    }
}

/// The JWKS endpoint of an issuer.
pub open spec fn standard_jwks_url(issuer: Seq<char>) -> Seq<char> {
    trimmed_end(issuer, '/') + "/.well-known/jwks.json"@
}

impl AuthConfig {
    /// Reads the settings from the values of the environment variables `AUTH_DISABLED`,
    /// `DEV_USER_ID`, `AUTH_ISSUER_URL`, `AUTH_AUDIENCE` and `AUTH_JWKS_URL`.
    pub fn from_env(
        auth_disabled: Option<String>,
        dev_user_id: Option<String>,
        issuer_url: Option<String>,
        audience: Option<String>,
        jwks_url: Option<String>,
    ) -> (r: AuthConfig)
        ensures
            r == (AuthConfig {
                disabled: switches_off(auth_disabled),
                dev_user_id,
                issuer_url,
                audience,
                jwks_url,
            }),
    {
        let disabled = match &auth_disabled {
            Some(value) => same_text(value.as_str(), "true") || same_text(value.as_str(), "1"),
            None => false,
        };
        AuthConfig { disabled, dev_user_id, issuer_url, audience, jwks_url }
    }

    /// The JWKS endpoint: the configured one, else the issuer's standard one.
    pub open spec fn jwks_endpoint(self) -> Option<Seq<char>> {
        match (self.jwks_url, self.issuer_url) {
            (Some(url), _) => Some(url@),
            (None, Some(issuer)) => Some(standard_jwks_url(issuer@)),
            (None, None) => None,
        }
    }

    /// Resolves the JWKS endpoint from the settings.
    pub fn resolved_jwks_url(&self) -> (r: Option<String>)
        ensures
            match r {
                Some(url) => self.jwks_endpoint() == Some(url@),
                None => self.jwks_endpoint() is None,
            },
    {
        if let Some(url) = &self.jwks_url {
            return Some(url.clone());
        }
        match &self.issuer_url {
            Some(issuer) => Some(
                joined(trim_end_char(issuer.as_str(), '/'), "/.well-known/jwks.json"),
            ),
            None => None,
        }
    }
}

/// A trailing slash of the issuer makes no difference to its JWKS endpoint.
pub proof fn issuer_slash_does_not_matter(issuer: Seq<char>)
    ensures
        standard_jwks_url(issuer.push('/')) == standard_jwks_url(issuer),
        standard_jwks_url(trimmed_end(issuer, '/')) == standard_jwks_url(issuer),
{
    assert(issuer.push('/').drop_last() =~= issuer);
    trimmed_end_is_idempotent(issuer, '/');
}

/// One key of a JWKS response.
#[derive(Debug, Clone, PartialEq, Eq)]
pub struct JwkKey {
    pub kid: Option<String>,
    pub kty: String,
    pub n: Option<String>,
    pub e: Option<String>,
    pub alg: Option<String>,
}

/// A JWKS response of the identity provider.
#[derive(Debug, Clone, PartialEq, Eq)]
pub struct JwksResponse {
    pub keys: Vec<JwkKey>,
}

/// The public part of an RSA key, as it stands in a JWKS response.
#[derive(Debug, Clone, PartialEq, Eq)]
pub struct RsaKey {
    /// The modulus.
    pub n: String,
    /// The exponent.
    pub e: String,
}

/// A JSON value, `serde_json::Value`.
#[verifier::external_type_specification]
#[verifier::external_body]
pub struct ExValue(serde_json::Value);

/// The claims of an accepted token.
#[derive(Debug, Clone, PartialEq)]
pub struct TokenClaims {
    pub sub: Option<String>,
    pub aud: Option<serde_json::Value>,
    pub iss: Option<String>,
    pub exp: Option<u64>,
}

/// Why a token was not accepted.
#[derive(Debug, Clone, PartialEq, Eq)]
pub enum AuthError {
    /// The header of the token cannot be read.
    InvalidHeader,
    /// The header of the token names no key.
    MissingKid,
    /// No JWKS endpoint is configured.
    NoJwksUrl,
    /// The JWKS endpoint did not answer.
    FetchFailed,
    /// The answer of the JWKS endpoint cannot be read.
    MalformedJwks,
    /// The identity provider has no key of this id.
    UnknownKey(String),
    /// The token does not hold up against its key, or its claims are not acceptable.
    ValidationFailed,
    /// The time of the token is over.
    Expired,
}

impl AuthError {
    /// The reason in words.
    pub open spec fn described(&self) -> Seq<char> {
        match *self {
            AuthError::InvalidHeader => "Invalid JWT header"@,
            AuthError::MissingKid => "JWT missing kid header"@,
            AuthError::NoJwksUrl => "No JWKS URL configured"@,
            AuthError::FetchFailed => "Failed to fetch JWKS"@,
            AuthError::MalformedJwks => "Failed to parse JWKS response"@,
            AuthError::UnknownKey(kid) => "Unknown key kid="@ + kid@ + " after JWKS refresh"@,
            AuthError::ValidationFailed | AuthError::Expired => "JWT validation failed"@,
        }
    }

    /// Describes the reason in words.
    pub fn message(&self) -> (r: String)
        ensures
            r@ == self.described(),
    {
        match self {
            AuthError::InvalidHeader => "Invalid JWT header".to_owned(),
            AuthError::MissingKid => "JWT missing kid header".to_owned(),
            AuthError::NoJwksUrl => "No JWKS URL configured".to_owned(),
            AuthError::FetchFailed => "Failed to fetch JWKS".to_owned(),
            AuthError::MalformedJwks => "Failed to parse JWKS response".to_owned(),
            AuthError::UnknownKey(kid) => {
                let mut r = joined("Unknown key kid=", kid.as_str());
                r.append(" after JWKS refresh");
                r
            },
            AuthError::ValidationFailed => "JWT validation failed".to_owned(),
            AuthError::Expired => "JWT validation failed".to_owned(),
        }
    }
}

/// An error of the token crate, `jsonwebtoken::errors::Error`.
#[verifier::external_type_specification]
#[verifier::external_body]
pub struct ExJwtError(jsonwebtoken::errors::Error);

/// The key id in the header of a token, by `jsonwebtoken::decode_header`: nothing where
/// the header cannot be read, and an inner nothing where it names no key.
pub uninterp spec fn header_kid(token: Seq<char>) -> Option<Option<Seq<char>>>;

/// Whether everything but the time speaks for a token, by `jsonwebtoken::decode`: it is
/// signed under the algorithm with the key of the modulus and exponent, its payload is JSON,
/// and its claims suit the audience and issuer. In other words, whether there is a time at
/// which the token is taken.
pub uninterp spec fn token_holds_up(
    token: Seq<char>,
    n: Seq<char>,
    e: Seq<char>,
    algorithm: Seq<char>,
    audience: Option<Seq<char>>,
    issuer: Option<Seq<char>>,
) -> bool;

/// The bytes that a text stands for in URL-safe base64 without padding, by the `base64`
/// crate; nothing if it stands for none.
pub uninterp spec fn base64url_decoded(text: Seq<char>) -> Option<Seq<u8>>;

/// The text of an optional string.
pub open spec fn optional_text(s: Option<String>) -> Option<Seq<char>> {
    match s {
        Some(text) => Some(text@),
        None => None,
    }
}

/// Reads the key id out of a token's header with `jsonwebtoken::decode_header`, which
/// splits, decodes and parses the header without checking the signature. The result is
/// taken to depend on the token alone.
#[verifier::external_body]
fn decode_header_kid(token: &str) -> (r: Result<Option<String>, jsonwebtoken::errors::Error>)
    ensures
        match r {
            Ok(kid) => header_kid(token@) == Some(optional_text(kid)),
            Err(_) => header_kid(token@) is None,
        },
{
    jsonwebtoken::decode_header(token).map(|header| header.kid)
}

/// Tries whether `jsonwebtoken::DecodingKey::from_rsa_components` takes a modulus and
/// exponent. It decodes both from URL-safe base64 without padding, by the `base64` crate,
/// and does nothing else that can fail.
#[verifier::external_body]
fn check_rsa_components(n: &str, e: &str) -> (r: Result<(), jsonwebtoken::errors::Error>)
    ensures
        r is Ok <==> (base64url_decoded(n@) is Some && base64url_decoded(e@) is Some),
{
    jsonwebtoken::DecodingKey::from_rsa_components(n, e).map(|_| ())
}

/// What the check of a token against a key comes to.
#[derive(Debug, Clone, Copy, PartialEq, Eq, Structural)]
pub enum TokenCheck {
    /// The token holds up.
    HoldsUp,
    /// The token is signed, but its time is over.
    Expired,
    /// The token does not hold up, at any time.
    Fails,
}

/// Checks a token with `jsonwebtoken::decode` against a key made from its components, the
/// one algorithm accepted (a name that `jsonwebtoken::Algorithm` parses), and the
/// audience and issuer where there are any; `exp` is required and held against the wall
/// clock. What the payload holds beside the claims looked at is not read.
///
/// The error `ExpiredSignature` is the only one that rests on the time, as `nbf` is not
/// looked at. So a token that is taken is one that the arguments alone speak for, and one
/// that is refused with another error is not. Of an expired token nothing is said: audience
/// and issuer are looked at only after the time. The crate panics where the wall clock is set
/// before the Unix epoch, or with overflow checks in the first minute after it, which no
/// argument can rule out.
#[verifier::external_body]
fn decode_token(
    token: &str,
    key: &RsaKey,
    algorithm: &str,
    audience: &Option<String>,
    issuer: &Option<String>,
) -> (r: TokenCheck)
    ensures
        r is HoldsUp ==> token_holds_up(
            token@,
            key.n@,
            key.e@,
            algorithm@,
            optional_text(*audience),
            optional_text(*issuer),
        ),
        r is Fails ==> !token_holds_up(
            token@,
            key.n@,
            key.e@,
            algorithm@,
            optional_text(*audience),
            optional_text(*issuer),
        ),
{
    let decoded = jsonwebtoken::DecodingKey::from_rsa_components(&key.n, &key.e).and_then(|key| {
        let mut validation = jsonwebtoken::Validation::new(algorithm.parse()?);
        validation.aud = audience.clone().map(|a| std::collections::HashSet::from([a]));
        validation.iss = issuer.clone().map(|i| std::collections::HashSet::from([i]));
        jsonwebtoken::decode::<serde::de::IgnoredAny>(token, &key, &validation)
    });
    match decoded.map_err(|e| e.into_kind()) {
        Ok(_) => TokenCheck::HoldsUp,
        Err(jsonwebtoken::errors::ErrorKind::ExpiredSignature) => TokenCheck::Expired,
        Err(_) => TokenCheck::Fails,
    }
}

/// Decodes a text with the URL-safe engine without padding of the `base64` crate,
/// `base64::engine::general_purpose::URL_SAFE_NO_PAD`, by `base64::Engine::decode`. The
/// result is taken to depend on the text alone.
#[verifier::external_body]
fn decode_base64url(text: &str) -> (r: Option<Vec<u8>>)
    ensures
        match r {
            Some(bytes) => base64url_decoded(text@) == Some(bytes@),
            None => base64url_decoded(text@) is None,
        },
{
    base64::Engine::decode(&base64::engine::general_purpose::URL_SAFE_NO_PAD, text).ok()
}

/// The payload of a token as it stands in it: what is between its last two dots.
pub open spec fn payload_part(token: Seq<char>) -> Option<Seq<char>> {
    match split_at_last(token, '.') {
        Some((message, _)) => match split_at_last(message, '.') {
            Some((_, payload)) => Some(payload),
            None => None,
        },
        None => None,
    }
}

/// The payload of a token, decoded.
pub open spec fn payload_of(token: Seq<char>) -> Option<Seq<u8>> {
    match payload_part(token) {
        Some(part) => base64url_decoded(part),
        None => None,
    }
}

/// Returns the payload of a token as it stands in it.
pub fn encoded_payload(token: &str) -> (r: Option<&str>)
    ensures
        match r {
            Some(part) => payload_part(token@) == Some(part@),
            None => payload_part(token@) is None,
        },
{
    match rsplit_once(token, '.') {
        Some((message, _)) => match rsplit_once(message, '.') {
            Some((_, payload)) => Some(payload),
            None => None,
        },
        None => None,
    }
}

/// Returns the payload of a token, decoded.
fn decoded_payload(token: &str) -> (r: Option<Vec<u8>>)
    ensures
        match r {
            Some(bytes) => payload_of(token@) == Some(bytes@),
            None => payload_of(token@) is None,
        },
{
    match encoded_payload(token) {
        Some(part) => decode_base64url(part),
        None => None,
    }
}

/// Whether a key of a JWKS response can be held: it is an RSA key with id, modulus and
/// exponent, and the latter two are well formed.
pub open spec fn usable(key: JwkKey) -> bool {
    &&& key.kty@ == "RSA"@
    &&& key.kid is Some
    &&& key.n is Some
    &&& key.e is Some
    &&& base64url_decoded(key.n->0@) is Some
    &&& base64url_decoded(key.e->0@) is Some
}

/// The keys of a response that can be held, by id. Of several keys with one id the last
/// one is held.
pub open spec fn keys_by_id(keys: Seq<JwkKey>) -> Map<Seq<char>, RsaKey>
    decreases keys.len(),
{
    if keys.len() == 0 {
        Map::empty()
    } else {
        let key = keys.last();
        let others = keys_by_id(keys.drop_last());
        if usable(key) {
            others.insert(key.kid->0@, RsaKey { n: key.n->0, e: key.e->0 })
        } else {
            others
        }
    }
}

/// What the key id in a token's header leads to.
pub enum KeyChoice {
    /// Check the token against this key.
    Use(RsaKey),
    /// Fetch the keys anew, then look for this id again.
    Refresh(String),
    /// Refuse the token.
    Refuse(AuthError),
}

/// What the first look at a token comes to.
pub enum Validation {
    /// The token is accepted with these claims.
    Claims(TokenClaims),
    /// The token is accepted if its payload, JSON, can be read as claims.
    Payload(Vec<u8>),
    /// Fetch the keys anew, then look at the token again with the key of this id.
    Refresh(String),
    /// The token is refused.
    Refuse(AuthError),
}

/// Token validator with the keys of the identity provider.
pub struct JwtValidator {
    pub config: AuthConfig,
    /// The keys that are held, by id.
    pub keys: StringHashMap<RsaKey>,
}

impl JwtValidator {
    /// A validator that holds no keys.
    pub fn new(config: AuthConfig) -> (r: JwtValidator)
        ensures
            r.config == config,
            r.keys@ == Map::<Seq<char>, RsaKey>::empty(),
    {
        JwtValidator { config, keys: StringHashMap::new() }
    }

    /// The endpoint to fetch the keys from.
    pub fn jwks_request(&self) -> (r: Result<String, AuthError>)
        ensures
            match r {
                Ok(url) => self.config.jwks_endpoint() == Some(url@),
                Err(e) => e is NoJwksUrl && self.config.jwks_endpoint() is None,
            },
    {
        match self.config.resolved_jwks_url() {
            Some(url) => Ok(url),
            None => Err(AuthError::NoJwksUrl),
        }
    }

    /// Replaces the keys that are held by those of a JWKS response.
    pub fn refresh_keys(&mut self, resp: &JwksResponse)
        ensures
            final(self).config == old(self).config,
            final(self).keys@ == keys_by_id(resp.keys@),
    {
        self.keys.clear();
        let mut i: usize = 0;
        proof {
            assert(resp.keys@.take(0) =~= seq![]);
        }
        while i < resp.keys.len()
            invariant
                i <= resp.keys@.len(),
                self.config == old(self).config,
                self.keys@ == keys_by_id(resp.keys@.take(i as int)),
            decreases resp.keys@.len() - i,
        {
            let key = &resp.keys[i];
            proof {
                assert(resp.keys@.take(i + 1).drop_last() =~= resp.keys@.take(i as int));
                assert(resp.keys@.take(i + 1).last() == *key);
            }
            if same_text(key.kty.as_str(), "RSA") {
                if let (Some(kid), Some(n), Some(e)) = (&key.kid, &key.n, &key.e) {
                    if check_rsa_components(n.as_str(), e.as_str()).is_ok() {
                        self.keys.insert(kid.clone(), RsaKey { n: n.clone(), e: e.clone() });
                    }
                }
            }
            i = i + 1;
        }
        proof {
            assert(resp.keys@.take(i as int) =~= resp.keys@);
        }
    }

    /// The claims that everybody has while authentication is bypassed.
    fn dev_claims(&self) -> (r: TokenClaims)
        ensures
            is_dev_claims(self.config, r),
    {
        let sub = match &self.config.dev_user_id {
            Some(user) => user.clone(),
            None => "dev-user".to_owned(),
        };
        TokenClaims { sub: Some(sub), aud: None, iss: None, exp: None }
    }

    /// Decides what the key id in a token's header leads to. The header is handed in as
    /// it was read: nothing where that failed, an inner nothing where it names no key.
    pub fn choose_key(&self, kid: Option<Option<String>>) -> (r: KeyChoice)
        ensures
            match kid {
                None => r is Refuse && r->Refuse_0 is InvalidHeader,
                Some(None) => r is Refuse && r->Refuse_0 is MissingKid,
                Some(Some(kid)) => if self.keys@.contains_key(kid@) {
                    r is Use && r->Use_0 == self.keys@[kid@]
                } else {
                    r is Refresh && r->Refresh_0@ == kid@
                },
            },
    {
        match kid {
            None => KeyChoice::Refuse(AuthError::InvalidHeader),
            Some(None) => KeyChoice::Refuse(AuthError::MissingKid),
            Some(Some(kid)) => match self.keys.get(kid.as_str()) {
                Some(key) => KeyChoice::Use(RsaKey { n: key.n.clone(), e: key.e.clone() }),
                None => KeyChoice::Refresh(kid),
            },
        }
    }

    /// Looks at a token for the first time, with the keys that are held.
    ///
    /// With authentication bypassed, any token is accepted. Otherwise a token whose header
    /// cannot be read or names no key is refused, one whose key is not held asks for a
    /// refresh, and one whose key is held is accepted or refused; it is accepted only if
    /// it is signed with that key and suits the audience and issuer, and then refused only
    /// if its time is over.
    pub fn validate(&self, token: &str) -> (r: Validation)
        ensures
            self.config.disabled ==> r is Claims && is_dev_claims(self.config, r->Claims_0),
            !self.config.disabled ==> match header_kid(token@) {
                None => r is Refuse && r->Refuse_0 is InvalidHeader,
                Some(None) => r is Refuse && r->Refuse_0 is MissingKid,
                Some(Some(kid)) => if self.keys@.contains_key(kid) {
                    match r {
                        Validation::Payload(payload) => self.accepts_payload(
                            token@,
                            self.keys@[kid],
                            payload@,
                        ),
                        Validation::Refuse(e) => self.refuses(token@, self.keys@[kid], e),
                        _ => false,
                    }
                } else {
                    r is Refresh && r->Refresh_0@ == kid
                },
            },
    {
        if self.config.disabled {
            return Validation::Claims(self.dev_claims());
        }
        let kid = match decode_header_kid(token) {
            Ok(kid) => Some(kid),
            Err(_) => None,
        };
        match self.choose_key(kid) {
            KeyChoice::Use(key) => match self.check_token(token, &key) {
                Ok(payload) => Validation::Payload(payload),
                Err(e) => Validation::Refuse(e),
            },
            KeyChoice::Refresh(kid) => Validation::Refresh(kid),
            KeyChoice::Refuse(e) => Validation::Refuse(e),
        }
    }

    /// Looks at a token again after a refresh, with the key of the id that its first look
    /// asked for. A token whose key is still not held is refused.
    pub fn validate_refreshed(&self, token: &str, kid: &str) -> (r: Result<Vec<u8>, AuthError>)
        ensures
            if self.keys@.contains_key(kid@) {
                match r {
                    Ok(payload) => self.accepts_payload(token@, self.keys@[kid@], payload@),
                    Err(e) => self.refuses(token@, self.keys@[kid@], e),
                }
            } else {
                r matches Err(AuthError::UnknownKey(id)) && id@ == kid@
            },
    {
        match self.keys.get(kid) {
            Some(key) => self.check_token(token, key),
            None => Err(AuthError::UnknownKey(kid.to_owned())),
        }
    }

    /// Whether everything but the time speaks for a token, checked against this key.
    pub open spec fn holds_up(&self, token: Seq<char>, key: RsaKey) -> bool {
        token_holds_up(
            token,
            key.n@,
            key.e@,
            "RS256"@,
            optional_text(self.config.audience),
            optional_text(self.config.issuer_url),
        )
    }

    /// Whether a token with this payload, checked against this key, may be accepted.
    pub open spec fn accepts_payload(
        &self,
        token: Seq<char>,
        key: RsaKey,
        payload: Seq<u8>,
    ) -> bool {
        self.holds_up(token, key) && payload_of(token) == Some(payload)
    }

    /// Whether a token, checked against this key, may be refused for this reason: its time is
    /// over, or it does not hold up or has no payload.
    pub open spec fn refuses(&self, token: Seq<char>, key: RsaKey, reason: AuthError) -> bool {
        match reason {
            AuthError::Expired => true,
            AuthError::ValidationFailed => !self.holds_up(token, key) || payload_of(token) is None,
            _ => false,
        }
    }

    /// Checks a token against a key, and returns its payload.
    fn check_token(&self, token: &str, key: &RsaKey) -> (r: Result<Vec<u8>, AuthError>)
        ensures
            match r {
                Ok(payload) => self.accepts_payload(token@, *key, payload@),
                Err(e) => self.refuses(token@, *key, e),
            },
    {
        let check = decode_token(
            token,
            key,
            "RS256",
            &self.config.audience,
            &self.config.issuer_url,
        );
        Self::checked(check, decoded_payload(token))
    }

    /// The outcome of a check: the payload of a token that holds up, and a refusal of one
    /// that does not or has none.
    pub fn checked(check: TokenCheck, payload: Option<Vec<u8>>) -> (r: Result<Vec<u8>, AuthError>)
        ensures
            match (check, payload) {
                (TokenCheck::HoldsUp, Some(payload)) => r == Ok::<Vec<u8>, AuthError>(payload),
                (TokenCheck::Expired, _) => r matches Err(AuthError::Expired),
                _ => r matches Err(AuthError::ValidationFailed),
            },
    {
        match (check, payload) {
            (TokenCheck::HoldsUp, Some(payload)) => Ok(payload),
            (TokenCheck::Expired, _) => Err(AuthError::Expired),
            _ => Err(AuthError::ValidationFailed),
        }
    }

    /// The outcome of reading a payload as claims: the claims, or, where the payload cannot
    /// be read, a refusal.
    pub fn read_claims(claims: Option<TokenClaims>) -> (r: Result<TokenClaims, AuthError>)
        ensures
            match claims {
                Some(claims) => r == Ok::<TokenClaims, AuthError>(claims),
                None => r matches Err(AuthError::ValidationFailed),
            },
    {
        match claims {
            Some(claims) => Ok(claims),
            None => Err(AuthError::ValidationFailed),
        }
    }
}

/// The user that everybody is while authentication is bypassed.
pub open spec fn dev_user(config: AuthConfig) -> Seq<char> {
    match config.dev_user_id {
        Some(user) => user@,
        None => "dev-user"@,
    }
}

/// Whether these are the claims of everybody while authentication is bypassed.
pub open spec fn is_dev_claims(config: AuthConfig, claims: TokenClaims) -> bool {
    &&& claims.sub is Some
    &&& claims.sub->0@ == dev_user(config)
    &&& claims.aud is None
    &&& claims.iss is None
    &&& claims.exp is None
}

/// Whether the key at position `i` of a response is usable and has this id.
pub open spec fn usable_at(keys: Seq<JwkKey>, kid: Seq<char>, i: int) -> bool {
    0 <= i < keys.len() && usable(keys[i]) && keys[i].kid->0@ == kid
}

/// No key id is held that no usable key has.
proof fn held_keys_are_usable(keys: Seq<JwkKey>, kid: Seq<char>)
    requires
        keys_by_id(keys).contains_key(kid),
    ensures
        exists|i: int| usable_at(keys, kid, i),
    decreases keys.len(),
{
    if keys.len() > 0 {
        let last = keys.len() - 1;
        if !usable_at(keys, kid, last) {
            held_keys_are_usable(keys.drop_last(), kid);
            let i = choose|i: int| usable_at(keys.drop_last(), kid, i);
            assert(usable_at(keys, kid, i));
        }
    }
}

/// A usable key is held unless a later one of its id is usable.
proof fn last_usable_key_is_held(keys: Seq<JwkKey>, kid: Seq<char>, i: int)
    requires
        usable_at(keys, kid, i),
        forall|j: int| i < j ==> !usable_at(keys, kid, j),
    ensures
        keys_by_id(keys).contains_key(kid),
        keys_by_id(keys)[kid] == (RsaKey { n: keys[i].n->0, e: keys[i].e->0 }),
    decreases keys.len(),
{
    let last = keys.len() - 1;
    if i < last {
        let front = keys.drop_last();
        assert(usable_at(front, kid, i));
        assert forall|j: int| i < j implies !usable_at(front, kid, j) by {
            assert(!usable_at(keys, kid, j));
        }
        assert(!usable_at(keys, kid, last));
        last_usable_key_is_held(front, kid, i);
    }
}

/// Where there is a usable key of an id, there is a last one.
proof fn some_usable_key_is_the_last(keys: Seq<JwkKey>, kid: Seq<char>, i: int) -> (last: int)
    requires
        usable_at(keys, kid, i),
    ensures
        usable_at(keys, kid, last),
        forall|j: int| last < j ==> !usable_at(keys, kid, j),
    decreases keys.len() - i,
{
    if forall|j: int| i < j ==> !usable_at(keys, kid, j) {
        i
    } else {
        let j = choose|j: int| i < j && usable_at(keys, kid, j);
        some_usable_key_is_the_last(keys, kid, j)
    }
}

/// A key id is held after a refresh exactly if the response has a usable key of that id,
/// and what is held is the last such key.
pub proof fn refreshed_keys_are_the_last_usable(keys: Seq<JwkKey>, kid: Seq<char>)
    ensures
        keys_by_id(keys).contains_key(kid) <==> exists|i: int| usable_at(keys, kid, i),
        forall|i: int|
            #[trigger] usable_at(keys, kid, i) && (forall|j: int|
                i < j ==> !usable_at(keys, kid, j)) ==> keys_by_id(keys)[kid] == (RsaKey {
                n: keys[i].n->0,
                e: keys[i].e->0,
            }),
{
    if keys_by_id(keys).contains_key(kid) {
        held_keys_are_usable(keys, kid);
    }
    if exists|i: int| usable_at(keys, kid, i) {
        let i = choose|i: int| usable_at(keys, kid, i);
        let last = some_usable_key_is_the_last(keys, kid, i);
        last_usable_key_is_held(keys, kid, last);
    }
    assert forall|i: int|
        #[trigger] usable_at(keys, kid, i) && (forall|j: int|
            i < j ==> !usable_at(keys, kid, j)) implies keys_by_id(keys)[kid] == (RsaKey {
        n: keys[i].n->0,
        e: keys[i].e->0,
    }) by {
        last_usable_key_is_held(keys, kid, i);
    }
}

} // verus!
