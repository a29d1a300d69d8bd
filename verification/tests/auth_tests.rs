use purplesector::auth::{
    encoded_payload, AuthConfig, AuthError, JwkKey, JwksResponse, JwtValidator, KeyChoice, RsaKey,
    TokenCheck, TokenClaims, Validation,
};
use purplesector::gateway::{Authentication, StatusCode, TelemetryGatewayService};

const MODULUS: &str = "o0YqS4kOkXZXo_IBN-kfYRuXsENXTzyvnbnH4bNXJ4imdCvble0dtUp6uLx-jCeZwl9mQWfX1y4xCzZXfvdrZrnq5FW3fusy44VqaAqietNJOUsmGvWKMrXr5bn4m5pyxkb26XYZQr6yCZ6Wj-hFkj8vWcpwItvNCeeMHcVkx4Q3IfxbtflwL8oeBj0kis5mKseqSnyRnrnq_MZHCQUYuHBDQTOuJloPNyNdLLjw32fJ5jbdEzCESU8sZBVsoX6rpKEuOodHLkpT6aPqvoFH9lJQK-Igamk334PWdnTTXVPRusZYZ_h_D2wllZobHWXCCuNzfArT8FnRBb6QeCRzJQ";
const EXPONENT: &str = "AQAB";

const HEADER: &str = "eyJhbGciOiJSUzI1NiIsInR5cCI6IkpXVCIsImtpZCI6InJpZy1rZXkifQ";
const PAYLOAD: &str = "eyJzdWIiOiJkcml2ZXItNyIsImF1ZCI6InRlbGVtZXRyeSIsImlzcyI6Imh0dHBzOi8vaWQuZXhhbXBsZS8iLCJleHAiOjQxMDI0NDQ4MDB9";
const SIGNATURE: &str = "axL7banEA94VvsyJq0s6ZPkv-uVVyRAmH_LX8TuR8l1ytDCGOzYs-NC8JqUl1Abc-gYUW5ivci4wqvZgZ3O5fc9eu1rNq2cqs9LNchNaOspeSG0I9WuIqjUXuUWZ5-9p7qnD_6jdtryhfIS59NXH3CNYJhPz4SKyE8Gypq1XrDpj3XeC8X4cgIIRb8wSotssPVp_LuT4z9VC4aP1am0BWOosWaX_va3EetcEfyweZnz8AdhF7cHJCgP7DXRpiXlhYgILuGtDMA2HfDoW0-8nLWj3hnEDEpEvSmTS9Npu4Nes4UXvqPAcK8bLJjM-Dm3C2NzbKuR_5hhMSe5OXKyt9A";
const BILLING_PAYLOAD: &str = "eyJzdWIiOiJkcml2ZXItNyIsImF1ZCI6ImJpbGxpbmciLCJpc3MiOiJodHRwczovL2lkLmV4YW1wbGUvIiwiZXhwIjo0MTAyNDQ0ODAwfQ";
const BILLING_SIGNATURE: &str = "aQFVF1hajhv0Lzr5zLVlJ29i0_j151aTDtNCWFGEUdfzWm31tttLTAzOw17F2Cf6U73djLOJgNmygWBINg22imjGLPGKfLlG1PLzNOYVtT2EXmD3VoGgiyqO_VtjWDtVwMmAy--gN-EaMJDN5W5WXW6-SDanYs2vAE_DS90ncKA0ihyP6sER9QPfmZsc9Te0n87CKI5fhqS2DhF8trSF99lEvLJsWG3-hmVerzu4S6faUksMnu_v3z47xPac-GxtfQIbsgQwZpmV0yMLd-mhj_pEJtr9gW6AoPmLglkcVGwVlBMt0oTSBfucfciAD8UnH0PE4Ge7BgfvxCwMGw743g";
const EXPIRED_PAYLOAD: &str = "eyJzdWIiOiJkcml2ZXItNyIsImF1ZCI6InRlbGVtZXRyeSIsImlzcyI6Imh0dHBzOi8vaWQuZXhhbXBsZS8iLCJleHAiOjEwMDAwMDAwMDB9";
const EXPIRED_SIGNATURE: &str = "jiVLzvGbeWYMnb5pzeyBHLS8P23B1tByOLq0WogZaXYhM-K4JzF5cG4EIR7u3PwRhcvzay5MnXW2vat2O4v1AVsABV-sDy618udAjxf6AOh60Bj7czHnNz05_yACUriG2Y5Sg1lVV_1U0MSpCPmFyI9UQFEampb1agqqOmH2rGCOxpQAS1b5npfil6VnG9XoK99WZxyUUIDucsYkR8W3vBa8rFwVUBMHzjdd1sVDIrCFAs6RtU-ug6tdMNGL_KJGtnIwz-G58Ra7cODDtSYlzenzOMjzQ6cDw2huWqz3CFm-aULL9oIUug2aStzYaPQTcV5npp18B-IZQxM4Njmamw";
const NAMELESS_HEADER: &str = "eyJhbGciOiJSUzI1NiIsInR5cCI6IkpXVCJ9";
const NAMELESS_SIGNATURE: &str = "makTyyRA1fzuZ2cjVxI8MAs7y04nVYvNhf289sRuVpzY1fH9AzninYQm8sSm6KXrCdvBvjvbuYqinvzE5oDL4ctIAxZNKhDBk3PVVxaWU6lYHqqMgp8Rx-dA2Gsky05W-ilgPS0ZuBTsgAQ5Jjw_kveUjikZBFE2lfeVjaiJ6l8kDK6IOXCeq5US3YIMWQWlaXewY6Vv3YQT2h23099_gtCMr3YDIU4ZNcnDnRgBT84z-3Y7zbw5_06Nx3S5RrQk_FGQVQEi259qqfy_dKdi5JLOmxDe5wRAA925mJIG_lAENBI1T-fDF76tVhC_TeStq6bNdYJwBBnZpKMoBF7WJA";

const OTHER_MODULUS: &str = "sopFIwAuIVhLrwAMtUezhPaVTilccIsFwuyDFVuPeygK-EhKNtxgshjIxiA2Rk_X2nhKTyDgJgPBiOCSuDy9gbH5JgM0hxe329Om13ahErwMJvUwpwCQ-Xl9F33XnCHyuwrHNdHbEd2TnaT8RK2IPCiEChBAIUrzItGaUzey8g0M_7Wz4xr3FJno6ZFKoX06yzDpOZ9ZU6hqMPEsJgrUs1qL6hEFRqwvr1pahN_BGjTX5Pf5rAHUPrw0CH0BdOgrGp8RxjdU-WAAQm2wXNe0CLtte1WJXOHWMVq4h68hk1U9-N54vx21dcF8ygG7unPziP2ILn-P1bfMnTz4aQrBgQ";
const ODD_PAYLOAD: &str = "eyJzdWIiOiJkcml2ZXItNyIsImF1ZCI6InRlbGVtZXRyeSIsImlzcyI6Imh0dHBzOi8vaWQuZXhhbXBsZS8iLCJleHAiOjQxMDI0NDQ4MDAsIm5vdGUiOiL__iJ9";
const ODD_SIGNATURE: &str = "iCfTd5mfHoWsdvsvzQwIsNbYMvmZ9jIZriwvbm7h-ag5ITRVSU4BvXMjE2nxPgGsFn8qrv8mDDkrLBb4qmb8dmooz7jT0W5NyKnNz7gr34Oi9GWkWg1ebXuS9BO_PD7yQIhwPsC13KKqEOEIAgItvdElKVg0eTMIihP1XwpKECqWUtQLtq05NpB5dP5I7BBb8vn2guiWhrbGJfjXPTdKzHLxg13yXnD_syJPJ_tLJqfTHs3TCdnctA9v264xp7aemD90e7vB0d-rT_I-33r2wKGmo0wmjobVauD22_wpI3VFaxv8C2WOB5PDNvP913JdmEn40V0bYT7aCLx3Xd8vfQ";

fn token(header: &str, payload: &str, signature: &str) -> String {
    format!("{header}.{payload}.{signature}")
}

fn good_token() -> String {
    token(HEADER, PAYLOAD, SIGNATURE)
}

fn config() -> AuthConfig {
    AuthConfig {
        disabled: false,
        dev_user_id: None,
        issuer_url: Some("https://id.example/".to_string()),
        audience: Some("telemetry".to_string()),
        jwks_url: None,
    }
}

fn jwk(kid: Option<&str>, kty: &str, n: Option<&str>, e: Option<&str>) -> JwkKey {
    JwkKey {
        kid: kid.map(|s| s.to_string()),
        kty: kty.to_string(),
        n: n.map(|s| s.to_string()),
        e: e.map(|s| s.to_string()),
        alg: Some("RS256".to_string()),
    }
}

fn response() -> JwksResponse {
    JwksResponse { keys: vec![jwk(Some("rig-key"), "RSA", Some(MODULUS), Some(EXPONENT))] }
}

fn validator(config: AuthConfig) -> JwtValidator {
    let mut v = JwtValidator::new(config);
    v.refresh_keys(&response());
    v
}

#[test]
fn settings_from_the_environment() {
    let some = |s: &str| Some(s.to_string());
    for (value, disabled) in
        [(some("true"), true), (some("1"), true), (some("TRUE"), false), (some("0"), false), (None, false)]
    {
        assert_eq!(AuthConfig::from_env(value, None, None, None, None).disabled, disabled);
    }
    assert_eq!(
        AuthConfig::from_env(None, some("dev"), some("iss"), some("aud"), some("jwks")),
        AuthConfig {
            disabled: false,
            dev_user_id: some("dev"),
            issuer_url: some("iss"),
            audience: some("aud"),
            jwks_url: some("jwks"),
        }
    );
}

#[test]
fn jwks_endpoints() {
    let mut c = config();
    let standard = Some("https://id.example/.well-known/jwks.json".to_string());
    assert_eq!(c.resolved_jwks_url(), standard);
    c.issuer_url = Some("https://id.example".to_string());
    assert_eq!(c.resolved_jwks_url(), standard);
    c.issuer_url = Some("https://id.example///".to_string());
    assert_eq!(c.resolved_jwks_url(), standard);
    c.jwks_url = Some("https://keys.example/set".to_string());
    assert_eq!(c.resolved_jwks_url(), Some("https://keys.example/set".to_string()));
    c.jwks_url = None;
    c.issuer_url = None;
    assert_eq!(c.resolved_jwks_url(), None);
    assert_eq!(JwtValidator::new(c).jwks_request(), Err(AuthError::NoJwksUrl));
    assert_eq!(JwtValidator::new(config()).jwks_request().ok(), standard);
}

#[test]
fn refreshing_holds_the_last_usable_keys() {
    let mut v = validator(config());
    v.refresh_keys(&JwksResponse {
        keys: vec![
            jwk(Some("a"), "RSA", Some("AQAB"), Some("AQAB")),
            jwk(Some("b"), "EC", Some("AQAB"), Some("AQAB")),
            jwk(None, "RSA", Some("AQAB"), Some("AQAB")),
            jwk(Some("c"), "RSA", None, Some("AQAB")),
            jwk(Some("d"), "RSA", Some("AQAB"), None),
            jwk(Some("e"), "RSA", Some("not base64!"), Some("AQAB")),
            jwk(Some("a"), "RSA", Some("AwAD"), Some("AQAB")),
            jwk(Some("a"), "RSA", Some("AQAB"), Some("***")),
        ],
    });
    assert_eq!(v.keys.len(), 1);
    assert_eq!(
        v.keys.get("a"),
        Some(&RsaKey { n: "AwAD".to_string(), e: "AQAB".to_string() })
    );
    assert_eq!(v.keys.get("rig-key"), None);
}

#[test]
fn bypassed_authentication_accepts_everything() {
    let mut c = config();
    c.disabled = true;
    for (dev, user) in [(None, "dev-user"), (Some("rig-9".to_string()), "rig-9")] {
        c.dev_user_id = dev;
        let v = JwtValidator::new(c.clone());
        for t in ["", "junk", good_token().as_str()] {
            match v.validate(t) {
                Validation::Claims(claims) => assert_eq!(
                    claims,
                    TokenClaims { sub: Some(user.to_string()), aud: None, iss: None, exp: None }
                ),
                _ => panic!("not accepted"),
            }
        }
    }
}

#[test]
fn signed_tokens_give_their_payload() {
    match validator(config()).validate(&good_token()) {
        Validation::Payload(payload) => assert_eq!(
            String::from_utf8(payload).unwrap(),
            "{\"sub\":\"driver-7\",\"aud\":\"telemetry\",\"iss\":\"https://id.example/\",\"exp\":4102444800}"
        ),
        _ => panic!("not accepted"),
    }
}

#[test]
fn claims_that_are_not_looked_at_may_hold_any_bytes() {
    let mut v = JwtValidator::new(config());
    v.refresh_keys(&JwksResponse {
        keys: vec![jwk(Some("rig-key"), "RSA", Some(OTHER_MODULUS), Some(EXPONENT))],
    });
    match v.validate(&token(HEADER, ODD_PAYLOAD, ODD_SIGNATURE)) {
        Validation::Payload(payload) => {
            assert!(payload.starts_with(b"{\"sub\":\"driver-7\""));
            assert!(payload.ends_with(b",\"note\":\"\xff\xfe\"}"));
        }
        _ => panic!("not accepted"),
    }
}

#[test]
fn payloads_stand_between_the_last_two_dots() {
    assert_eq!(encoded_payload("a.b.c"), Some("b"));
    assert_eq!(encoded_payload("x.a.b.c"), Some("b"));
    assert_eq!(encoded_payload(".."), Some(""));
    assert_eq!(encoded_payload("a.b"), None);
    assert_eq!(encoded_payload(""), None);
}

fn refusal(v: &JwtValidator, t: &str) -> AuthError {
    match v.validate(t) {
        Validation::Refuse(e) => e,
        _ => panic!("not refused"),
    }
}

#[test]
fn tokens_that_do_not_hold_up_are_refused() {
    let v = validator(config());
    assert_eq!(refusal(&v, ""), AuthError::InvalidHeader);
    assert_eq!(refusal(&v, "a.b.c"), AuthError::InvalidHeader);
    assert_eq!(
        refusal(&v, &token(NAMELESS_HEADER, PAYLOAD, NAMELESS_SIGNATURE)),
        AuthError::MissingKid
    );
    // A signature of something else.
    assert_eq!(
        refusal(&v, &token(HEADER, PAYLOAD, BILLING_SIGNATURE)),
        AuthError::ValidationFailed
    );
    // Another audience.
    assert_eq!(
        refusal(&v, &token(HEADER, BILLING_PAYLOAD, BILLING_SIGNATURE)),
        AuthError::ValidationFailed
    );
    // Past its time.
    assert_eq!(
        refusal(&v, &token(HEADER, EXPIRED_PAYLOAD, EXPIRED_SIGNATURE)),
        AuthError::Expired
    );
    // Past its time, with a signature of something else.
    assert_eq!(
        refusal(&v, &token(HEADER, EXPIRED_PAYLOAD, SIGNATURE)),
        AuthError::ValidationFailed
    );
}

#[test]
fn audience_and_issuer_come_from_the_settings() {
    let mut c = config();
    c.audience = Some("billing".to_string());
    assert!(matches!(
        validator(c.clone()).validate(&token(HEADER, BILLING_PAYLOAD, BILLING_SIGNATURE)),
        Validation::Payload(_)
    ));
    assert_eq!(refusal(&validator(c.clone()), &good_token()), AuthError::ValidationFailed);
    c.audience = None;
    assert_eq!(refusal(&validator(c), &good_token()), AuthError::ValidationFailed);
    let mut c = config();
    c.issuer_url = Some("https://other.example/".to_string());
    assert_eq!(refusal(&validator(c.clone()), &good_token()), AuthError::ValidationFailed);
    c.issuer_url = None;
    assert!(matches!(validator(c).validate(&good_token()), Validation::Payload(_)));
}

#[test]
fn unknown_keys_are_fetched_once() {
    let mut v = JwtValidator::new(config());
    match v.validate(&good_token()) {
        Validation::Refresh(kid) => assert_eq!(kid, "rig-key"),
        _ => panic!("no refresh"),
    }
    assert_eq!(
        v.validate_refreshed(&good_token(), "rig-key"),
        Err(AuthError::UnknownKey("rig-key".to_string()))
    );
    v.refresh_keys(&response());
    assert!(v.validate_refreshed(&good_token(), "rig-key").is_ok());
    assert_eq!(
        v.validate_refreshed(&token(HEADER, PAYLOAD, BILLING_SIGNATURE), "rig-key"),
        Err(AuthError::ValidationFailed)
    );
}

#[test]
fn key_choices() {
    let v = validator(config());
    assert!(matches!(v.choose_key(None), KeyChoice::Refuse(AuthError::InvalidHeader)));
    assert!(matches!(v.choose_key(Some(None)), KeyChoice::Refuse(AuthError::MissingKid)));
    match v.choose_key(Some(Some("rig-key".to_string()))) {
        KeyChoice::Use(key) => assert_eq!((key.n.as_str(), key.e.as_str()), (MODULUS, EXPONENT)),
        _ => panic!("not held"),
    }
    match v.choose_key(Some(Some("other".to_string()))) {
        KeyChoice::Refresh(kid) => assert_eq!(kid, "other"),
        _ => panic!("held"),
    }
    let payload = Some(vec![1]);
    for (check, payload, outcome) in [
        (TokenCheck::HoldsUp, payload.clone(), Ok(vec![1])),
        (TokenCheck::HoldsUp, None, Err(AuthError::ValidationFailed)),
        (TokenCheck::Expired, payload.clone(), Err(AuthError::Expired)),
        (TokenCheck::Expired, None, Err(AuthError::Expired)),
        (TokenCheck::Fails, payload, Err(AuthError::ValidationFailed)),
        (TokenCheck::Fails, None, Err(AuthError::ValidationFailed)),
    ] {
        assert_eq!(JwtValidator::checked(check, payload), outcome);
    }
    assert_eq!(JwtValidator::read_claims(None), Err(AuthError::ValidationFailed));
}

#[test]
fn auth_errors_in_words() {
    let texts = [
        (AuthError::InvalidHeader, "Invalid JWT header"),
        (AuthError::MissingKid, "JWT missing kid header"),
        (AuthError::NoJwksUrl, "No JWKS URL configured"),
        (AuthError::FetchFailed, "Failed to fetch JWKS"),
        (AuthError::MalformedJwks, "Failed to parse JWKS response"),
        (AuthError::UnknownKey("k1".to_string()), "Unknown key kid=k1 after JWKS refresh"),
        (AuthError::ValidationFailed, "JWT validation failed"),
        (AuthError::Expired, "JWT validation failed"),
    ];
    for (e, text) in texts {
        assert_eq!(e.message(), text);
    }
}

fn service(config: AuthConfig) -> TelemetryGatewayService {
    let mut s = TelemetryGatewayService::new("telemetry", config);
    s.validator.refresh_keys(&response());
    s
}

fn refused(s: &TelemetryGatewayService, header: Option<&str>) -> String {
    match s.authenticate(header) {
        Authentication::Refused(status) => {
            assert_eq!(status.code, StatusCode::Unauthenticated);
            status.message
        }
        _ => panic!("not refused"),
    }
}

#[test]
fn streams_are_authenticated_by_their_header() {
    let s = service(config());
    assert!(s.prefetches_keys());
    let missing = "Missing authorization header";
    assert_eq!(refused(&s, None), missing);
    assert_eq!(refused(&s, Some("")), missing);
    assert_eq!(refused(&s, Some("Bearer ")), missing);
    assert_eq!(refused(&s, Some("Basic abc")), missing);
    assert_eq!(refused(&s, Some("Bearer a.b.c")), "Invalid token: Invalid JWT header");
    let nameless = format!("Bearer {}", token(NAMELESS_HEADER, PAYLOAD, NAMELESS_SIGNATURE));
    assert_eq!(refused(&s, Some(&nameless)), "Invalid token: JWT missing kid header");
    let expired = format!("Bearer {}", token(HEADER, EXPIRED_PAYLOAD, EXPIRED_SIGNATURE));
    match s.authenticate(Some(&expired)) {
        Authentication::Expired(status) => {
            assert_eq!(status.code, StatusCode::Unauthenticated);
            assert_eq!(status.message, "Invalid token: JWT validation failed");
        }
        _ => panic!("not expired"),
    }
    let forged = format!("Bearer {}", token(HEADER, PAYLOAD, BILLING_SIGNATURE));
    assert_eq!(refused(&s, Some(&forged)), "Invalid token: JWT validation failed");
    let good = format!("Bearer {}", good_token());
    assert!(matches!(s.authenticate(Some(&good)), Authentication::Payload(_)));
    let empty = TelemetryGatewayService::new("telemetry", config());
    match empty.authenticate(Some(&good)) {
        Authentication::Refresh { token, kid } => {
            assert_eq!((token, kid), (good_token(), "rig-key".to_string()))
        }
        _ => panic!("no refresh"),
    }
}

#[test]
fn bypassed_streams_belong_to_the_development_user() {
    let mut c = config();
    c.disabled = true;
    let s = service(c);
    assert!(!s.prefetches_keys());
    for header in [None, Some("Bearer x"), Some("nonsense")] {
        match s.authenticate(header) {
            Authentication::User(user) => assert_eq!(user, "dev-user"),
            _ => panic!("not accepted"),
        }
    }
}

#[test]
fn users_come_from_the_subject() {
    let claims = |sub: Option<&str>| TokenClaims {
        sub: sub.map(|s| s.to_string()),
        aud: Some(serde_json::Value::String("telemetry".to_string())),
        iss: None,
        exp: Some(1),
    };
    assert_eq!(
        TelemetryGatewayService::validate_token(Ok(claims(Some("driver-7")))),
        Ok("driver-7".to_string())
    );
    assert_eq!(
        TelemetryGatewayService::validate_token(Ok(claims(None))),
        Ok("anonymous".to_string())
    );
    let status =
        TelemetryGatewayService::validate_token(Err(AuthError::FetchFailed)).unwrap_err();
    assert_eq!(status.code, StatusCode::Unauthenticated);
    assert_eq!(status.message, "Invalid token: Failed to fetch JWKS");
    assert_eq!(JwtValidator::read_claims(Some(claims(None))), Ok(claims(None)));
}
