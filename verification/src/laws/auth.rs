//! Laws of token authentication.

use vstd::prelude::*;
use vstd::string::*;

use crate::auth::{
    base64url_decoded, encoded_payload, header_kid, refreshed_keys_are_the_last_usable,
    token_holds_up, usable_at, AuthConfig, AuthError, JwkKey, JwksResponse, JwtValidator,
    KeyChoice, RsaKey, TokenCheck, TokenClaims, Validation,
};
use crate::text::{split_at_last, split_is_at_the_last, trimmed_end};

verus! {

/// Authentication is bypassed exactly if the setting reads `true` or `1`, and the other
/// settings are taken over.
pub proof fn settings_are_taken_over(
    auth_disabled: Option<String>,
    dev_user_id: Option<String>,
    issuer_url: Option<String>,
    audience: Option<String>,
    jwks_url: Option<String>,
    r: AuthConfig,
)
    requires
        call_ensures(
            AuthConfig::from_env,
            (auth_disabled, dev_user_id, issuer_url, audience, jwks_url),
            r,
        ),
    ensures
        r.disabled <==> auth_disabled is Some && (auth_disabled->0@ == seq!['t', 'r', 'u', 'e']
            || auth_disabled->0@ == seq!['1']),
        r.dev_user_id == dev_user_id,
        r.issuer_url == issuer_url,
        r.audience == audience,
        r.jwks_url == jwks_url,
{
    reveal_strlit("true");
    reveal_strlit("1");
    assert("true"@ =~= seq!['t', 'r', 'u', 'e']);
    assert("1"@ =~= seq!['1']);
}

/// Whether a text is the standard JWKS endpoint of an issuer: the issuer without the slashes
/// at its end, and the well-known path.
pub open spec fn is_standard_endpoint(url: Seq<char>, issuer: Seq<char>) -> bool {
    exists|n: int|
        #![trigger issuer.take(n)]
        {
            &&& 0 <= n <= issuer.len()
            &&& forall|i: int| n <= i < issuer.len() ==> issuer[i] == '/'
            &&& n > 0 ==> issuer[n - 1] != '/'
            &&& url == issuer.take(n) + "/.well-known/jwks.json"@
        }
}

/// The standard endpoint of the model.
proof fn endpoints_are_standard(issuer: Seq<char>)
    ensures
        is_standard_endpoint(crate::auth::standard_jwks_url(issuer), issuer),
{
    super::basics::only_the_end_is_trimmed(issuer, '/');
    let n = trimmed_end(issuer, '/').len() as int;
    assert(issuer.take(n) == trimmed_end(issuer, '/'));
    if n > 0 {
        assert(issuer.take(n).last() == issuer[n - 1]);
    }
}

/// Keys are fetched from the configured endpoint, else from the standard one of the issuer,
/// and from nowhere without either.
pub proof fn keys_are_fetched_from_the_endpoint(
    validator: &JwtValidator,
    resolved: Option<String>,
    r: Result<String, AuthError>,
)
    requires
        call_ensures(AuthConfig::resolved_jwks_url, (&validator.config,), resolved),
        call_ensures(JwtValidator::jwks_request, (validator,), r),
    ensures
        match (validator.config.jwks_url, validator.config.issuer_url) {
            (Some(url), _) => {
                &&& resolved matches Some(text) && text@ == url@
                &&& r matches Ok(text) && text@ == url@
            },
            (None, Some(issuer)) => {
                &&& resolved matches Some(text) && is_standard_endpoint(text@, issuer@)
                &&& r matches Ok(text) && is_standard_endpoint(text@, issuer@)
            },
            (None, None) => resolved is None && (r matches Err(AuthError::NoJwksUrl)),
        },
{
    if let Some(issuer) = validator.config.issuer_url {
        endpoints_are_standard(issuer@);
    }
}

/// Each refusal in words.
pub proof fn refusals_are_described(e: &AuthError, r: String)
    requires
        call_ensures(AuthError::message, (e,), r),
    ensures
        match *e {
            AuthError::InvalidHeader => r@ == "Invalid JWT header"@,
            AuthError::MissingKid => r@ == "JWT missing kid header"@,
            AuthError::NoJwksUrl => r@ == "No JWKS URL configured"@,
            AuthError::FetchFailed => r@ == "Failed to fetch JWKS"@,
            AuthError::MalformedJwks => r@ == "Failed to parse JWKS response"@,
            AuthError::UnknownKey(kid) => r@ == "Unknown key kid="@ + kid@ + " after JWKS refresh"@,
            AuthError::ValidationFailed => r@ == "JWT validation failed"@,
            AuthError::Expired => r@ == "JWT validation failed"@,
        },
{
}

/// A new validator has its settings and holds no key.
pub proof fn validators_begin_without_keys(config: AuthConfig, r: JwtValidator)
    requires
        call_ensures(JwtValidator::new, (config,), r),
    ensures
        r.config == config,
        forall|kid: Seq<char>| !(#[trigger] r.keys@.contains_key(kid)),
{
}

/// Whether the key at a position of a response is an RSA key of this id, with a modulus and
/// an exponent in base64.
pub open spec fn is_rsa_key_at(keys: Seq<JwkKey>, kid: Seq<char>, i: int) -> bool {
    &&& 0 <= i < keys.len()
    &&& keys[i].kty@ == seq!['R', 'S', 'A']
    &&& keys[i].kid is Some && keys[i].kid->0@ == kid
    &&& keys[i].n is Some && base64url_decoded(keys[i].n->0@) is Some
    &&& keys[i].e is Some && base64url_decoded(keys[i].e->0@) is Some
}

/// After a refresh a validator holds, of each id, the last RSA key of that id in the response,
/// and no other key; its settings stay.
pub proof fn refreshes_replace_the_keys(
    validator: &mut JwtValidator,
    resp: &JwksResponse,
    kid: Seq<char>,
    i: int,
)
    requires
        call_ensures(JwtValidator::refresh_keys, (validator, resp), ()),
    ensures
        final(validator).config == old(validator).config,
        final(validator).keys@.contains_key(kid) <==> exists|j: int|
            is_rsa_key_at(resp.keys@, kid, j),
        is_rsa_key_at(resp.keys@, kid, i) && (forall|j: int|
            i < j ==> !is_rsa_key_at(resp.keys@, kid, j)) ==> {
            &&& final(validator).keys@[kid].n@ == resp.keys@[i].n->0@
            &&& final(validator).keys@[kid].e@ == resp.keys@[i].e->0@
        },
{
    reveal_strlit("RSA");
    assert("RSA"@ =~= seq!['R', 'S', 'A']);
    let keys = resp.keys@;
    refreshed_keys_are_the_last_usable(keys, kid);
    assert forall|j: int| is_rsa_key_at(keys, kid, j) <==> #[trigger] usable_at(keys, kid, j) by {}
    if exists|j: int| usable_at(keys, kid, j) {
        let j = choose|j: int| usable_at(keys, kid, j);
        assert(is_rsa_key_at(keys, kid, j));
    }
    if exists|j: int| is_rsa_key_at(keys, kid, j) {
        let j = choose|j: int| is_rsa_key_at(keys, kid, j);
        assert(usable_at(keys, kid, j));
    }
    if is_rsa_key_at(keys, kid, i) && (forall|j: int| i < j ==> !is_rsa_key_at(keys, kid, j)) {
        assert(usable_at(keys, kid, i));
        assert forall|j: int| i < j implies !usable_at(keys, kid, j) by {
            assert(!is_rsa_key_at(keys, kid, j));
        }
    }
}

/// A header that cannot be read or names no key refuses the token; a key that is held is used,
/// and one that is not is fetched.
pub proof fn keys_are_chosen_by_id(
    validator: &JwtValidator,
    kid: Option<Option<String>>,
    r: KeyChoice,
)
    requires
        call_ensures(JwtValidator::choose_key, (validator, kid), r),
    ensures
        kid is None ==> r matches KeyChoice::Refuse(AuthError::InvalidHeader),
        kid is Some && kid->0 is None ==> r matches KeyChoice::Refuse(AuthError::MissingKid),
        kid is Some && kid->0 is Some && validator.keys@.contains_key(kid->0->0@) ==> (
        r matches KeyChoice::Use(key) && key.n@ == validator.keys@[kid->0->0@].n@ && key.e@
            == validator.keys@[kid->0->0@].e@),
        kid is Some && kid->0 is Some && !validator.keys@.contains_key(kid->0->0@) ==> (
        r matches KeyChoice::Refresh(id) && id@ == kid->0->0@),
{
}

/// What the settings ask of a token that is checked against a key: RS256, and the audience and
/// issuer of the settings.
pub open spec fn suits(config: AuthConfig, token: Seq<char>, key: RsaKey) -> bool {
    token_holds_up(
        token,
        key.n@,
        key.e@,
        seq!['R', 'S', '2', '5', '6'],
        match config.audience {
            Some(audience) => Some(audience@),
            None => None,
        },
        match config.issuer_url {
            Some(issuer) => Some(issuer@),
            None => None,
        },
    )
}

/// Whether bytes are the payload of a token: what is between its last two dots, decoded.
pub open spec fn is_payload(token: Seq<char>, payload: Seq<u8>) -> bool {
    exists|head: Seq<char>, body: Seq<char>, signature: Seq<char>|
        #![trigger head + seq!['.'] + body + seq!['.'] + signature]
        {
            &&& token == head + seq!['.'] + body + seq!['.'] + signature
            &&& !body.contains('.') && !signature.contains('.')
            &&& base64url_decoded(body) == Some(payload)
        }
}

/// The payload of the model stands between the last two dots.
proof fn payloads_are_between_dots(token: Seq<char>, payload: Seq<u8>)
    requires
        crate::auth::payload_of(token) == Some(payload),
    ensures
        is_payload(token, payload),
{
    split_is_at_the_last(token, '.');
    if let Some((message, signature)) = split_at_last(token, '.') {
        split_is_at_the_last(message, '.');
        if let Some((head, body)) = split_at_last(message, '.') {
            assert(token =~= head + seq!['.'] + body + seq!['.'] + signature);
        }
    }
}

/// A text is split in one way only.
proof fn splits_are_unique(before: Seq<char>, c: char, after: Seq<char>)
    requires
        !after.contains(c),
    ensures
        split_at_last(before + seq![c] + after, c) == Some((before, after)),
    decreases after.len(),
{
    let whole = before + seq![c] + after;
    if after.len() == 0 {
        assert(whole.drop_last() =~= before);
        assert(after =~= seq![]);
    } else {
        let shorter = after.drop_last();
        assert(whole.drop_last() =~= before + seq![c] + shorter);
        assert(after.contains(after.last()));
        assert forall|i: int| 0 <= i < shorter.len() implies shorter[i] != c by {
            assert(after.contains(after[i]));
        }
        splits_are_unique(before, c, shorter);
        assert(shorter.push(after.last()) =~= after);
    }
}

/// A token has one payload at most: that of the model.
proof fn payloads_are_unique(token: Seq<char>, payload: Seq<u8>)
    requires
        is_payload(token, payload),
    ensures
        crate::auth::payload_of(token) == Some(payload),
{
    let (head, body, signature) = choose|head: Seq<char>, body: Seq<char>, signature: Seq<char>|
        #![trigger head + seq!['.'] + body + seq!['.'] + signature]
        {
            &&& token == head + seq!['.'] + body + seq!['.'] + signature
            &&& !body.contains('.') && !signature.contains('.')
            &&& base64url_decoded(body) == Some(payload)
        };
    splits_are_unique(head + seq!['.'] + body, '.', signature);
    splits_are_unique(head, '.', body);
}

/// Whether a token has no payload.
pub open spec fn has_no_payload(token: Seq<char>) -> bool {
    forall|payload: Seq<u8>| !is_payload(token, payload)
}

/// Where the model finds no payload there is none.
pub(crate) proof fn missing_payloads_are_missing(token: Seq<char>)
    ensures
        crate::auth::payload_of(token) is None ==> has_no_payload(token),
        crate::auth::payload_of(token) matches Some(payload) ==> is_payload(token, payload),
{
    if crate::auth::payload_of(token) is None {
        assert forall|payload: Seq<u8>| !is_payload(token, payload) by {
            if is_payload(token, payload) {
                payloads_are_unique(token, payload);
            }
        }
    } else {
        payloads_are_between_dots(token, crate::auth::payload_of(token)->0);
    }
}

/// The letters of the algorithm.
pub(crate) proof fn the_algorithm_is_spelt()
    ensures
        "RS256"@ == seq!['R', 'S', '2', '5', '6'],
{
    reveal_strlit("RS256");
    assert("RS256"@ =~= seq!['R', 'S', '2', '5', '6']);
}

/// The encoded payload of a token is what is between its last two dots.
pub proof fn payloads_stand_between_the_last_dots(token: &str, r: Option<&str>)
    requires
        call_ensures(encoded_payload, (token,), r),
    ensures
        r matches Some(body) ==> {
            &&& !body@.contains('.')
            &&& exists|head: Seq<char>, signature: Seq<char>|
                #![trigger head + seq!['.'] + body@ + seq!['.'] + signature]
                !signature.contains('.') && token@ == head + seq!['.'] + body@ + seq!['.']
                    + signature
        },
        r is None ==> forall|head: Seq<char>, body: Seq<char>, signature: Seq<char>|
            token@ != #[trigger] (head + seq!['.'] + body + seq!['.'] + signature),
{
    split_is_at_the_last(token@, '.');
    match split_at_last(token@, '.') {
        Some((message, signature)) => {
            split_is_at_the_last(message, '.');
            match split_at_last(message, '.') {
                Some((head, body)) => {
                    assert(token@ =~= head + seq!['.'] + body + seq!['.'] + signature);
                },
                None => {
                    assert forall|head: Seq<char>, body: Seq<char>, other: Seq<char>|
                        token@ != #[trigger] (head + seq!['.'] + body + seq!['.'] + other) by {
                        let whole = head + seq!['.'] + body + seq!['.'] + other;
                        if token@ == whole {
                            let first = head.len() as int;
                            let second = (head.len() + 1 + body.len()) as int;
                            assert(whole[first] == '.' && whole[second] == '.');
                            let last = message.len() as int;
                            if second > last {
                                assert(signature[second - last - 1] == '.');
                            }
                            assert(first < last);
                            assert(message[first] == '.');
                        }
                    }
                },
            }
        },
        None => {
            assert forall|head: Seq<char>, body: Seq<char>, other: Seq<char>|
                token@ != #[trigger] (head + seq!['.'] + body + seq!['.'] + other) by {
                let whole = head + seq!['.'] + body + seq!['.'] + other;
                if token@ == whole {
                    assert(whole[head.len() as int] == '.');
                }
            }
        },
    }
}

/// What becomes of a token at first. With authentication bypassed everybody is the development
/// user. Otherwise a token is refused whose header cannot be read or names no key, and a key
/// that is not held is fetched. With a key that is held, the token is accepted only if it
/// suits the settings, with the payload that stands in it, and refused for another reason than
/// its time only if it does not suit them or has no payload.
pub proof fn tokens_are_validated(validator: &JwtValidator, token: &str, r: Validation)
    requires
        call_ensures(JwtValidator::validate, (validator, token), r),
    ensures
        ({
            let config = validator.config;
            let kid = header_kid(token@);
            let known = kid is Some && kid->0 is Some && validator.keys@.contains_key(kid->0->0);
            let key = validator.keys@[kid->0->0];
            &&& config.disabled ==> (r matches Validation::Claims(claims) && claims.sub is Some
                && claims.sub->0@ == (if config.dev_user_id is Some {
                config.dev_user_id->0@
            } else {
                "dev-user"@
            }) && claims.aud is None && claims.iss is None && claims.exp is None)
            &&& !config.disabled ==> {
                &&& kid is None ==> r is Refuse && r->Refuse_0 is InvalidHeader
                &&& kid is Some && kid->0 is None ==> r is Refuse && r->Refuse_0 is MissingKid
                &&& kid is Some && kid->0 is Some && !known ==> (r matches Validation::Refresh(id)
                    && id@ == kid->0->0)
                &&& known ==> (r is Payload || r is Refuse)
                &&& known && r is Payload ==> suits(config, token@, key) && is_payload(
                    token@,
                    r->Payload_0@,
                )
                &&& known && r is Refuse ==> {
                    ||| r->Refuse_0 is Expired
                    ||| r->Refuse_0 is ValidationFailed && (!suits(config, token@, key)
                        || has_no_payload(token@))
                }
            }
        }),
{
    the_algorithm_is_spelt();
    missing_payloads_are_missing(token@);
}

/// What becomes of a token after a refresh: it is refused if its key is still not held, and
/// treated as at first otherwise.
pub proof fn tokens_are_validated_again(
    validator: &JwtValidator,
    token: &str,
    kid: &str,
    r: Result<Vec<u8>, AuthError>,
)
    requires
        call_ensures(JwtValidator::validate_refreshed, (validator, token, kid), r),
    ensures
        ({
            let key = validator.keys@[kid@];
            if validator.keys@.contains_key(kid@) {
                match r {
                    Ok(payload) => suits(validator.config, token@, key) && is_payload(
                        token@,
                        payload@,
                    ),
                    Err(e) => {
                        ||| e is Expired
                        ||| e is ValidationFailed && (!suits(validator.config, token@, key)
                            || has_no_payload(token@))
                    },
                }
            } else {
                r matches Err(AuthError::UnknownKey(id)) && id@ == kid@
            }
        }),
{
    the_algorithm_is_spelt();
    missing_payloads_are_missing(token@);
}

/// A check gives the payload of a token that holds up, tells an expired one, and refuses
/// everything else; claims that can be read are handed on, and others refused.
pub proof fn checks_come_to_a_payload_or_a_refusal(
    check: TokenCheck,
    payload: Option<Vec<u8>>,
    r: Result<Vec<u8>, AuthError>,
    claims: Option<TokenClaims>,
    read: Result<TokenClaims, AuthError>,
)
    requires
        call_ensures(JwtValidator::checked, (check, payload), r),
        call_ensures(JwtValidator::read_claims, (claims,), read),
    ensures
        r is Ok <==> check is HoldsUp && payload is Some,
        r matches Ok(bytes) ==> bytes@ == payload->0@,
        r matches Err(e) ==> if check is Expired {
            e is Expired
        } else {
            e is ValidationFailed
        },
        read is Ok <==> claims is Some,
        read matches Ok(given) ==> given == claims->0,
        read matches Err(e) ==> e is ValidationFailed,
{
}

/// Every setting, response and token is taken.
pub proof fn validators_take_everything(
    setting: Option<String>,
    config: &AuthConfig,
    owned: AuthConfig,
    e: &AuthError,
    validator: &JwtValidator,
    refreshed: &mut JwtValidator,
    resp: &JwksResponse,
    kid: Option<Option<String>>,
    text: &str,
    check: TokenCheck,
    payload: Option<Vec<u8>>,
    claims: Option<TokenClaims>,
)
    ensures
        call_requires(AuthConfig::from_env, (setting, setting, setting, setting, setting)),
        call_requires(AuthConfig::resolved_jwks_url, (config,)),
        call_requires(AuthError::message, (e,)),
        call_requires(encoded_payload, (text,)),
        call_requires(JwtValidator::new, (owned,)),
        call_requires(JwtValidator::jwks_request, (validator,)),
        call_requires(JwtValidator::refresh_keys, (refreshed, resp)),
        call_requires(JwtValidator::choose_key, (validator, kid)),
        call_requires(JwtValidator::validate, (validator, text)),
        call_requires(JwtValidator::validate_refreshed, (validator, text, text)),
        call_requires(JwtValidator::checked, (check, payload)),
        call_requires(JwtValidator::read_claims, (claims,)),
{
}

} // verus!
