use eve_auth::errors::AuthError;
use eve_auth::tokens::{assemble_tokens, build_authorization_code_body, handle_token_response,
    jwks_url, select_key, token_endpoint_url, AccessToken, AuthTokenKey,
    AuthTokenKeyResponseBody, AuthTokenResponseBody, RefreshToken, Tokens};
use eve_auth::API;

fn sample_keyset() -> AuthTokenKeyResponseBody {
    AuthTokenKeyResponseBody {
        keys: vec![
            AuthTokenKey { kid: "other".to_string(), n: "m1".to_string() },
            AuthTokenKey { kid: "JWT-Signature-Key".to_string(), n: "m2".to_string() },
            AuthTokenKey { kid: "JWT-Signature-Key".to_string(), n: "m3".to_string() },
        ],
    }
}

#[test]
fn first_key_with_the_expected_identifier_is_selected() {
    let key = select_key(&sample_keyset()).unwrap();
    assert_eq!(key.kid, "JWT-Signature-Key");
    assert_eq!(key.n, "m2");
}

#[test]
fn missing_key_reports_every_identifier_seen() {
    let body = AuthTokenKeyResponseBody {
        keys: vec![
            AuthTokenKey { kid: "a".to_string(), n: "m1".to_string() },
            AuthTokenKey { kid: "b".to_string(), n: "m2".to_string() },
        ],
    };
    match select_key(&body) {
        Err(AuthError::NoKey { kids }) => assert_eq!(kids, vec!["a", "b"]),
        other => panic!("expected NoKey, got {:?}", other.map(|_| ())),
    }
}

#[test]
fn validated_response_becomes_the_credential_bundle() {
    let body = AuthTokenResponseBody {
        access_token: "a.b.c".to_string(),
        refresh_token: "r1".to_string(),
    };
    let tokens = assemble_tokens(&body, "cid", Ok(())).unwrap();
    assert_eq!(tokens.access.0, "a.b.c");
    assert_eq!(tokens.refresh.token, "r1");
    assert_eq!(tokens.refresh.client_id, "cid");
}

#[test]
fn validation_failure_fails_the_exchange() {
    let body = AuthTokenResponseBody {
        access_token: "a.b.c".to_string(),
        refresh_token: "r1".to_string(),
    };
    let verdict = Err(AuthError::InvalidAudience { detail: "aud".to_string() });
    assert!(matches!(
        assemble_tokens(&body, "cid", verdict),
        Err(AuthError::InvalidAudience { .. })
    ));
}

#[test]
fn transport_failure_propagates_unchanged() {
    let resp = Err(AuthError::Network { detail: "down".to_string() });
    let r = handle_token_response(resp, Ok(sample_keyset()), "cid");
    assert!(matches!(r, Err(AuthError::Network { .. })));
}

#[test]
fn key_fetch_failure_propagates_unchanged() {
    let resp = Ok(AuthTokenResponseBody {
        access_token: "a.b.c".to_string(),
        refresh_token: "r1".to_string(),
    });
    let keyset = Err(AuthError::Decode { detail: "not json".to_string() });
    let r = handle_token_response(resp, keyset, "cid");
    assert!(matches!(r, Err(AuthError::Decode { .. })));
}

#[test]
fn absent_signing_key_fails_the_exchange() {
    let resp = Ok(AuthTokenResponseBody {
        access_token: "a.b.c".to_string(),
        refresh_token: "r1".to_string(),
    });
    let keyset = Ok(AuthTokenKeyResponseBody { keys: vec![] });
    assert!(matches!(
        handle_token_response(resp, keyset, "cid"),
        Err(AuthError::NoKey { .. })
    ));
}

#[test]
fn malformed_bearer_token_never_validates() {
    let key = AuthTokenKey { kid: "JWT-Signature-Key".to_string(), n: "m2".to_string() };
    let verdict = AccessToken("a.b.c".to_string()).validate(&key);
    assert!(matches!(
        verdict,
        Err(AuthError::InvalidToken { .. })
            | Err(AuthError::InvalidAudience { .. })
            | Err(AuthError::Unexpected { .. })
    ));
}

#[test]
fn exchange_with_malformed_token_fails_validation() {
    let resp = Ok(AuthTokenResponseBody {
        access_token: "a.b.c".to_string(),
        refresh_token: "r1".to_string(),
    });
    let r = handle_token_response(resp, Ok(sample_keyset()), "cid");
    assert!(matches!(
        r,
        Err(AuthError::InvalidToken { .. })
            | Err(AuthError::InvalidAudience { .. })
            | Err(AuthError::Unexpected { .. })
    ));
}

fn sample_tokens() -> Tokens {
    Tokens {
        access: AccessToken("a.b.c".to_string()),
        refresh: RefreshToken::new("r1", "cid"),
    }
}

#[test]
fn refresh_request_carries_grant_type_token_and_client_id() {
    let body = sample_tokens().refresh_request_body();
    assert_eq!(
        body,
        "grant_type=refresh_token&refresh_token=r1&client_id=cid"
    );
}

#[test]
fn refresh_yields_a_new_bundle_and_leaves_the_old_one() {
    let old = sample_tokens();
    let _body = old.refresh_request_body();
    let response = AuthTokenResponseBody {
        access_token: "d.e.f".to_string(),
        refresh_token: "r2".to_string(),
    };
    let fresh = assemble_tokens(&response, &old.refresh.client_id, Ok(())).unwrap();
    assert_eq!(fresh.refresh.token, "r2");
    assert_eq!(fresh.refresh.client_id, "cid");
    assert_eq!(old.refresh.token, "r1");
    assert_eq!(old.access.0, "a.b.c");
}

#[test]
fn authorization_code_body_is_laid_out_exactly() {
    assert_eq!(
        build_authorization_code_body("CODE", "cid", "VERIF"),
        "grant_type=authorization_code&code=CODE&client_id=cid&code_verifier=VERIF"
    );
}

#[test]
fn endpoints_are_fixed() {
    assert_eq!(token_endpoint_url(), "https://login.eveonline.com/v2/oauth/token");
    assert_eq!(jwks_url(), "https://login.eveonline.com/oauth/jwks");
}

#[test]
fn duplicated_bundle_keeps_every_field() {
    let t = sample_tokens();
    let d = t.duplicate();
    assert_eq!(d.access.0, t.access.0);
    assert_eq!(d.refresh.token, t.refresh.token);
    assert_eq!(d.refresh.client_id, t.refresh.client_id);
}

#[test]
fn character_url_renders_the_id_in_decimal() {
    assert_eq!(
        eve_auth::character_url(95465499),
        "https://esi.evetech.net/latest/characters/95465499"
    );
    assert_eq!(
        eve_auth::character_url(0),
        "https://esi.evetech.net/latest/characters/0"
    );
    assert_eq!(
        eve_auth::character_url(-5),
        "https://esi.evetech.net/latest/characters/-5"
    );
    assert_eq!(
        eve_auth::character_url(i32::MIN),
        "https://esi.evetech.net/latest/characters/-2147483648"
    );
}

#[test]
fn api_hands_its_credentials_to_the_character_resource() {
    let api = API::new(sample_tokens());
    let character = api.character();
    assert_eq!(character.tokens.access.0, "a.b.c");
    assert_eq!(character.tokens.refresh.token, "r1");
}
