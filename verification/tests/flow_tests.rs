use eve_auth::auth::{build_authorization_url, join_scopes, process_redirect, Authenticator,
    Scope};
use eve_auth::challenge::challenge_of_verifier;
use eve_auth::errors::AuthError;

#[test]
fn scopes_join_with_single_spaces() {
    assert_eq!(join_scopes(&vec![]), "");
    assert_eq!(join_scopes(&vec![Scope::PublicData]), "publicData");
    assert_eq!(
        join_scopes(&vec![Scope::PublicData, Scope::PublicData]),
        "publicData publicData"
    );
}

#[test]
fn authorization_url_is_laid_out_exactly() {
    let url = build_authorization_url(
        "cid",
        "http://localhost:35795/cb",
        &vec![Scope::PublicData],
        "CHAL",
        "STATE1",
    );
    assert_eq!(
        url,
        "https://login.eveonline.com/v2/oauth/authorize/?response_type=code&\
         code_challenge_method=S256&client_id=cid&\
         redirect_uri=http%3A%2F%2Flocalhost%3A35795%2Fcb&scope=publicData&\
         code_challenge=CHAL&state=STATE1"
    );
}

#[test]
fn default_listening_port_is_35795() {
    let auth = Authenticator::new("cid", "http://localhost:35795/cb", vec![Scope::PublicData]);
    assert_eq!(auth.listen_port(), 35795);
}

#[test]
fn configured_listening_port_wins() {
    let auth = Authenticator::new("cid", "http://localhost:8080/cb", vec![Scope::PublicData])
        .with_listening_port(8080);
    assert_eq!(auth.listen_port(), 8080);
}

#[test]
fn flow_start_binds_challenge_to_verifier_and_carries_state() {
    let auth = Authenticator::new("cid", "http://localhost:35795/cb", vec![Scope::PublicData]);
    let flow = auth.start();
    assert_eq!(challenge_of_verifier(&flow.verifier), flow.challenge);
    assert_eq!(flow.state.len(), 36);
    let expected = build_authorization_url(
        "cid",
        "http://localhost:35795/cb",
        &vec![Scope::PublicData],
        &flow.challenge,
        &flow.state,
    );
    assert_eq!(flow.url, expected);
}

#[test]
fn matching_state_yields_the_code() {
    let expected = "S1".to_string();
    let line = "GET /cb?code=ABC123&state=S1 HTTP/1.1".to_string();
    assert_eq!(process_redirect(&expected, &line).unwrap(), "ABC123");
}

#[test]
fn mismatched_state_is_a_hard_failure() {
    let expected = "S1".to_string();
    let line = "GET /cb?code=ABC123&state=S2 HTTP/1.1".to_string();
    match process_redirect(&expected, &line) {
        Err(AuthError::StateMismatch { expected: e, got }) => {
            assert_eq!(e, "S1");
            assert_eq!(got, "S2");
        }
        other => panic!("expected StateMismatch, got {:?}", other),
    }
}

#[test]
fn generated_state_round_trips_through_a_synthetic_redirect() {
    let auth = Authenticator::new("cid", "http://localhost:35795/cb", vec![Scope::PublicData]);
    let flow = auth.start();
    let line = format!("GET /cb?code=XYZ&state={} HTTP/1.1", flow.state);
    assert_eq!(process_redirect(&flow.state, &line).unwrap(), "XYZ");
}
