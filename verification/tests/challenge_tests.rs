use eve_auth::challenge::{challenge_of_verifier, generate_challenge};

#[test]
fn challenge_recomputes_from_verifier() {
    let (verifier, challenge) = generate_challenge();
    assert_eq!(challenge_of_verifier(&verifier), challenge);
}

#[test]
fn verifier_and_challenge_have_base64url_length_of_32_bytes() {
    let (verifier, challenge) = generate_challenge();
    assert_eq!(verifier.len(), 43);
    assert_eq!(challenge.len(), 43);
}

#[test]
fn challenge_of_empty_verifier_is_the_known_digest() {
    assert_eq!(
        challenge_of_verifier(""),
        "47DEQpj8HBSa-_TImW-5JCeuQeRkm5NMpJWZG3hSuFU"
    );
}

#[test]
fn challenge_of_test_verifier_is_the_known_digest() {
    assert_eq!(
        challenge_of_verifier("test"),
        "n4bQgYhMfWWaL-qgxVrQFaO_TxsrC4Is0V1sFbDwCgg"
    );
}

#[test]
fn two_attempts_draw_distinct_verifiers() {
    let (v1, _) = generate_challenge();
    let (v2, _) = generate_challenge();
    assert_ne!(v1, v2);
}
