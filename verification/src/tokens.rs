use vstd::prelude::*;

use crate::errors::AuthError;

verus! {

/// The raw bearer string the token endpoint issued.
#[derive(Debug, Clone)]
pub struct AccessToken(pub String);

/// The raw refresh string plus the client id it was issued for, which the
/// refresh grant must present again.
#[derive(Debug, Clone)]
pub struct RefreshToken {
    pub token: String,
    pub client_id: String,
}

impl RefreshToken {
    /// A refresh token bound to the client it was issued for.
    pub fn new(token: &str, client_id: &str) -> (r: RefreshToken)
        ensures
            r.token@ == token@,
            r.client_id@ == client_id@,
    {
        RefreshToken { token: token.to_owned(), client_id: client_id.to_owned() }
    }
}

/// The credential bundle an exchange returns: refreshing yields a new
/// bundle, it never mutates this one.
#[derive(Debug, Clone)]
pub struct Tokens {
    pub access: AccessToken,
    pub refresh: RefreshToken,
}

/// The JSON shape of a successful token-endpoint response.
pub struct AuthTokenResponseBody {
    pub access_token: String,
    pub refresh_token: String,
}

/// One entry of the provider's published key set: the key identifier and
/// the key material (the modulus field of the JSON Web Key).
pub struct AuthTokenKey {
    pub kid: String,
    pub n: String,
}

/// The JSON shape of the key-set endpoint's response.
pub struct AuthTokenKeyResponseBody {
    pub keys: Vec<AuthTokenKey>,
}

/// The key identifier the provider signs access tokens under.
pub open spec fn expected_kid() -> Seq<char> {
    "JWT-Signature-Key"@
}

/// The first key of the set carrying the expected identifier, if any.
pub open spec fn found_key(keys: Seq<AuthTokenKey>) -> Option<AuthTokenKey>
    decreases keys.len(),
{
    if keys.len() == 0 {
        None
    } else if keys.first().kid@ == expected_kid() {
        Some(keys.first())
    } else {
        found_key(keys.drop_first())
    }
}

/// Picks from the fetched key set the first key whose identifier equals the
/// expected one; when none matches, the error carries every identifier
/// seen, for diagnosis.
pub fn select_key(body: &AuthTokenKeyResponseBody) -> (r: Result<AuthTokenKey, AuthError>)
    ensures
        r is Ok <==> found_key(body.keys@) is Some,
        r matches Ok(k) ==> Some(k) == found_key(body.keys@),
        r matches Err(e) ==> (e matches AuthError::NoKey { kids } && kids@.len()
            == body.keys@.len() && (forall|m: int|
            0 <= m < body.keys@.len() ==> (#[trigger] kids@[m])@ == body.keys@[m].kid@)),
{
    let expected: String = "JWT-Signature-Key".to_owned();
    let mut i: usize = 0;
    proof {
        assert(body.keys@.skip(0) =~= body.keys@);
    }
    while i < body.keys.len()
        invariant
            i <= body.keys@.len(),
            expected@ == expected_kid(),
            found_key(body.keys@) == found_key(body.keys@.skip(i as int)),
        decreases body.keys@.len() - i,
    {
        proof {
            assert(body.keys@.skip(i as int).first() == body.keys@[i as int]);
            assert(body.keys@.skip(i as int).drop_first() =~= body.keys@.skip(i + 1));
        }
        if body.keys[i].kid.eq(&expected) {
            return Ok(AuthTokenKey { kid: body.keys[i].kid.clone(), n: body.keys[i].n.clone() });
        }
        i = i + 1;
    }
    proof {
        assert(body.keys@.skip(body.keys@.len() as int) =~= Seq::<AuthTokenKey>::empty());
    }
    let mut kids: Vec<String> = Vec::new();
    let mut j: usize = 0;
    while j < body.keys.len()
        invariant
            j <= body.keys@.len(),
            kids@.len() == j,
            forall|m: int| 0 <= m < j ==> (#[trigger] kids@[m])@ == body.keys@[m].kid@,
        decreases body.keys@.len() - j,
    {
        kids.push(body.keys[j].kid.clone());
        j = j + 1;
    }
    Err(AuthError::NoKey { kids })
}

/// What jsonwebtoken's decode makes of a token under a key: whether it
/// verifies (signature, structure, audience and the other registered-claim
/// checks), and the token's `iss` claim when one is present. A function of
/// the token and key material alone.
pub uninterp spec fn jwt_decode_of(token: Seq<char>, key_material: Seq<char>) -> (
    bool,
    Option<Seq<char>>,
);

/// Relies on jsonwebtoken::decode with the RS256 algorithm and the required
/// audience "EVE Online", the decoding key taken from the key material's
/// bytes as a shared secret. (Verifying RS256 against a published RSA key
/// would normally use a key assembled from modulus and exponent; here the
/// modulus string's bytes stand in as the secret, exactly as the key-set
/// endpoint supplies them.) Acceptance and the `iss` claim are functions of
/// the token and the key material alone.
#[verifier::external_body]
fn jwt_decode_iss(token: &str, key_material: &str) -> (r: Result<
    Option<String>,
    jsonwebtoken::errors::Error,
>)
    ensures
        r is Ok <==> jwt_decode_of(token@, key_material@).0,
        r matches Ok(Some(s)) ==> (jwt_decode_of(token@, key_material@).1 matches Some(t) && s@
            == t),
        r matches Ok(None) ==> jwt_decode_of(token@, key_material@).1 is None,
{
    let mut validation = jsonwebtoken::Validation::new(jsonwebtoken::Algorithm::RS256);
    validation.set_audience(&["EVE Online"]);
    let key = jsonwebtoken::DecodingKey::from_secret(key_material.as_bytes());
    match jsonwebtoken::decode::<serde_json::Value>(token, &key, &validation) {
        Ok(data) => Ok(data.claims.get("iss").and_then(|v| v.as_str()).map(|s| s.to_owned())),
        Err(e) => Err(e),
    }
}

#[verifier::external_type_specification]
#[verifier::external_body]
pub struct ExJwtError(jsonwebtoken::errors::Error);

/// Relies on jsonwebtoken::errors::Error::kind: whether decode reported a
/// structurally invalid token.
#[verifier::external_body]
fn jwt_error_is_invalid_token(e: &jsonwebtoken::errors::Error) -> bool {
    matches!(e.kind(), jsonwebtoken::errors::ErrorKind::InvalidToken)
}

/// Relies on jsonwebtoken::errors::Error::kind: whether decode reported an
/// audience mismatch.
#[verifier::external_body]
fn jwt_error_is_invalid_audience(e: &jsonwebtoken::errors::Error) -> bool {
    matches!(e.kind(), jsonwebtoken::errors::ErrorKind::InvalidAudience)
}

/// Relies on the Display form of jsonwebtoken's error, for diagnostics only.
#[verifier::external_body]
fn jwt_error_message(e: &jsonwebtoken::errors::Error) -> String {
    format!("{}", e)
}

/// The `iss` claim a decode reports, the empty sequence when none is
/// present.
pub open spec fn iss_claim(token: Seq<char>, key_material: Seq<char>) -> Seq<char> {
    match jwt_decode_of(token, key_material).1 {
        Some(s) => s,
        None => Seq::<char>::empty(),
    }
}

/// An issuer claim is acceptable exactly when it equals one of the two
/// forms the provider issues under.
pub open spec fn issuer_ok(iss: Seq<char>) -> bool {
    iss == "login.eveonline.com"@ || iss == "https://login.eveonline.com"@
}

/// A token is accepted under a key when the decode verifies it and its
/// issuer claim is acceptable.
pub open spec fn token_accepted(token: Seq<char>, key_material: Seq<char>) -> bool {
    jwt_decode_of(token, key_material).0 && issuer_ok(iss_claim(token, key_material))
}

impl AccessToken {
    /// Verifies this bearer token against the given signing key: signature,
    /// structure and audience are jsonwebtoken's checks, and the issuer
    /// claim must equal one of the two accepted issuer forms. Succeeds
    /// exactly when all of them hold.
    pub fn validate(&self, key: &AuthTokenKey) -> (r: Result<(), AuthError>)
        ensures
            r is Ok <==> token_accepted(self.0@, key.n@),
            jwt_decode_of(self.0@, key.n@).0 && !issuer_ok(iss_claim(self.0@, key.n@)) ==> (r
                matches Err(AuthError::InvalidIssuer { issuer }) && issuer@ == iss_claim(
                self.0@,
                key.n@,
            )),
            !jwt_decode_of(self.0@, key.n@).0 ==> (r matches Err(e) && (e is InvalidToken
                || e is InvalidAudience || e is Unexpected)),
    {
        match jwt_decode_iss(self.0.as_str(), key.n.as_str()) {
            Ok(iss_opt) => {
                let iss = match iss_opt {
                    Some(s) => s,
                    None => String::new(),
                };
                let plain: String = "login.eveonline.com".to_owned();
                let https: String = "https://login.eveonline.com".to_owned();
                if iss.eq(&plain) || iss.eq(&https) {
                    Ok(())
                } else {
                    Err(AuthError::InvalidIssuer { issuer: iss })
                }
            },
            Err(e) => {
                let detail = jwt_error_message(&e);
                if jwt_error_is_invalid_token(&e) {
                    Err(AuthError::InvalidToken { detail })
                } else if jwt_error_is_invalid_audience(&e) {
                    Err(AuthError::InvalidAudience { detail })
                } else {
                    Err(AuthError::Unexpected { detail })
                }
            },
        }
    }
}

/// Wraps a decoded token-endpoint response into a credential bundle, gated
/// on the validation outcome passed in: a validation failure is the
/// exchange's failure, so no unvalidated bundle is ever returned.
pub fn assemble_tokens(
    body: &AuthTokenResponseBody,
    client_id: &str,
    validation: Result<(), AuthError>,
) -> (r: Result<Tokens, AuthError>)
    ensures
        validation is Ok ==> (r matches Ok(t) && t.access.0@ == body.access_token@
            && t.refresh.token@ == body.refresh_token@ && t.refresh.client_id@ == client_id@),
        validation matches Err(e) ==> (r matches Err(e2) && e2 == e),
{
    match validation {
        Ok(_) => Ok(
            Tokens {
                access: AccessToken(body.access_token.clone()),
                refresh: RefreshToken::new(body.refresh_token.as_str(), client_id),
            },
        ),
        Err(e) => Err(e),
    }
}

/// Shared tail of both token grants. A transport or decode failure is
/// surfaced as it came; otherwise the signing key is selected from the
/// fetched key set, the access token is validated against it, and only a
/// validated bundle is returned, carrying the client id for later refresh.
pub fn handle_token_response(
    resp: Result<AuthTokenResponseBody, AuthError>,
    keyset: Result<AuthTokenKeyResponseBody, AuthError>,
    client_id: &str,
) -> (r: Result<Tokens, AuthError>)
    ensures
        resp matches Err(e) ==> (r matches Err(e2) && e2 == e),
        resp is Ok ==> (keyset matches Err(e) ==> (r matches Err(e2) && e2 == e)),
        resp matches Ok(b) ==> keyset matches Ok(ks) ==> {
            &&& found_key(ks.keys@) is None ==> (r matches Err(e) && e is NoKey)
            &&& found_key(ks.keys@) matches Some(k) ==> {
                &&& r is Ok <==> token_accepted(b.access_token@, k.n@)
                &&& (r matches Ok(t) ==> t.access.0@ == b.access_token@ && t.refresh.token@
                    == b.refresh_token@ && t.refresh.client_id@ == client_id@)
            }
        },
{
    let body = match resp {
        Ok(b) => b,
        Err(e) => { return Err(e); },
    };
    let keys = match keyset {
        Ok(ks) => ks,
        Err(e) => { return Err(e); },
    };
    let key = match select_key(&keys) {
        Ok(k) => k,
        Err(e) => { return Err(e); },
    };
    let access = AccessToken(body.access_token.clone());
    let validation = access.validate(&key);
    assemble_tokens(&body, client_id, validation)
}

/// The form body of the authorization-code grant: the grant type, the
/// captured code, the client id, and the verifier as proof of possession.
pub open spec fn authorization_code_body(
    code: Seq<char>,
    client_id: Seq<char>,
    verifier: Seq<char>,
) -> Seq<char> {
    "grant_type=authorization_code&code="@ + code + "&client_id="@ + client_id
        + "&code_verifier="@ + verifier
}

/// Builds the authorization-code grant body exactly as
/// `authorization_code_body` lays it out.
pub fn build_authorization_code_body(code: &str, client_id: &str, verifier: &str) -> (r: String)
    ensures
        r@ == authorization_code_body(code@, client_id@, verifier@),
{
    let mut body = "grant_type=authorization_code&code=".to_owned();
    body.append(code);
    body.append("&client_id=");
    body.append(client_id);
    body.append("&code_verifier=");
    body.append(verifier);
    body
}

/// The form body of the refresh grant: the grant type, the refresh token,
/// and the client id it was issued for.
pub open spec fn refresh_body(token: Seq<char>, client_id: Seq<char>) -> Seq<char> {
    "grant_type=refresh_token&refresh_token="@ + token + "&client_id="@ + client_id
}

impl Tokens {
    /// The form body a refresh grant posts for this bundle: the grant type
    /// `refresh_token`, this bundle's refresh string, and the client id the
    /// token was issued for. Only a request body is built; the bundle is
    /// left untouched, and the exchange returns a new one.
    pub fn refresh_request_body(&self) -> (r: String)
        ensures
            r@ == refresh_body(self.refresh.token@, self.refresh.client_id@),
    {
        let mut body = "grant_type=refresh_token&refresh_token=".to_owned();
        body.append(self.refresh.token.as_str());
        body.append("&client_id=");
        body.append(self.refresh.client_id.as_str());
        body
    }

    /// An equal bundle, built field by field, for callers that hand one on
    /// while keeping their own.
    pub fn duplicate(&self) -> (r: Tokens)
        ensures
            r == self,
    {
        Tokens {
            access: AccessToken(self.access.0.clone()),
            refresh: RefreshToken {
                token: self.refresh.token.clone(),
                client_id: self.refresh.client_id.clone(),
            },
        }
    }
}

/// The provider's token endpoint.
pub fn token_endpoint_url() -> (r: String)
    ensures
        r@ == "https://login.eveonline.com/v2/oauth/token"@,
{
    "https://login.eveonline.com/v2/oauth/token".to_owned()
}

/// The provider's published key-set endpoint.
pub fn jwks_url() -> (r: String)
    ensures
        r@ == "https://login.eveonline.com/oauth/jwks"@,
{
    "https://login.eveonline.com/oauth/jwks".to_owned()
}

} // verus!
