use vstd::prelude::*;

verus! {

/// Every way an authentication attempt can fail, each cause its own variant
/// so that callers can branch on it.
#[derive(Debug)]
pub enum AuthError {
    /// The captured request line did not split into method, path and version.
    BadRequestLine { line: String },
    /// The request path did not hold exactly one `?` separator.
    BadPath { path: String },
    /// A query token did not split into exactly one key and one value.
    BadParameter { param: String },
    /// The query carried no `code` parameter.
    MissingCode { line: String },
    /// The query carried no `state` parameter.
    MissingState { line: String },
    /// The state returned in the redirect differs from the one this flow generated.
    StateMismatch { expected: String, got: String },
    /// A request to the provider could not be sent or its body could not be read.
    Network { detail: String },
    /// A response body was not the JSON shape the provider documents.
    Decode { detail: String },
    /// The fetched key set holds no key under the expected key identifier.
    NoKey { kids: Vec<String> },
    /// The access token is not a structurally valid JWT or its signature is wrong.
    InvalidToken { detail: String },
    /// The access token's audience claim does not include the expected audience.
    InvalidAudience { detail: String },
    /// The access token's issuer claim is neither accepted issuer form.
    InvalidIssuer { issuer: String },
    /// Token verification failed for a reason outside the named causes.
    Unexpected { detail: String },
}

} // verus!
