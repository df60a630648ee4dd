use vstd::prelude::*;

use crate::challenge::{b64url_of, challenge_of_verifier, generate_challenge, new_state_token,
    sha256_of, url_encode, urlenc_of};
use crate::errors::AuthError;
use crate::http_server::{line_chunks, lookup_param, param_of, params_of, parse_ok,
    parse_redirect, parsed_code, parsed_state, path_parts, query_tokens, redirect_error_for,
    token_ok, wf_line};
use crate::split::{lemma_sep_free_concat, lemma_split_glue, lemma_split_sep_free, sep_free,
    split_chars};

verus! {

/// A scope of access that the provider understands, requested at
/// authorization.
#[derive(Clone, Copy)]
pub enum Scope {
    PublicData,
}

impl Scope {
    /// The provider-defined wire token for this scope.
    pub open spec fn wire(self) -> Seq<char> {
        match self {
            Scope::PublicData => "publicData"@,
        }
    }

    /// Returns the wire token that the provider expects for this scope.
    pub fn as_wire(&self) -> (r: String)
        ensures
            r@ == self.wire(),
    {
        match self {
            Scope::PublicData => "publicData".to_owned(),
        }
    }
}

/// The wire tokens of `scopes` joined by single spaces.
pub open spec fn joined_scopes(scopes: Seq<Scope>) -> Seq<char>
    decreases scopes.len(),
{
    if scopes.len() == 0 {
        Seq::<char>::empty()
    } else if scopes.len() == 1 {
        scopes[0].wire()
    } else {
        scopes[0].wire() + " "@ + joined_scopes(scopes.drop_first())
    }
}

/// Appending one scope to a non-empty sequence appends one space and its
/// wire token to the joined form.
proof fn lemma_joined_push(s: Seq<Scope>, x: Scope)
    requires
        s.len() >= 1,
    ensures
        joined_scopes(s.push(x)) == joined_scopes(s) + " "@ + x.wire(),
    decreases s.len(),
{
    if s.len() == 1 {
        assert(s.push(x).drop_first() =~= seq![x]);
        assert(joined_scopes(seq![x]) == x.wire());
    } else {
        assert(s.push(x).drop_first() =~= s.drop_first().push(x));
        lemma_joined_push(s.drop_first(), x);
        assert(s.push(x)[0] == s[0]);
        assert(s[0].wire() + " "@ + (joined_scopes(s.drop_first()) + " "@ + x.wire()) =~= (s[0].wire()
            + " "@ + joined_scopes(s.drop_first())) + " "@ + x.wire());
    }
}

/// Joins the scopes' wire tokens with single spaces, in their given order.
pub fn join_scopes(scopes: &Vec<Scope>) -> (r: String)
    ensures
        r@ == joined_scopes(scopes@),
{
    let mut out = String::new();
    let mut i: usize = 0;
    while i < scopes.len()
        invariant
            i <= scopes@.len(),
            out@ == joined_scopes(scopes@.take(i as int)),
        decreases scopes@.len() - i,
    {
        let w = scopes[i].as_wire();
        if i > 0 {
            out.append(" ");
            out.append(w.as_str());
            proof {
                assert(scopes@.take(i + 1) =~= scopes@.take(i as int).push(scopes@[i as int]));
                lemma_joined_push(scopes@.take(i as int), scopes@[i as int]);
            }
        } else {
            out.append(w.as_str());
            proof {
                assert(scopes@.take(1) =~= seq![scopes@[0]]);
                assert(Seq::<char>::empty() + scopes@[0].wire() =~= scopes@[0].wire());
            }
        }
        i = i + 1;
    }
    proof {
        assert(scopes@.take(scopes@.len() as int) =~= scopes@);
    }
    out
}

/// The provider's authorization endpoint URL for one attempt: fixed scheme,
/// host and path, then the response type, the challenge method, the client
/// id, the percent-encoded redirect URL, the percent-encoded space-joined
/// scopes, the challenge, and the state token.
pub open spec fn authorization_url(
    client_id: Seq<char>,
    callback: Seq<char>,
    scopes: Seq<Scope>,
    challenge: Seq<char>,
    state: Seq<char>,
) -> Seq<char> {
    "https://login.eveonline.com/v2/oauth/authorize/?response_type=code&code_challenge_method=S256&client_id="@
        + client_id + "&redirect_uri="@ + urlenc_of(callback) + "&scope="@ + urlenc_of(
        joined_scopes(scopes),
    ) + "&code_challenge="@ + challenge + "&state="@ + state
}

/// Builds the authorization URL exactly as `authorization_url` lays it out.
pub fn build_authorization_url(
    client_id: &str,
    callback_url: &str,
    scopes: &Vec<Scope>,
    challenge: &str,
    state: &str,
) -> (r: String)
    ensures
        r@ == authorization_url(client_id@, callback_url@, scopes@, challenge@, state@),
{
    let joined = join_scopes(scopes);
    let mut url =
        "https://login.eveonline.com/v2/oauth/authorize/?response_type=code&code_challenge_method=S256&client_id=".to_owned();
    url.append(client_id);
    url.append("&redirect_uri=");
    let encoded_callback = url_encode(callback_url);
    url.append(encoded_callback.as_str());
    url.append("&scope=");
    let encoded_scopes = url_encode(joined.as_str());
    url.append(encoded_scopes.as_str());
    url.append("&code_challenge=");
    url.append(challenge);
    url.append("&state=");
    url.append(state);
    url
}

/// The flow's configuration: which client authenticates, where the provider
/// should redirect, which scopes are requested, and on which loopback port
/// the redirect is awaited.
pub struct Authenticator {
    pub client_id: String,
    pub callback_url: String,
    pub scopes: Vec<Scope>,
    pub port: Option<u16>,
}

/// Everything one authentication attempt opens with: the verifier held back
/// for the token exchange, the challenge and state sent along, and the
/// authorization URL to hand to the browser.
pub struct FlowStart {
    pub verifier: String,
    pub challenge: String,
    pub state: String,
    pub url: String,
}

impl Authenticator {
    /// A flow for the given client, redirect URL and scopes, on the default
    /// listening port.
    pub fn new(client_id: &str, callback_url: &str, scopes: Vec<Scope>) -> (r: Authenticator)
        ensures
            r.client_id@ == client_id@,
            r.callback_url@ == callback_url@,
            r.scopes == scopes,
            r.port is None,
    {
        Authenticator {
            client_id: client_id.to_owned(),
            callback_url: callback_url.to_owned(),
            scopes,
            port: None,
        }
    }

    /// The same flow, awaiting the redirect on the given port instead of the
    /// default one.
    pub fn with_listening_port(self, port: u16) -> (r: Authenticator)
        ensures
            r.client_id == self.client_id,
            r.callback_url == self.callback_url,
            r.scopes == self.scopes,
            r.port == Some(port),
    {
        Authenticator { port: Some(port), ..self }
    }

    /// The port the redirect listener should bind: the configured one, or
    /// 35795 when none was set.
    pub fn listen_port(&self) -> (r: u16)
        ensures
            self.port matches Some(p) ==> r == p,
            self.port is None ==> r == 35795u16,
    {
        match self.port {
            Some(p) => p,
            None => 35795,
        }
    }

    /// Opens one authentication attempt: draws a fresh verifier/challenge
    /// pair and a fresh state token, and builds the authorization URL that
    /// carries the challenge and the state. The challenge is exactly the
    /// URL-safe unpadded base64 rendering of the SHA-256 digest of the
    /// verifier, and neither is ever regenerated within the attempt.
    pub fn start(&self) -> (r: FlowStart)
        ensures
            r.challenge@ == b64url_of(sha256_of(r.verifier@)),
            r.state@.len() == 36,
            r.url@ == authorization_url(
                self.client_id@,
                self.callback_url@,
                self.scopes@,
                r.challenge@,
                r.state@,
            ),
    {
        let (verifier, challenge) = generate_challenge();
        let state = new_state_token();
        let url = build_authorization_url(
            self.client_id.as_str(),
            self.callback_url.as_str(),
            &self.scopes,
            challenge.as_str(),
            state.as_str(),
        );
        FlowStart { verifier, challenge, state, url }
    }
}

/// Checks one captured redirect against the state this flow generated:
/// parses the request line, then compares the returned state to the expected
/// one byte for byte. Only a well-formed line whose state matches yields the
/// authorization code; a mismatch is a hard failure of the attempt.
pub fn process_redirect(expected_state: &String, line: &String) -> (r: Result<String, AuthError>)
    ensures
        r is Ok <==> parse_ok(line@) && parsed_state(line@) == expected_state@,
        r matches Ok(code) ==> code@ == parsed_code(line@),
        parse_ok(line@) && parsed_state(line@) != expected_state@ ==> (r matches Err(
            AuthError::StateMismatch { expected, got },
        ) && expected@ == expected_state@ && got@ == parsed_state(line@)),
        !parse_ok(line@) ==> (r matches Err(e) && redirect_error_for(e, line@)),
{
    let resp = match parse_redirect(line) {
        Ok(c) => c,
        Err(e) => { return Err(e); },
    };
    if resp.state.eq(expected_state) {
        Ok(resp.code)
    } else {
        Err(AuthError::StateMismatch { expected: expected_state.clone(), got: resp.state })
    }
}

/// Free of every character the redirect's query syntax reserves.
pub open spec fn query_safe(s: Seq<char>) -> bool {
    sep_free(s, ' ') && sep_free(s, '?') && sep_free(s, '&') && sep_free(s, '=')
}

/// The request line of a redirect carrying `code` and `state` back to the
/// listener.
pub open spec fn synthetic_redirect_line(code: Seq<char>, state: Seq<char>) -> Seq<char> {
    "GET /cb?code="@ + code + "&state="@ + state + " HTTP/1.1"@
}

/// Round trip: a state token placed in the authorization URL and carried
/// back unchanged in the redirect always passes the flow's comparison step.
/// The synthetic redirect line parses, its state is exactly the embedded
/// state, and the code it yields is exactly the embedded code.
pub proof fn lemma_redirect_round_trip(code: Seq<char>, state: Seq<char>)
    requires
        query_safe(code),
        query_safe(state),
    ensures
        parse_ok(synthetic_redirect_line(code, state)),
        parsed_code(synthetic_redirect_line(code, state)) == code,
        parsed_state(synthetic_redirect_line(code, state)) == state,
{
    reveal_strlit("GET /cb?code=");
    reveal_strlit("&state=");
    reveal_strlit(" HTTP/1.1");
    reveal_strlit("GET");
    reveal_strlit("/cb");
    reveal_strlit("/cb?code=");
    reveal_strlit("HTTP/1.1");
    reveal_strlit("code");
    reveal_strlit("state");
    reveal_strlit("code=");
    reveal_strlit("state=");
    let line = synthetic_redirect_line(code, state);
    let mid = "/cb?code="@ + code + "&state="@ + state;
    let q = "code="@ + code + "&state="@ + state;
    // the line has exactly three space-separated chunks
    assert(sep_free("GET"@, ' '));
    assert(sep_free("/cb?code="@, ' '));
    assert(sep_free("&state="@, ' '));
    assert(sep_free("HTTP/1.1"@, ' '));
    lemma_sep_free_concat("/cb?code="@, code, ' ');
    lemma_sep_free_concat("/cb?code="@ + code, "&state="@, ' ');
    lemma_sep_free_concat("/cb?code="@ + code + "&state="@, state, ' ');
    assert(line =~= ("GET"@ + seq![' ']) + ((mid + seq![' ']) + "HTTP/1.1"@));
    lemma_split_glue("GET"@, (mid + seq![' ']) + "HTTP/1.1"@, ' ');
    lemma_split_glue(mid, "HTTP/1.1"@, ' ');
    lemma_split_sep_free("HTTP/1.1"@, ' ');
    assert(split_chars(line, ' ') =~~= seq!["GET"@, mid, "HTTP/1.1"@]);
    assert(line_chunks(line).len() == 3);
    assert(line_chunks(line)[1] == mid);
    // the path splits into two parts around one '?'
    assert(sep_free("/cb"@, '?'));
    assert(sep_free("code="@, '?'));
    assert(sep_free("&state="@, '?'));
    lemma_sep_free_concat("code="@, code, '?');
    lemma_sep_free_concat("code="@ + code, "&state="@, '?');
    lemma_sep_free_concat("code="@ + code + "&state="@, state, '?');
    assert(mid =~= ("/cb"@ + seq!['?']) + q);
    lemma_split_glue("/cb"@, q, '?');
    lemma_split_sep_free(q, '?');
    assert(split_chars(mid, '?') =~~= seq!["/cb"@, q]);
    assert(path_parts(line).len() == 2);
    assert(path_parts(line)[1] == q);
    // the query splits into the two parameter tokens
    let tok_code = "code="@ + code;
    let tok_state = "state="@ + state;
    assert(sep_free("code="@, '&'));
    assert(sep_free("state="@, '&'));
    lemma_sep_free_concat("code="@, code, '&');
    lemma_sep_free_concat("state="@, state, '&');
    assert(q =~= (tok_code + seq!['&']) + tok_state);
    lemma_split_glue(tok_code, tok_state, '&');
    lemma_split_sep_free(tok_state, '&');
    assert(split_chars(q, '&') =~~= seq![tok_code, tok_state]);
    assert(query_tokens(line).len() == 2);
    assert(query_tokens(line)[0] == tok_code);
    assert(query_tokens(line)[1] == tok_state);
    // each token is one key, one '=', one value
    assert(sep_free("code"@, '='));
    assert(sep_free("state"@, '='));
    assert(tok_code =~= ("code"@ + seq!['=']) + code);
    lemma_split_glue("code"@, code, '=');
    lemma_split_sep_free(code, '=');
    assert(split_chars(tok_code, '=') =~~= seq!["code"@, code]);
    assert(tok_state =~= ("state"@ + seq!['=']) + state);
    lemma_split_glue("state"@, state, '=');
    lemma_split_sep_free(state, '=');
    assert(split_chars(tok_state, '=') =~~= seq!["state"@, state]);
    assert(token_ok(tok_code));
    assert(token_ok(tok_state));
    assert(wf_line(line));
    // both parameters are present, the state last of the two
    let pc = ("code"@, code);
    let ps = ("state"@, state);
    assert(param_of(tok_code) == pc);
    assert(param_of(tok_state) == ps);
    assert(params_of(line) =~= seq![pc, ps]);
    assert("state"@ != "code"@);
    assert(params_of(line).last() == ps);
    assert(lookup_param(params_of(line), "state"@) == Some(state));
    assert(params_of(line).drop_last() =~= seq![pc]);
    assert(seq![pc].last() == pc);
    assert(lookup_param(seq![pc], "code"@) == Some(code));
    assert(lookup_param(params_of(line), "code"@) == Some(code));
}

} // verus!
