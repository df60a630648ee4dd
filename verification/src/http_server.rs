use vstd::prelude::*;

use crate::errors::AuthError;
use crate::split::{lemma_split_len, split_chars, split_str};

verus! {

/// The loopback endpoint on which one redirect is awaited.
pub struct Server {
    pub host: String,
    pub port: u16,
}

/// The two query parameters extracted from the captured redirect.
pub struct CodeResponse {
    pub code: String,
    pub state: String,
}

impl Server {
    /// A listener description for the given host and port; nothing is bound yet.
    pub fn new(host: &str, port: u16) -> (r: Server)
        ensures
            r.host@ == host@,
            r.port == port,
    {
        Server { host: host.to_owned(), port }
    }
}

/// The confirmation page shown in the browser once the redirect is caught.
pub open spec fn confirmation_body() -> Seq<char> {
    "Code received, you can close this tab now."@
}

/// The declared Content-Length equals the confirmation body's length, and
/// the body is ASCII, so its character count is its byte count.
pub proof fn lemma_confirmation_length()
    ensures
        confirmation_body().len() == 42,
        forall|i: int| 0 <= i < confirmation_body().len() ==> (confirmation_body()[i] as u32)
            < 128,
{
    reveal_strlit("Code received, you can close this tab now.");
}

/// The fixed success response written back on the captured connection:
/// status line, a Content-Length header carrying the body's exact byte
/// length, a blank line, then the confirmation body.
pub fn http_ok_response() -> (r: String)
    ensures
        r@ == "HTTP/1.1 200 OK\r\nContent-Length: 42\r\n\r\n"@ + confirmation_body(),
{
    let mut r = "HTTP/1.1 200 OK\r\nContent-Length: 42\r\n\r\n".to_owned();
    r.append("Code received, you can close this tab now.");
    r
}

/// The space-separated chunks of a request line.
pub open spec fn line_chunks(line: Seq<char>) -> Seq<Seq<char>> {
    split_chars(line, ' ')
}

/// The parts of the request path around `?`.
pub open spec fn path_parts(line: Seq<char>) -> Seq<Seq<char>> {
    split_chars(line_chunks(line)[1], '?')
}

/// The `&`-separated tokens of the query.
pub open spec fn query_tokens(line: Seq<char>) -> Seq<Seq<char>> {
    split_chars(path_parts(line)[1], '&')
}

/// A query token is well-formed when it holds exactly one `=`.
pub open spec fn token_ok(t: Seq<char>) -> bool {
    split_chars(t, '=').len() == 2
}

/// The key/value pair a well-formed query token denotes.
pub open spec fn param_of(t: Seq<char>) -> (Seq<char>, Seq<char>) {
    (split_chars(t, '=')[0], split_chars(t, '=')[1])
}

/// A request line parses when it has three space-separated chunks, its path
/// holds exactly one `?`, and every query token holds exactly one `=`.
pub open spec fn wf_line(line: Seq<char>) -> bool {
    &&& line_chunks(line).len() == 3
    &&& path_parts(line).len() == 2
    &&& forall|k: int| 0 <= k < query_tokens(line).len() ==> token_ok(#[trigger] query_tokens(line)[k])
}

/// The key/value pairs of a well-formed request line, in query order.
pub open spec fn params_of(line: Seq<char>) -> Seq<(Seq<char>, Seq<char>)> {
    query_tokens(line).map_values(|t: Seq<char>| param_of(t))
}

/// Which parse error a request line earns, and what it carries.
pub open spec fn parse_error_for(e: AuthError, line: Seq<char>) -> bool {
    if line_chunks(line).len() != 3 {
        e matches AuthError::BadRequestLine { line: l } && l@ == line
    } else if path_parts(line).len() != 2 {
        e matches AuthError::BadPath { path: p } && p@ == line_chunks(line)[1]
    } else {
        exists|i: int|
            {
                &&& 0 <= i < query_tokens(line).len()
                &&& !token_ok(query_tokens(line)[i])
                &&& (forall|j: int| 0 <= j < i ==> token_ok(#[trigger] query_tokens(line)[j]))
                &&& e matches AuthError::BadParameter { param: p } && p@ == query_tokens(line)[i]
            }
    }
}

/// Splits the request line `METHOD SP PATH SP VERSION`, then the path on `?`,
/// then the query on `&` and each token on `=`, and returns the key/value
/// pairs in query order; any shape violation is the error
/// `parse_error_for` describes.
pub fn extract_parameters_from_path(first_line: &String) -> (r: Result<
    Vec<(String, String)>,
    AuthError,
>)
    ensures
        r is Ok <==> wf_line(first_line@),
        r matches Ok(ps) ==> {
            &&& ps@.len() == params_of(first_line@).len()
            &&& forall|k: int|
                0 <= k < ps@.len() ==> (#[trigger] ps@[k]).0@ == params_of(first_line@)[k].0
                    && ps@[k].1@ == params_of(first_line@)[k].1
        },
        r matches Err(e) ==> parse_error_for(e, first_line@),
{
    let chunks = split_str(first_line.as_str(), ' ');
    if chunks.len() != 3 {
        return Err(AuthError::BadRequestLine { line: first_line.clone() });
    }
    let path = &chunks[1];
    let parts = split_str(path.as_str(), '?');
    if parts.len() != 2 {
        return Err(AuthError::BadPath { path: path.clone() });
    }
    let tokens = split_str(parts[1].as_str(), '&');
    let mut params: Vec<(String, String)> = Vec::new();
    let mut i: usize = 0;
    while i < tokens.len()
        invariant
            i <= tokens@.len(),
            line_chunks(first_line@).len() == 3,
            path_parts(first_line@).len() == 2,
            tokens@.len() == query_tokens(first_line@).len(),
            forall|k: int| 0 <= k < tokens@.len() ==> tokens@[k]@ == query_tokens(first_line@)[k],
            forall|k: int| 0 <= k < i ==> token_ok(#[trigger] query_tokens(first_line@)[k]),
            params@.len() == i,
            forall|k: int|
                0 <= k < i ==> (#[trigger] params@[k]).0@ == param_of(query_tokens(first_line@)[k]).0
                    && params@[k].1@ == param_of(query_tokens(first_line@)[k]).1,
        decreases tokens@.len() - i,
    {
        let kv = split_str(tokens[i].as_str(), '=');
        if kv.len() != 2 {
            let param = tokens[i].clone();
            proof {
                assert(!token_ok(query_tokens(first_line@)[i as int]));
            }
            return Err(AuthError::BadParameter { param });
        }
        let key = kv[0].clone();
        let value = kv[1].clone();
        params.push((key, value));
        i = i + 1;
    }
    proof {
        assert(params@.len() == params_of(first_line@).len());
    }
    Ok(params)
}

/// The value bound to `key` among `params`, later pairs shadowing earlier
/// ones with the same key.
pub open spec fn lookup_param(params: Seq<(Seq<char>, Seq<char>)>, key: Seq<char>) -> Option<
    Seq<char>,
>
    decreases params.len(),
{
    if params.len() == 0 {
        None
    } else if params.last().0 == key {
        Some(params.last().1)
    } else {
        lookup_param(params.drop_last(), key)
    }
}

/// Finds the value bound to `key`, the latest pair winning, as `lookup_param`
/// says.
pub fn find_param(params: &Vec<(String, String)>, key: &String) -> (r: Option<String>)
    ensures
        match r {
            Some(v) => lookup_param(view_params(params@), key@) == Some(v@),
            None => lookup_param(view_params(params@), key@) is None,
        },
{
    let ghost all = view_params(params@);
    let mut i: usize = params.len();
    proof {
        assert(all.take(i as int) =~= all);
    }
    while i > 0
        invariant
            i <= params@.len(),
            all == view_params(params@),
            all.len() == params@.len(),
            forall|k: int|
                0 <= k < all.len() ==> (#[trigger] all[k]).0 == params@[k].0@ && all[k].1
                    == params@[k].1@,
            lookup_param(all, key@) == lookup_param(all.take(i as int), key@),
        decreases i,
    {
        proof {
            assert(all.take(i as int).last() == all[i - 1]);
            assert(all.take(i as int).drop_last() =~= all.take(i - 1));
        }
        if params[i - 1].0.eq(key) {
            return Some(params[i - 1].1.clone());
        }
        i = i - 1;
    }
    proof {
        assert(all.take(0) =~= Seq::<(Seq<char>, Seq<char>)>::empty());
    }
    None
}

/// The pairs a vector of string pairs denotes.
pub open spec fn view_params(params: Seq<(String, String)>) -> Seq<(Seq<char>, Seq<char>)> {
    params.map_values(|p: (String, String)| (p.0@, p.1@))
}

/// Whether a request line yields both required parameters.
pub open spec fn parse_ok(line: Seq<char>) -> bool {
    &&& wf_line(line)
    &&& lookup_param(params_of(line), "code"@) is Some
    &&& lookup_param(params_of(line), "state"@) is Some
}

/// The `code` value of a parsed line.
pub open spec fn parsed_code(line: Seq<char>) -> Seq<char> {
    lookup_param(params_of(line), "code"@)->Some_0
}

/// The `state` value of a parsed line.
pub open spec fn parsed_state(line: Seq<char>) -> Seq<char> {
    lookup_param(params_of(line), "state"@)->Some_0
}

/// Which error a redirect request line earns: a parse error as
/// `parse_error_for` says, a missing `code`, or a missing `state`.
pub open spec fn redirect_error_for(e: AuthError, line: Seq<char>) -> bool {
    if !wf_line(line) {
        parse_error_for(e, line)
    } else if lookup_param(params_of(line), "code"@) is None {
        e matches AuthError::MissingCode { line: l } && l@ == line
    } else {
        e matches AuthError::MissingState { line: l } && l@ == line
    }
}

/// Parses one captured redirect request line into its `code` and `state`
/// parameters; fails exactly when the line is malformed or either parameter
/// is absent, with the cause `redirect_error_for` names.
pub fn parse_redirect(line: &String) -> (r: Result<CodeResponse, AuthError>)
    ensures
        r is Ok <==> parse_ok(line@),
        r matches Ok(c) ==> c.code@ == parsed_code(line@) && c.state@ == parsed_state(line@),
        r matches Err(e) ==> redirect_error_for(e, line@),
{
    let params = match extract_parameters_from_path(line) {
        Ok(ps) => ps,
        Err(e) => { return Err(e); },
    };
    proof {
        assert(view_params(params@) =~~= params_of(line@));
    }
    let code_key: String = "code".to_owned();
    let state_key: String = "state".to_owned();
    let code = match find_param(&params, &code_key) {
        Some(c) => c,
        None => { return Err(AuthError::MissingCode { line: line.clone() }); },
    };
    let state = match find_param(&params, &state_key) {
        Some(s) => s,
        None => { return Err(AuthError::MissingState { line: line.clone() }); },
    };
    Ok(CodeResponse { code, state })
}

} // verus!
