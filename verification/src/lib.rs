use vstd::prelude::*;

pub mod auth;
pub mod challenge;
pub mod digits;
pub mod errors;
pub mod http_server;
pub mod split;
pub mod tokens;

verus! {

/// A client of the downstream read-only API, holding the credential bundle
/// the authentication flow returned.
pub struct API {
    pub tokens: tokens::Tokens,
}

impl API {
    /// A client over an issued credential bundle.
    pub fn new(tokens: tokens::Tokens) -> (r: API)
        ensures
            r.tokens == tokens,
    {
        API { tokens }
    }

    /// A handle on the character resource, carrying its own copy of the
    /// credentials.
    pub fn character(&self) -> (r: Character)
        ensures
            r.tokens == self.tokens,
    {
        Character { tokens: self.tokens.duplicate() }
    }
}

/// The character resource of the downstream API.
pub struct Character {
    pub tokens: tokens::Tokens,
}

/// The downstream API's URL for one character: the fixed resource prefix
/// followed by the id in decimal.
pub open spec fn character_url_spec(id: int) -> Seq<char> {
    "https://esi.evetech.net/latest/characters/"@ + digits::int_str(id)
}

/// Builds the character resource URL exactly as `character_url_spec` lays it
/// out.
pub fn character_url(id: i32) -> (r: String)
    ensures
        r@ == character_url_spec(id as int),
{
    let mut url = "https://esi.evetech.net/latest/characters/".to_owned();
    let rendered = digits::format_i32(id);
    url.append(rendered.as_str());
    url
}

} // verus!
