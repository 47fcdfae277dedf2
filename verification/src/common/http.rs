//! The headers of the requests to the GitHub API.

use vstd::prelude::*;
use crate::params::{HEADER_ACCEPT, X_GIT_HUB_API_VERSION};

verus! {

/// One HTTP header, name and value.
#[derive(Debug, Clone)]
pub struct HttpHeader {
    pub name: String,
    pub value: String,
}

impl View for HttpHeader {
    type V = (Seq<char>, Seq<char>);

    open spec fn view(&self) -> (Seq<char>, Seq<char>) {
        (self.name@, self.value@)
    }
}

/// The model of a list of headers: its (name, value) pairs in order.
pub open spec fn headers_view(headers: Seq<HttpHeader>) -> Seq<(Seq<char>, Seq<char>)> {
    headers.map_values(|h: HttpHeader| h@)
}

/// A header with the given name and value.
pub fn header(name: &str, value: &str) -> (h: HttpHeader)
    ensures
        h@ == (name@, value@),
{
    HttpHeader { name: String::from_str(name), value: String::from_str(value) }
}

/// Whether `c` may stand in an HTTP header value: a tab, or any character
/// from U+0020 on but DEL.
pub open spec fn header_value_char_ok(c: char) -> bool {
    ((c as u32) >= 32 && (c as u32) != 127) || c == '\t'
}

/// Whether `s` is accepted as an HTTP header value.
pub open spec fn header_value_ok(s: Seq<char>) -> bool {
    forall|i: int| 0 <= i < s.len() ==> header_value_char_ok(#[trigger] s[i])
}

/// Asks `reqwest::header::HeaderValue::from_str` (the `FromStr` of the
/// header value) whether `s` is a valid header value.
///
/// Its source (`http::header::value`) accepts exactly the strings whose
/// UTF-8 bytes are all a tab or at least 32 and not 127; every byte of a
/// non-ASCII character is at least 128, so that is [`header_value_ok`].
#[verifier::external_body]
fn header_value_parses(s: &str) -> (ok: bool)
    ensures
        ok == header_value_ok(s@),
{
    s.parse::<reqwest::header::HeaderValue>().is_ok()
}

/// Why the GitHub API headers could not be built.
#[derive(Debug, Clone, Copy, PartialEq, Eq, Structural)]
pub enum HeaderError {
    /// The authorization token is not a valid header value.
    InvalidToken,
}

impl HeaderError {
    /// The text of the error.
    pub fn message(&self) -> (m: String)
        ensures
            m@ == "cannot parse the given token to header value"@,
    {
        String::from_str("cannot parse the given token to header value")
    }
}

/// The headers sent with every GitHub API request, for the token `token`.
pub open spec fn github_api_headers(token: Seq<char>) -> Seq<(Seq<char>, Seq<char>)> {
    seq![
        ("X-GitHub-Api-Version"@, X_GIT_HUB_API_VERSION@),
        ("accept"@, HEADER_ACCEPT@),
        ("authorization"@, token),
    ]
}

/// Builds the GitHub API headers: the API version, the accepted media type
/// and the token as `Authorization`. Fails exactly when the token is not a
/// valid header value.
pub fn get_github_api_headers(token: String) -> (res: Result<Vec<HttpHeader>, HeaderError>)
    ensures
        res is Ok <==> header_value_ok(token@),
        res matches Ok(headers) ==> headers_view(headers@) == github_api_headers(token@),
        res matches Ok(h) ==> h@.len() == 3 && h@[2]@ == ("authorization"@, token@),
        res matches Err(e) ==> e == HeaderError::InvalidToken,
{
    if !header_value_parses(token.as_str()) {
        return Err(HeaderError::InvalidToken);
    }
    let mut headers: Vec<HttpHeader> = Vec::new();
    headers.push(header("X-GitHub-Api-Version", X_GIT_HUB_API_VERSION));
    headers.push(header("accept", HEADER_ACCEPT));
    headers.push(HttpHeader { name: String::from_str("authorization"), value: token });
    assert(headers_view(headers@) =~= github_api_headers(token@));
    Ok(headers)
}

/// The GitHub API headers are the API version, the accepted media type and
/// the token, whole and unchanged, as `Authorization`, whatever the token:
/// each header is fixed by its position, and the last one's value is the token.
pub proof fn lemma_github_headers_carry_the_token(token: Seq<char>)
    ensures
        github_api_headers(token).len() == 3,
        github_api_headers(token)[0] == ("X-GitHub-Api-Version"@, X_GIT_HUB_API_VERSION@),
        github_api_headers(token)[1] == ("accept"@, HEADER_ACCEPT@),
        github_api_headers(token)[2] == ("authorization"@, token),
        forall|t1: Seq<char>, t2: Seq<char>|
            #[trigger] github_api_headers(t1) == #[trigger] github_api_headers(t2) ==> t1 == t2,
{
    assert forall|t1: Seq<char>, t2: Seq<char>|
        #[trigger] github_api_headers(t1) == #[trigger] github_api_headers(t2) implies t1 == t2 by {
        assert(github_api_headers(t1)[2] == ("authorization"@, t1));
        assert(github_api_headers(t2)[2] == ("authorization"@, t2));
    }
}

} // verus!
