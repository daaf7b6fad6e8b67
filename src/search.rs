//! The track search request and the decisions taken on its response.
//!
//! Sending the request and decoding the body are done by the caller; this
//! module says what is sent and what each outcome means.
use vstd::prelude::*;
use vstd::string::StringExecFns;
use crate::listing::rendered;
use crate::model::Items;

verus! {

/// The search endpoint of the catalogue's web API.
pub const SEARCH_ENDPOINT: &'static str = "https://api.spotify.com/v1/search";

/// The HTTP status of a successful search.
pub const STATUS_OK: u16 = 200;

/// The HTTP status of a request whose token was refused.
pub const STATUS_UNAUTHORIZED: u16 = 401;

/// Why a search gave no tracks.
#[derive(Clone, Copy, Debug, PartialEq, Eq, Structural)]
pub enum SearchError {
    /// The token is invalid or has expired; a new one is needed.
    Unauthorized,
    /// The body did not have the shape of a track search result.
    UnexpectedShape,
    /// The service answered with a status other than success or refusal.
    UnexpectedStatus(u16),
    /// The request or the body could not be carried over the network.
    Transport,
}

/// The value of the `Authorization` header that carries `token`.
pub open spec fn bearer_spec(token: Seq<char>) -> Seq<char> {
    "Bearer "@ + token
}

/// Builds the `Authorization` header value: the token, unchanged, after
/// `Bearer `.
pub fn bearer_value(token: &str) -> (r: String)
    ensures
        r@ == bearer_spec(token@),
{
    let mut r = String::from_str("Bearer ");
    r.append(token);
    r
}

/// The query of a search for tracks and artists matching `query`.
pub open spec fn search_params_spec(query: Seq<char>) -> Seq<(Seq<char>, Seq<char>)> {
    seq![("q"@, query), ("type"@, "track,artist"@)]
}

/// Builds the query parameters of a search for `query`, as name and value
/// pairs; encoding them into the URL is left to the HTTP client.
pub fn search_params(query: &str) -> (r: Vec<(String, String)>)
    ensures
        r@.len() == 2,
        forall|i: int| 0 <= i < 2 ==> (#[trigger] r@[i]).0@ == search_params_spec(query@)[i].0
            && r@[i].1@ == search_params_spec(query@)[i].1,
{
    let mut r: Vec<(String, String)> = Vec::new();
    r.push((String::from_str("q"), String::from_str(query)));
    r.push((String::from_str("type"), String::from_str("track,artist")));
    r
}

/// What a response with `status` means before its body is read.
pub open spec fn status_outcome(status: u16) -> Result<(), SearchError> {
    if status == STATUS_OK {
        Ok(())
    } else if status == STATUS_UNAUTHORIZED {
        Err(SearchError::Unauthorized)
    } else {
        Err(SearchError::UnexpectedStatus(status))
    }
}

/// Decides on a response's status: only success goes on to read the body.
pub fn check_status(status: u16) -> (r: Result<(), SearchError>)
    ensures
        r == status_outcome(status),
{
    if status == STATUS_OK {
        Ok(())
    } else if status == STATUS_UNAUTHORIZED {
        Err(SearchError::Unauthorized)
    } else {
        Err(SearchError::UnexpectedStatus(status))
    }
}

/// The result of a search whose response had `status` and whose body
/// decoded to `decoded`.
pub open spec fn response_outcome(status: u16, decoded: Option<Items>) -> Result<Items, SearchError> {
    match status_outcome(status) {
        Err(e) => Err(e),
        Ok(_) => match decoded {
            Some(items) => Ok(items),
            None => Err(SearchError::UnexpectedShape),
        },
    }
}

/// Decides the result of a search from the response's status and its body
/// decoded as a search result (`None` where the body had another shape).
/// The tracks come back exactly as decoded, in order.
pub fn interpret_response(status: u16, decoded: Option<Items>) -> (r: Result<Items, SearchError>)
    ensures
        r == response_outcome(status, decoded),
{
    match check_status(status) {
        Err(e) => Err(e),
        Ok(()) => match decoded {
            Some(items) => Ok(items),
            None => Err(SearchError::UnexpectedShape),
        },
    }
}

/// A refused token gives `Unauthorized` whatever the body; a successful
/// response whose body has another shape gives `UnexpectedShape`; any
/// other status is reported with its code, never as tracks.
pub proof fn lemma_response_errors(status: u16, decoded: Option<Items>)
    ensures
        status == STATUS_UNAUTHORIZED ==> response_outcome(status, decoded) == Err::<Items, SearchError>(
            SearchError::Unauthorized,
        ),
        status == STATUS_OK && decoded is None ==> response_outcome(status, decoded) == Err::<
            Items,
            SearchError,
        >(SearchError::UnexpectedShape),
        status != STATUS_OK && status != STATUS_UNAUTHORIZED ==> response_outcome(status, decoded)
            == Err::<Items, SearchError>(SearchError::UnexpectedStatus(status)),
{
}

/// A successful search with no matching tracks yields no tracks, and their
/// listing is the empty text.
pub proof fn lemma_no_matches_render_empty(decoded: Items)
    requires
        decoded.items@.len() == 0,
    ensures
        response_outcome(STATUS_OK, Some(decoded)) is Ok,
        response_outcome(STATUS_OK, Some(decoded))->Ok_0.items@.len() == 0,
        rendered(response_outcome(STATUS_OK, Some(decoded))->Ok_0.items@) == Seq::<char>::empty(),
{
}

} // verus!
