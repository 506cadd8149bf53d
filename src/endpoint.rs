use vstd::prelude::*;

use crate::error::ApiError;

verus! {

#[verifier::external_type_specification]
#[verifier::external_body]
pub struct ExParseError(url::ParseError);

/// The service's token endpoint for the authorization-code exchange.
pub const EXCHANGE_ENDPOINT: &'static str = "https://www.strava.com/oauth/token";

/// The service's token endpoint for refresh-token renewal.
pub const REFRESH_ENDPOINT: &'static str = "https://www.strava.com/api/v3/oauth/token";

/// The list of the authenticated athlete's activities.
pub const ACTIVITIES_ENDPOINT: &'static str = "https://www.strava.com/api/v3/athlete/activities";

/// Query pairs as character sequences.
pub open spec fn pairs_view(p: Seq<(String, String)>) -> Seq<(Seq<char>, Seq<char>)> {
    p.map_values(|q: (String, String)| (q.0@, q.1@))
}

/// The serialised URL that `base` parses to, with `params` appended in order,
/// form-encoded, as its query; `None` where `base` does not parse.
pub uninterp spec fn url_with_query(base: Seq<char>, params: Seq<(Seq<char>, Seq<char>)>) -> Option<
    Seq<char>,
>;

/// Relies on `url::Url::parse_with_params` (the `Url` that reqwest re-exports):
/// it parses `base` and, where that succeeds, appends each pair to the query;
/// whether it succeeds and what it serialises to depend on the two arguments
/// alone.
#[verifier::external_body]
fn parse_with_params(base: &str, params: &Vec<(String, String)>) -> (r: Result<
    String,
    url::ParseError,
>)
    ensures
        match url_with_query(base@, pairs_view(params@)) {
            Some(u) => r matches Ok(s) && s@ == u,
            None => r is Err,
        },
{
    match url::Url::parse_with_params(base, params.iter()) {
        Ok(u) => Ok(String::from(u)),
        Err(e) => Err(e),
    }
}

/// The URL of `base` with `params` as its query; a base that does not parse
/// is a configuration error.
pub fn url_for(base: &str, params: &Vec<(String, String)>) -> (r: Result<String, ApiError>)
    ensures
        match url_with_query(base@, pairs_view(params@)) {
            Some(u) => r matches Ok(s) && s@ == u,
            None => r == Err::<String, ApiError>(ApiError::Config),
        },
{
    match parse_with_params(base, params) {
        Ok(u) => Ok(u),
        Err(_) => Err(ApiError::Config),
    }
}

} // verus!
