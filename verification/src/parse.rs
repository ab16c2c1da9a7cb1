//! Trusted views of the outside parsers: the fields extracted from a JSON
//! response body, and the host component of a URL string. Each result is a
//! function of the input characters alone and is given a name that the
//! callers' contracts speak of exactly.

use vstd::prelude::*;

verus! {

/// The `exchange_url` and `token` strings under the top-level `result` object
/// of a registration response body, or `None` when the body does not hold
/// that shape.
pub uninterp spec fn init_fields_of(body: Seq<char>) -> Option<(Seq<char>, Seq<char>)>;

/// The `preview_token` string under the top-level `result` object of an
/// upload response body, or `None` when the body does not hold that shape.
pub uninterp spec fn preview_token_of(body: Seq<char>) -> Option<Seq<char>>;

/// The host component of a URL string, or `None` when the string is not an
/// absolute URL or its authority has no host.
pub uninterp spec fn host_of_url(url: Seq<char>) -> Option<Seq<char>>;

/// Relies on `serde_json::from_str` and `serde_json::Value::{get, as_str}`:
/// the fields extracted from a JSON document depend on its characters alone.
#[verifier::external_body]
pub(crate) fn parse_init_fields(body: &str) -> (r: Option<(String, String)>)
    ensures
        match r {
            Some(p) => init_fields_of(body@) == Some((p.0@, p.1@)),
            None => init_fields_of(body@) is None,
        },
{
    let value: serde_json::Value = match serde_json::from_str(body) {
        Ok(v) => v,
        Err(_) => return None,
    };
    let result = value.get("result")?;
    let exchange_url = result.get("exchange_url")?.as_str()?;
    let token = result.get("token")?.as_str()?;
    Some((exchange_url.to_string(), token.to_string()))
}

/// Relies on `serde_json::from_str` and `serde_json::Value::{get, as_str}`:
/// the field extracted from a JSON document depends on its characters alone.
#[verifier::external_body]
pub(crate) fn parse_preview_token(body: &str) -> (r: Option<String>)
    ensures
        match r {
            Some(t) => preview_token_of(body@) == Some(t@),
            None => preview_token_of(body@) is None,
        },
{
    let value: serde_json::Value = match serde_json::from_str(body) {
        Ok(v) => v,
        Err(_) => return None,
    };
    Some(value.get("result")?.get("preview_token")?.as_str()?.to_string())
}

/// Relies on `url::Url::parse` and `url::Url::host_str`: the host component
/// of a URL string depends on its characters alone.
#[verifier::external_body]
pub(crate) fn url_host(url: &str) -> (r: Option<String>)
    ensures
        match r {
            Some(h) => host_of_url(url@) == Some(h@),
            None => host_of_url(url@) is None,
        },
{
    match url::Url::parse(url) {
        Ok(parsed) => match parsed.host_str() {
            Some(host) => Some(host.to_string()),
            None => None,
        },
        Err(_) => None,
    }
}

} // verus!
