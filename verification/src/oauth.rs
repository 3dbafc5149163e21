//! What the login handshake hands back: the address to which the browser
//! was redirected carries the authorization code as its first query pair.

use vstd::prelude::*;

verus! {

/// The decoded value of the first query pair of `address`, as
/// `url::Url::parse` and `url::Url::query_pairs` read it; none where the
/// address is no absolute URL or has no query pair.
pub uninterp spec fn first_query_value(address: Seq<char>) -> Option<Seq<char>>;

/// Parses `address` with `url::Url::parse` and takes the value of the
/// first pair that `url::Url::query_pairs` yields.
///
/// The contract only gives the result its name: it is a function of the
/// address alone.
#[verifier::external_body]
fn read_first_query_value(address: &str) -> (value: Option<String>)
    ensures
        match value {
            Some(v) => first_query_value(address@) == Some(v@),
            None => first_query_value(address@) is None,
        },
{
    match url::Url::parse(address) {
        Ok(parsed) => parsed.query_pairs().next().map(|pair| pair.1.into_owned()),
        Err(_) => None,
    }
}

/// The authorization code that the redirect to `address` carries: the
/// value of its first query pair.
pub fn authorization_code(address: &str) -> (code: Option<String>)
    ensures
        match code {
            Some(c) => first_query_value(address@) == Some(c@),
            None => first_query_value(address@) is None,
        },
{
    read_first_query_value(address)
}

} // verus!
