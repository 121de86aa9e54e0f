//! Web addresses, as the `url` crate reads them.

use vstd::prelude::*;

verus! {

/// What `Url::parse` of the `url` crate makes of a text: the serialisation of
/// the address it read, or nothing where it refuses the text.
pub uninterp spec fn url_parse(text: Seq<char>) -> Option<Seq<char>>;

/// Calls `url::Url::parse` and hands back the serialisation of the address.
///
/// Trusted: the result is a function of the text alone, named `url_parse`.
/// Nothing is claimed about which texts are accepted or how an accepted one
/// is normalised.
#[verifier::external_body]
pub(crate) fn parse_url(text: &str) -> (r: Option<String>)
    ensures
        r matches Some(u) ==> url_parse(text@) == Some(u@),
        r is None ==> url_parse(text@) is None,
{
    match url::Url::parse(text) {
        Ok(address) => Some(String::from(address)),
        Err(_) => None,
    }
}

} // verus!
