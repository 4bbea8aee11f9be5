//! The address of the websocket server.
use vstd::prelude::*;

verus! {

/// What `url::Url::parse` makes of a text: the serialization of the URL, or the description of the
/// parse error.
pub uninterp spec fn url_parse(input: Seq<char>) -> Result<Seq<char>, Seq<char>>;

/// Calls `url::Url::parse`, and turns the URL into its serialization and the error into its
/// description. Claims that both depend on the text alone; which texts are URLs, and how they are
/// normalized, is left to the URL standard that the function implements.
#[verifier::external_body]
pub(crate) fn parse_url(input: &str) -> (r: Result<String, String>)
    ensures
        match r {
            Ok(url) => url_parse(input@) == Ok::<Seq<char>, Seq<char>>(url@),
            Err(description) => url_parse(input@) == Err::<Seq<char>, Seq<char>>(description@),
        },
{
    match url::Url::parse(input) {
        Ok(url) => Ok(url.into()),
        Err(error) => Err(error.to_string()),
    }
}

/// An address that is not an absolute URL.
#[derive(Debug)]
pub struct AddressError {
    /// What is wrong with it.
    pub description: String,
}

} // verus!
