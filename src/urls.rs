//! URL operations, carried out by the `url` crate.

use vstd::prelude::*;

verus! {

/// Whether the text is accepted by `url::Url::parse`.
pub uninterp spec fn url_parses(s: Seq<char>) -> bool;

/// The serialization of `href` resolved against the parsed `base`, if both succeed.
pub uninterp spec fn url_join_of(base: Seq<char>, href: Seq<char>) -> Option<Seq<char>>;

/// The host of the parsed URL (`None` inside where it has none), if parsing succeeds.
pub uninterp spec fn url_host_of(s: Seq<char>) -> Option<Option<Seq<char>>>;

/// Relies on `url::Url::parse`: whether the text parses is a function of the text.
#[verifier::external_body]
pub(crate) fn url_check(s: &str) -> (r: Result<(), url::ParseError>)
    ensures
        r is Ok <==> url_parses(s@),
{
    url::Url::parse(s).map(|_| ())
}

/// Relies on `url::Url::join` applied to `url::Url::parse(base)`, with the result
/// serialized by `From<Url> for String`.
#[verifier::external_body]
pub(crate) fn url_join(base: &str, href: &str) -> (r: Result<String, url::ParseError>)
    ensures
        r is Ok <==> url_join_of(base@, href@) is Some,
        r matches Ok(u) ==> url_join_of(base@, href@) == Some(u@),
{
    let b = url::Url::parse(base)?;
    b.join(href).map(String::from)
}

/// Relies on `url::Url::host_str` applied to `url::Url::parse(s)`.
#[verifier::external_body]
pub(crate) fn url_host(s: &str) -> (r: Result<Option<String>, url::ParseError>)
    ensures
        r is Ok <==> url_host_of(s@) is Some,
        r matches Ok(h) ==> url_host_of(s@) == Some(
            match h {
                Some(t) => Some(t@),
                None => None::<Seq<char>>,
            },
        ),
{
    let u = url::Url::parse(s)?;
    Ok(u.host_str().map(String::from))
}

} // verus!
