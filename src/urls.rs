use vstd::prelude::*;

verus! {

/// What `url::Url::parse` makes of a text: `None` when it is no absolute URL,
/// otherwise the URL's serialization and its scheme.
pub uninterp spec fn url_parsed(s: Seq<char>) -> Option<(Seq<char>, Seq<char>)>;

/// Relies on `url::Url::parse`, handing out the parsed URL as the text of
/// `Url::as_str` (its serialization) and of `Url::scheme`.
#[verifier::external_body]
pub(crate) fn parse_url(s: &str) -> (r: Result<(String, String), url::ParseError>)
    ensures
        match r {
            Ok(p) => url_parsed(s@) == Some((p.0@, p.1@)),
            Err(_) => url_parsed(s@) is None,
        },
{
    url::Url::parse(s).map(|u| (u.as_str().to_string(), u.scheme().to_string()))
}

/// Relies on the `Display` impl of `url::ParseError` for the message that
/// describes a parse failure.
#[verifier::external_body]
pub(crate) fn parse_error_text(e: url::ParseError) -> String {
    e.to_string()
}

} // verus!
