use vstd::prelude::*;
use crate::urls::{parse_url, url_parsed};

verus! {

/// What a bookmark points at: a web address (held as the parsed URL's
/// serialization) or a plain title.
#[derive(Clone, Debug)]
pub enum Content {
    Title(String),
    Url(String),
}

pub open spec fn is_web_scheme(scheme: Seq<char>) -> bool {
    scheme == "https"@ || scheme == "http"@
}

/// What a text becomes once its URL parse is known: `parsed` is `None` for no
/// absolute URL, otherwise the URL's serialization and scheme.
pub open spec fn content_spec(s: Seq<char>, parsed: Option<(Seq<char>, Seq<char>)>, c: Content) -> bool {
    match parsed {
        Some(p) => if is_web_scheme(p.1) {
            c matches Content::Url(u) && u@ == p.0
        } else {
            c matches Content::Title(t) && t@ == s
        },
        None => c matches Content::Title(t) && t@ == s,
    }
}

pub open spec fn opt_pair_view(o: Option<(String, String)>) -> Option<(Seq<char>, Seq<char>)> {
    match o {
        Some(p) => Some((p.0@, p.1@)),
        None => None,
    }
}

/// Builds a bookmark's content from its text and that text's URL parse: an
/// `http` or `https` URL is kept in its parsed form, anything else as the text.
pub fn content_from_parsed(s: &str, parsed: Option<(String, String)>) -> (r: Content)
    ensures
        content_spec(s@, opt_pair_view(parsed), r),
{
    match parsed {
        Some(p) => {
            proof {
                reveal_strlit("https");
                reveal_strlit("http");
            }
            let scheme = p.1;
            if scheme == "https".to_owned() || scheme == "http".to_owned() {
                Content::Url(p.0)
            } else {
                Content::Title(s.to_owned())
            }
        },
        None => Content::Title(s.to_owned()),
    }
}

impl Content {
    /// Reads a bookmark's content: text that parses as an `http` or `https`
    /// URL is a URL, anything else is kept as a title.
    pub fn parse(s: &str) -> (r: Content)
        ensures
            content_spec(s@, url_parsed(s@), r),
    {
        let parsed = match parse_url(s) {
            Ok(p) => Some(p),
            Err(_) => None,
        };
        content_from_parsed(s, parsed)
    }
}

impl std::str::FromStr for Content {
    type Err = std::convert::Infallible;

    fn from_str(s: &str) -> (r: Result<Content, std::convert::Infallible>)
        ensures
            r matches Ok(c) && content_spec(s@, url_parsed(s@), c),
    {
        Ok(Content::parse(s))
    }
}

} // verus!
