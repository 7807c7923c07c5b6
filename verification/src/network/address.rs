use vstd::prelude::*;

verus! {

/// The serialization of the URL that `url::Url::parse` makes of `text`, or
/// `None` where it refuses `text`.
pub uninterp spec fn parsed_url(text: Seq<char>) -> Option<Seq<char>>;

/// The serialization of the URL serialized as `url` after
/// `url::Url::set_path(path)`, or `None` where `url` does not parse.
pub uninterp spec fn url_with_path(url: Seq<char>, path: Seq<char>) -> Option<Seq<char>>;

/// The serialization of the URL serialized as `url` after
/// `url::Url::set_query(Some(query))`, or `None` where `url` does not parse.
pub uninterp spec fn url_with_query(url: Seq<char>, query: Seq<char>) -> Option<Seq<char>>;

pub open spec fn text_of(s: Option<String>) -> Option<Seq<char>> {
    match s {
        Some(t) => Some(t@),
        None => None,
    }
}

/// Parses `text` with `url::Url::parse` and hands back the URL's
/// serialization (`Url::as_str`), or `None` where parsing fails. The result is
/// named by `parsed_url`; nothing more of URL syntax is claimed.
#[verifier::external_body]
pub(crate) fn parse_url(text: &str) -> (r: Option<String>)
    ensures
        text_of(r) == parsed_url(text@),
{
    match url::Url::parse(text) {
        Ok(u) => Some(u.as_str().to_string()),
        Err(_) => None,
    }
}

/// Parses `url`, replaces its path with `url::Url::set_path(path)` and hands
/// back the new serialization; `None` where `url` does not parse. The result
/// is named by `url_with_path`; the contract adds only that it is `None`
/// exactly where parsing `url` fails, as the body shows.
#[verifier::external_body]
pub(crate) fn set_url_path(url: &str, path: &str) -> (r: Option<String>)
    ensures
        text_of(r) == url_with_path(url@, path@),
        r is None <==> parsed_url(url@) is None,
{
    match url::Url::parse(url) {
        Ok(mut u) => {
            u.set_path(path);
            Some(u.as_str().to_string())
        },
        Err(_) => None,
    }
}

/// Parses `url`, replaces its query with `url::Url::set_query(Some(query))`
/// and hands back the new serialization; `None` where `url` does not parse.
/// The result is named by `url_with_query`; the contract adds only that it is
/// `None` exactly where parsing `url` fails, as the body shows.
#[verifier::external_body]
pub(crate) fn set_url_query(url: &str, query: &str) -> (r: Option<String>)
    ensures
        text_of(r) == url_with_query(url@, query@),
        r is None <==> parsed_url(url@) is None,
{
    match url::Url::parse(url) {
        Ok(mut u) => {
            u.set_query(Some(query));
            Some(u.as_str().to_string())
        },
        Err(_) => None,
    }
}

/// Whether `t` is what the URL parser makes of some text: the
/// serialization of a URL.
pub open spec fn is_url_text(t: Seq<char>) -> bool {
    exists|x: Seq<char>| #[trigger] parsed_url(x) == Some(t)
}

/// A URL, kept as the serialization the URL parser made of it.
pub struct ServerUrl {
    text: String,
}

impl View for ServerUrl {
    type V = Seq<char>;

    closed spec fn view(&self) -> Seq<char> {
        self.text@
    }
}

impl ServerUrl {
    #[verifier::type_invariant]
    spec fn came_from_the_parser(self) -> bool {
        is_url_text(self.text@)
    }

    /// The URL `text` parses to, or `None` where the URL parser refuses it.
    pub fn parse(text: &str) -> (r: Option<ServerUrl>)
        ensures
            r is None <==> parsed_url(text@) is None,
            r matches Some(u) ==> Some(u@) == parsed_url(text@),
    {
        match parse_url(text) {
            Some(t) => {
                proof {
                    assert(parsed_url(text@) == Some(t@));
                }
                Some(ServerUrl { text: t })
            },
            None => None,
        }
    }

    /// The URL's serialization, which the URL parser made.
    pub fn as_str(&self) -> (r: &str)
        ensures
            r@ == self@,
            is_url_text(r@),
    {
        proof {
            use_type_invariant(self);
        }
        self.text.as_str()
    }

    /// Whether the URL's serialization is `text`.
    pub fn has_text(&self, text: &str) -> (r: bool)
        ensures
            r == (self@ == text@),
    {
        let t = String::from_str(text);
        self.text == t
    }

    /// Whether both URLs have the same serialization.
    pub fn eq(&self, other: &ServerUrl) -> (r: bool)
        ensures
            r == (self@ == other@),
    {
        self.text == other.text
    }
}

impl Clone for ServerUrl {
    fn clone(&self) -> (r: ServerUrl)
        ensures
            r@ == self@,
    {
        proof {
            use_type_invariant(self);
        }
        ServerUrl { text: self.text.clone() }
    }
}

} // verus!
