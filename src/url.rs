//! Base URLs and the endpoints joined onto them.

use vstd::prelude::*;
use vstd::string::StringExecFns;

verus! {

/// The serialization of the URL that a text parses to, if it parses.
pub uninterp spec fn url_parse_of(text: Seq<char>) -> Option<Seq<char>>;

/// The serialization of `input` resolved against the URL `base`, if both parse.
pub uninterp spec fn url_join_of(base: Seq<char>, input: Seq<char>) -> Option<Seq<char>>;

/// The host of the URL that a text parses to, if it parses and has one.
pub uninterp spec fn url_host_of(url: Seq<char>) -> Option<Seq<char>>;

/// The text of an optional string.
pub open spec fn opt_text(o: Option<String>) -> Option<Seq<char>> {
    match o {
        Some(s) => Some(s@),
        None => None,
    }
}

/// Relies on `url::Url::parse` (reached as `reqwest::Url`) and `Url::as_str`:
/// the serialized URL, or nothing where the text is no URL.
#[verifier::external_body]
fn parse_url(text: &str) -> (r: Option<String>)
    ensures
        opt_text(r) == url_parse_of(text@),
{
    match reqwest::Url::parse(text) {
        Ok(u) => Some(u.as_str().to_string()),
        Err(_) => None,
    }
}

/// Relies on `url::Url::join`: `input` resolved against the URL that `base`
/// parses to, serialized; nothing where either fails to parse.
#[verifier::external_body]
fn join_url(base: &str, input: &str) -> (r: Option<String>)
    ensures
        opt_text(r) == url_join_of(base@, input@),
{
    match reqwest::Url::parse(base) {
        Ok(b) => match b.join(input) {
            Ok(u) => Some(u.as_str().to_string()),
            Err(_) => None,
        },
        Err(_) => None,
    }
}

/// Relies on `url::Url::host_str`: the host of the URL that `url` parses to,
/// if it parses and has one.
#[verifier::external_body]
fn url_host(url: &str) -> (r: Option<String>)
    ensures
        opt_text(r) == url_host_of(url@),
{
    match reqwest::Url::parse(url) {
        Ok(u) => match u.host_str() {
            Some(h) => Some(h.to_string()),
            None => None,
        },
        Err(_) => None,
    }
}

/// `{scheme}://{host}`.
pub open spec fn base_url_text(scheme: Seq<char>, host: Seq<char>) -> Seq<char> {
    scheme + "://"@ + host
}

/// A base URL that parsed, kept in its serialized form.
#[derive(Debug, Clone)]
pub struct ApiURL {
    url: String,
}

impl ApiURL {
    /// The serialized URL.
    pub closed spec fn spec_url(&self) -> Seq<char> {
        self.url@
    }

    /// Parses `{scheme}://{host}`; nothing where that is no URL.
    pub fn new(scheme: &str, host: &str) -> (r: Option<Self>)
        ensures
            url_parse_of(base_url_text(scheme@, host@)) is None <==> r is None,
            r matches Some(u) ==> Some(u.spec_url()) == url_parse_of(
                base_url_text(scheme@, host@),
            ),
    {
        let mut text = String::from_str(scheme);
        text.append("://");
        text.append(host);
        assert(text@ =~= base_url_text(scheme@, host@));
        match parse_url(text.as_str()) {
            Some(url) => Some(ApiURL { url }),
            None => None,
        }
    }

    pub fn as_str(&self) -> (r: &str)
        ensures
            r@ == self.spec_url(),
    {
        self.url.as_str()
    }

    /// `input` resolved against this URL.
    pub fn join(&self, input: &str) -> (r: Option<String>)
        ensures
            opt_text(r) == url_join_of(self.spec_url(), input@),
    {
        join_url(self.url.as_str(), input)
    }

    /// The host of this URL, if it has one.
    pub fn host_str(&self) -> (r: Option<String>)
        ensures
            opt_text(r) == url_host_of(self.spec_url()),
    {
        url_host(self.url.as_str())
    }
}

} // verus!
