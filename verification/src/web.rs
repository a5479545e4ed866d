//! Web addresses: the parts of a URL that the cache and the discovery read,
//! held as plain text.

use crate::text::{opt_text, texts};
use vstd::prelude::*;

verus! {

/// The normal form in which the URL parser writes `input` back, if `input` is a URL.
pub uninterp spec fn url_text(input: Seq<char>) -> Option<Seq<char>>;

/// The host of the URL `input`, as text, if `input` is a URL and has a host.
pub uninterp spec fn url_host(input: Seq<char>) -> Option<Seq<char>>;

/// The host of the URL `input`, if `input` is a URL and its host is a domain name.
pub uninterp spec fn url_domain(input: Seq<char>) -> Option<Seq<char>>;

/// The segments of the path of the URL `input`, if `input` is a URL that can be a base.
pub uninterp spec fn url_segments(input: Seq<char>) -> Option<Seq<Seq<char>>>;

/// The query of the URL `input`, if `input` is a URL and has one.
pub uninterp spec fn url_query(input: Seq<char>) -> Option<Seq<char>>;

/// Whether percent-encoding leaves the byte as it is: an ASCII letter or digit,
/// or one of `-`, `.`, `_`, `~`.
pub open spec fn is_unreserved(b: u8) -> bool {
    ||| 0x30 <= b <= 0x39
    ||| 0x41 <= b <= 0x5a
    ||| 0x61 <= b <= 0x7a
    ||| b == 0x2d
    ||| b == 0x2e
    ||| b == 0x5f
    ||| b == 0x7e
}

/// The upper-case hexadecimal digit of `d`.
pub open spec fn hex_upper(d: int) -> char
    recommends
        0 <= d < 16,
{
    if d < 10 {
        ((0x30 + d) as u8) as char
    } else {
        ((0x41 + d - 10) as u8) as char
    }
}

/// One byte, percent-encoded: itself where it is unreserved, else `%` and its
/// two hexadecimal digits.
pub open spec fn encoded_byte(b: u8) -> Seq<char> {
    if is_unreserved(b) {
        seq![b as char]
    } else {
        seq!['%', hex_upper(b as int / 16), hex_upper(b as int % 16)]
    }
}

/// The bytes, percent-encoded one by one.
pub open spec fn percent_encoded(bytes: Seq<u8>) -> Seq<char>
    decreases bytes.len(),
{
    if bytes.len() == 0 {
        Seq::empty()
    } else {
        encoded_byte(bytes[0]) + percent_encoded(bytes.drop_first())
    }
}

/// `urlencoding::encode`: the UTF-8 bytes of `text`, each percent-encoded
/// unless it is an ASCII letter or digit or one of `-`, `.`, `_`, `~`; the
/// hexadecimal digits are upper case.
#[verifier::external_body]
pub(crate) fn percent_encode(text: &str) -> (out: String)
    ensures
        out@ == percent_encoded(vstd::utf8::encode_utf8(text@)),
{
    urlencoding::encode(text).into_owned()
}

/// The normal form of the URL that the reference `relative` names when it is
/// resolved against the URL `base`; `None` where `base` is no URL or the
/// reference cannot be resolved.
pub uninterp spec fn url_joined(base: Seq<char>, relative: Seq<char>) -> Option<Seq<char>>;

/// A parsed web address.
#[derive(Debug)]
pub struct Url {
    /// The whole address in normal form.
    pub text: String,
    /// The host: a domain name or an IP address.
    pub host: Option<String>,
    /// The host, where it is a domain name.
    pub domain: Option<String>,
    /// The segments of the path; `None` for an address that cannot be a base.
    pub segments: Option<Vec<String>>,
    /// The query, without its question mark.
    pub query: Option<String>,
}

/// What a `Url` holds, as mathematical values.
pub struct UrlView {
    pub text: Seq<char>,
    pub host: Option<Seq<char>>,
    pub domain: Option<Seq<char>>,
    pub segments: Option<Seq<Seq<char>>>,
    pub query: Option<Seq<char>>,
}

impl View for Url {
    type V = UrlView;

    open spec fn view(&self) -> UrlView {
        UrlView {
            text: self.text@,
            host: opt_text(self.host),
            domain: opt_text(self.domain),
            segments: match self.segments {
                Some(s) => Some(texts(s@)),
                None => None,
            },
            query: opt_text(self.query),
        }
    }
}

/// The parts of the URL `input`, if it is one.
pub open spec fn parsed(input: Seq<char>) -> Option<UrlView> {
    match url_text(input) {
        Some(text) => Some(
            UrlView {
                text,
                host: url_host(input),
                domain: url_domain(input),
                segments: url_segments(input),
                query: url_query(input),
            },
        ),
        None => None,
    }
}

/// The view of an optional `Url`.
pub open spec fn opt_url(url: Option<Url>) -> Option<UrlView> {
    match url {
        Some(u) => Some(u@),
        None => None,
    }
}

/// `url::Url::as_str` on the parsed `input`: the parser's serialization of the
/// URL, or `None` where `url::Url::parse` rejects `input`.
#[verifier::external_body]
fn parse_text(input: &str) -> (out: Option<String>)
    ensures
        opt_text(out) == url_text(input@),
{
    Some(url::Url::parse(input).ok()?.as_str().to_owned())
}

/// `url::Url::host_str` on the parsed `input`: the host as text, or `None` where
/// the URL has none or `input` does not parse.
#[verifier::external_body]
fn parse_host(input: &str) -> (out: Option<String>)
    ensures
        opt_text(out) == url_host(input@),
{
    url::Url::parse(input).ok()?.host_str().map(str::to_owned)
}

/// `url::Url::domain` on the parsed `input`: the host where it is a domain
/// name, or `None` where it is an IP address or absent, or `input` does not parse.
#[verifier::external_body]
fn parse_domain(input: &str) -> (out: Option<String>)
    ensures
        opt_text(out) == url_domain(input@),
{
    url::Url::parse(input).ok()?.domain().map(str::to_owned)
}

/// `url::Url::path_segments` on the parsed `input`: the path's segments in
/// order, or `None` where the URL cannot be a base or `input` does not parse.
#[verifier::external_body]
fn parse_segments(input: &str) -> (out: Option<Vec<String>>)
    ensures
        match out {
            Some(s) => url_segments(input@) == Some(texts(s@)),
            None => url_segments(input@) is None,
        },
{
    let url = url::Url::parse(input).ok()?;
    Some(url.path_segments()?.map(str::to_owned).collect())
}

/// `url::Url::query` on the parsed `input`: the query without its question
/// mark, or `None` where the URL has none or `input` does not parse.
#[verifier::external_body]
fn parse_query(input: &str) -> (out: Option<String>)
    ensures
        opt_text(out) == url_query(input@),
{
    url::Url::parse(input).ok()?.query().map(str::to_owned)
}

/// `url::Url::join` on the parsed `base`, written back with
/// `url::Url::as_str`; `None` where `url::Url::parse` rejects `base` or `join`
/// returns an error.
#[verifier::external_body]
fn join_text(base: &str, relative: &str) -> (out: Option<String>)
    ensures
        opt_text(out) == url_joined(base@, relative@),
{
    Some(url::Url::parse(base).ok()?.join(relative).ok()?.as_str().to_owned())
}

impl Url {
    /// The URL that `relative` names when it is resolved against this one.
    pub open spec fn joined(view: UrlView, relative: Seq<char>) -> Option<UrlView> {
        match url_joined(view.text, relative) {
            Some(text) => parsed(text),
            None => None,
        }
    }

    /// Resolves `relative` against this URL. `None` where that cannot be done.
    pub fn join(&self, relative: &str) -> (url: Option<Url>)
        ensures
            opt_url(url) == Self::joined(self@, relative@),
    {
        match join_text(self.text.as_str(), relative) {
            Some(text) => Url::parse(text.as_str()),
            None => None,
        }
    }

    /// Parses `input`. Returns `None` exactly where `input` is no URL.
    pub fn parse(input: &str) -> (url: Option<Url>)
        ensures
            opt_url(url) == parsed(input@),
    {
        match parse_text(input) {
            None => None,
            Some(text) => Some(
                Url {
                    text,
                    host: parse_host(input),
                    domain: parse_domain(input),
                    segments: parse_segments(input),
                    query: parse_query(input),
                },
            ),
        }
    }

    /// The whole address in normal form.
    pub fn as_str(&self) -> (text: &str)
        ensures
            text@ == self@.text,
    {
        self.text.as_str()
    }

    /// A copy of this address.
    pub fn duplicate(&self) -> (copy: Url)
        ensures
            copy@ == self@,
    {
        let segments = match &self.segments {
            Some(s) => Some(s.clone()),
            None => None,
        };
        Url {
            text: self.text.clone(),
            host: self.host.clone(),
            domain: self.domain.clone(),
            segments,
            query: self.query.clone(),
        }
    }

    /// The last segment of the path, if the path has segments.
    pub open spec fn file_name(view: UrlView) -> Option<Seq<char>> {
        match view.segments {
            Some(s) => if s.len() > 0 {
                Some(s.last())
            } else {
                None
            },
            None => None,
        }
    }

    /// The file extension of the last segment of the path, if it has one.
    pub fn get_extension(&self) -> (extension: Option<String>)
        ensures
            opt_text(extension) == match Self::file_name(self@) {
                Some(name) => crate::path::extension_of(name),
                None => None,
            },
    {
        match &self.segments {
            Some(s) => {
                if s.len() > 0 {
                    crate::path::get_extension(s[s.len() - 1].as_str())
                } else {
                    None
                }
            },
            None => None,
        }
    }
}

} // verus!
