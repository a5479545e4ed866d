//! A cache of pages that names each file after the hash of its URL.

use crate::path::{append_extension, join, joined, with_extension};
use crate::services::http::{
    canonical_reason, fetch_for, is_success, reason_text, Fetch, HTML_EXTENSION,
};
use crate::text::{decimal_chars, digits, push_str, string_from_chars};
use crate::web::{Url, UrlView};
use sha2::Digest;
use vstd::prelude::*;
use vstd::utf8::encode_utf8;

verus! {

/// The SHA-256 digest of the bytes, in lower-case hexadecimal digits.
pub uninterp spec fn sha256_hex(bytes: Seq<u8>) -> Seq<char>;

/// `sha2::Sha256`: the digest of the UTF-8 bytes of `text` (`Digest::update`,
/// `Digest::finalize`), written in lower-case hexadecimal digits.
#[verifier::external_body]
pub(crate) fn hash_text(text: &str) -> (hash: String)
    ensures
        hash@ == sha256_hex(encode_utf8(text@)),
{
    let mut hasher = sha2::Sha256::new();
    hasher.update(text);
    format!("{:x}", hasher.finalize())
}

/// A client whose cache lies under `cache_dir`, one directory for each domain.
#[derive(Debug)]
pub struct Client {
    pub cache_dir: String,
}

/// What went wrong with a page.
#[derive(Debug)]
pub enum ClientError {
    /// The server answered with a status that is no success.
    Status(u16),
    /// The request could not be made.
    Network(String),
    /// A file of the cache could not be read or written.
    Io(String),
    /// The text is no URL.
    InvalidUrl(String),
}

/// What a `ClientError` holds, as mathematical values.
pub enum ClientErrorView {
    Status(u16),
    Network(Seq<char>),
    Io(Seq<char>),
    InvalidUrl(Seq<char>),
}

impl View for ClientError {
    type V = ClientErrorView;

    open spec fn view(&self) -> ClientErrorView {
        match self {
            ClientError::Status(number) => ClientErrorView::Status(*number),
            ClientError::Network(cause) => ClientErrorView::Network(cause@),
            ClientError::Io(cause) => ClientErrorView::Io(cause@),
            ClientError::InvalidUrl(text) => ClientErrorView::InvalidUrl(text@),
        }
    }
}

/// What the user reads of a `ClientError`: a status is written as its number,
/// followed by a space and its usual reason where it is a status code.
pub open spec fn client_error_message(error: ClientErrorView) -> Seq<char> {
    match error {
        ClientErrorView::Status(number) => if 100 <= number < 1000 {
            digits(number as nat) + " "@ + reason_text(number)
        } else {
            digits(number as nat)
        },
        ClientErrorView::Network(cause) => cause,
        ClientErrorView::Io(cause) => cause,
        ClientErrorView::InvalidUrl(text) => text,
    }
}

impl ClientError {
    /// Writes the error out for the user.
    pub fn message(&self) -> (text: String)
        ensures
            text@ == client_error_message(self@),
    {
        match self {
            ClientError::Status(number) => {
                let mut out = decimal_chars(*number as u64);
                if 100 <= *number && *number < 1000 {
                    push_str(&mut out, " ");
                    push_str(&mut out, canonical_reason(*number).as_str());
                }
                string_from_chars(&out)
            },
            ClientError::Network(cause) => cause.clone(),
            ClientError::Io(cause) => cause.clone(),
            ClientError::InvalidUrl(text) => text.clone(),
        }
    }
}

/// The place of a page in the cache: below the directory of its domain, the
/// hash of its address, with the extension of its path or else `html`.
pub open spec fn hashed_path(cache_dir: Seq<char>, url: UrlView) -> Seq<char> {
    let domain = match url.domain {
        Some(d) => d,
        None => "unknown"@,
    };
    let extension = match Url::file_name(url) {
        Some(name) => match crate::path::extension_of(name) {
            Some(e) => e,
            None => HTML_EXTENSION@,
        },
        None => HTML_EXTENSION@,
    };
    with_extension(
        joined(joined(cache_dir, domain), sha256_hex(encode_utf8(url.text))),
        extension,
    )
}

impl Client {
    /// The place of a page in the cache.
    pub fn get_cache_path(&self, url: &Url) -> (path: String)
        ensures
            path@ == hashed_path(self.cache_dir@, url@),
    {
        let hash = hash_text(url.as_str());
        let in_domain = match &url.domain {
            Some(domain) => join(self.cache_dir.as_str(), domain.as_str()),
            None => join(self.cache_dir.as_str(), "unknown"),
        };
        let extension = match url.get_extension() {
            Some(e) => e,
            None => HTML_EXTENSION.to_owned(),
        };
        append_extension(join(in_domain.as_str(), hash.as_str()).as_str(), extension.as_str())
    }

    /// Decides a `get`: the page is taken from the cache where its file
    /// exists, and requested where it does not.
    pub fn get(&self, url: &Url, exists: bool) -> (fetch: Fetch)
        ensures
            fetch@ == fetch_for(hashed_path(self.cache_dir@, url@), exists),
    {
        let path = self.get_cache_path(url);
        if exists {
            Fetch::Hit(path)
        } else {
            Fetch::Miss(path)
        }
    }

    /// Judges the status of a response: only a success is written to the cache.
    pub fn download_to_cache(status: u16) -> (checked: Result<(), ClientError>)
        ensures
            is_success(status) ==> checked is Ok,
            !is_success(status) ==> (checked matches Err(ClientError::Status(s)) && s == status),
    {
        if 200 <= status && status < 300 {
            Ok(())
        } else {
            Err(ClientError::Status(status))
        }
    }
}

} // verus!
