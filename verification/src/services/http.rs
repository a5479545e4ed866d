//! The content cache: where the answer to a request lies on disk, and what is
//! left to do for a request once the disk has been looked at.

use crate::path::{joined, push_component, with_extension};
use crate::text::{
    ascii_lower_chars, ascii_lowered, chars_of, decimal_chars, digits, opt_text, push_chars,
    push_str, string_from_chars, trim_chars, trimmed,
};
use crate::web::{percent_encode, percent_encoded, Url, UrlView};
use vstd::prelude::*;
use vstd::utf8::encode_utf8;

verus! {

/// The extension of a cached answer to a HEAD request.
pub const HEAD_EXTENSION: &'static str = "head";

/// The extension of a cached page.
pub const HTML_EXTENSION: &'static str = "html";

/// The extension of a cached JSON document.
pub const JSON_EXTENSION: &'static str = "json";

/// The extension of cached audio.
pub const MP3_EXTENSION: &'static str = "mp3";

/// The extension of a cached feed.
pub const XML_EXTENSION: &'static str = "xml";

/// The directory name that stands for a host that is no domain name.
pub open spec fn unknown_domain() -> Seq<char> {
    "__unknown"@
}

/// The file name that stands for an empty path.
pub open spec fn root_name() -> Seq<char> {
    "__root"@
}

/// The segments that are not empty, in order, as one relative path.
pub open spec fn path_of_segments(segments: Seq<Seq<char>>) -> Seq<char>
    decreases segments.len(),
{
    if segments.len() == 0 {
        Seq::empty()
    } else {
        let before = path_of_segments(segments.drop_last());
        if segments.last().len() == 0 {
            before
        } else {
            joined(before, segments.last())
        }
    }
}

/// The relative path of a URL's segments, or the root name where that is empty.
pub open spec fn segments_or_root(url: UrlView) -> Seq<char> {
    let path = match url.segments {
        Some(s) => path_of_segments(s),
        None => Seq::empty(),
    };
    if path.len() == 0 {
        root_name()
    } else {
        path
    }
}

/// The cache's place for a URL, before any extension: the directory, the
/// domain, the path, and the percent-encoded query after a hyphen.
pub open spec fn cache_stem(dir: Seq<char>, url: UrlView) -> Seq<char> {
    let domain = match url.domain {
        Some(d) => d,
        None => unknown_domain(),
    };
    let located = joined(joined(dir, domain), segments_or_root(url));
    match url.query {
        Some(q) => located + seq!['-'] + percent_encoded(encode_utf8(q)),
        None => located,
    }
}

/// The cache's place for a URL and a kind of content.
pub open spec fn cache_path(dir: Seq<char>, url: UrlView, extension: Option<Seq<char>>) -> Seq<
    char,
> {
    match extension {
        Some(e) => with_extension(cache_stem(dir, url), e),
        None => cache_stem(dir, url),
    }
}

/// Whether a response status reports success.
pub open spec fn is_success(status: u16) -> bool {
    200 <= status < 300
}

/// The part of `s` before the first `stop`; all of `s` where it holds none.
pub open spec fn before_first(s: Seq<char>, stop: char) -> Seq<char>
    decreases s.len(),
{
    if s.len() == 0 || s[0] == stop {
        Seq::empty()
    } else {
        seq![s[0]] + before_first(s.drop_first(), stop)
    }
}

/// A content type in normal form: the header's value without its parameters,
/// trimmed and in lower case.
pub open spec fn normal_content_type(header: Seq<char>) -> Seq<char> {
    ascii_lowered(trimmed(before_first(header, ';')))
}

/// The reason phrase that is usual for a status code, if the code is a status
/// code and has one.
pub uninterp spec fn status_reason(status: u16) -> Option<Seq<char>>;

/// `reqwest::StatusCode::canonical_reason` of the code that
/// `reqwest::StatusCode::from_u16` makes of `status`; `None` where `status` is
/// no status code or has no usual reason phrase.
#[verifier::external_body]
fn reason_of(status: u16) -> (reason: Option<String>)
    ensures
        opt_text(reason) == status_reason(status),
{
    reqwest::StatusCode::from_u16(status).ok()?.canonical_reason().map(str::to_owned)
}

/// The reason phrase of a status, or nothing where it has none.
pub open spec fn reason_text(status: u16) -> Seq<char> {
    match status_reason(status) {
        Some(reason) => reason,
        None => Seq::empty(),
    }
}

/// The reason phrase of a status, or nothing where it has none.
pub fn canonical_reason(status: u16) -> (reason: String)
    ensures
        reason@ == reason_text(status),
{
    match reason_of(status) {
        Some(reason) => reason,
        None => String::new(),
    }
}

/// The files of a cache: the paths that exist.
pub type CacheFiles = Set<Seq<char>>;

/// The cache after a `get` for `path`: a file that was absent is there if and
/// only if the download succeeded; nothing else changes.
pub open spec fn files_after_get(files: CacheFiles, path: Seq<char>, downloaded: bool) -> CacheFiles {
    if !files.contains(path) && downloaded {
        files.insert(path)
    } else {
        files
    }
}

/// The cache after `path` was invalidated.
pub open spec fn files_after_remove(files: CacheFiles, path: Seq<char>) -> CacheFiles {
    files.remove(path)
}

/// What a `Fetch` holds, as mathematical values.
pub enum FetchView {
    Hit(Seq<char>),
    Miss(Seq<char>),
}

/// What is decided for a request whose cache file is at `path`: the file is
/// used where it exists, and the network is asked where it does not.
pub open spec fn fetch_for(path: Seq<char>, exists: bool) -> FetchView {
    if exists {
        FetchView::Hit(path)
    } else {
        FetchView::Miss(path)
    }
}

/// The number of network requests that a decision leads to.
pub open spec fn network_calls(fetch: FetchView) -> nat {
    match fetch {
        FetchView::Hit(_) => 0,
        FetchView::Miss(_) => 1,
    }
}

/// What went wrong with a request or its cached answer.
#[derive(Debug)]
pub enum HttpError {
    /// The server answered with a status that is no success.
    Response(Url, u16),
    /// The request could not be made.
    Request(Url, String),
    /// A file or directory of the cache could not be read or written.
    Io(String, String),
    /// The answer's body could not be read.
    ResponseIo(Url, String),
    /// The cached document is no JSON of the expected shape.
    InvalidJson(String, String),
    /// The answer named no content type.
    NoContentType(Url),
}

/// What an `HttpError` holds, as mathematical values.
pub enum HttpErrorView {
    Response(UrlView, u16),
    Request(UrlView, Seq<char>),
    Io(Seq<char>, Seq<char>),
    ResponseIo(UrlView, Seq<char>),
    InvalidJson(Seq<char>, Seq<char>),
    NoContentType(UrlView),
}

impl View for HttpError {
    type V = HttpErrorView;

    open spec fn view(&self) -> HttpErrorView {
        match self {
            HttpError::Response(url, status) => HttpErrorView::Response(url@, *status),
            HttpError::Request(url, cause) => HttpErrorView::Request(url@, cause@),
            HttpError::Io(path, cause) => HttpErrorView::Io(path@, cause@),
            HttpError::ResponseIo(url, cause) => HttpErrorView::ResponseIo(url@, cause@),
            HttpError::InvalidJson(path, cause) => HttpErrorView::InvalidJson(path@, cause@),
            HttpError::NoContentType(url) => HttpErrorView::NoContentType(url@),
        }
    }
}

/// Where a request stands once the cache has been looked at.
#[derive(Debug)]
pub enum Fetch {
    /// The answer is in the cache at this path: nothing is requested.
    Hit(String),
    /// The answer is to be requested and written to this path.
    Miss(String),
}

impl View for Fetch {
    type V = FetchView;

    open spec fn view(&self) -> FetchView {
        match self {
            Fetch::Hit(path) => FetchView::Hit(path@),
            Fetch::Miss(path) => FetchView::Miss(path@),
        }
    }
}

impl Fetch {
    /// The path of the cache file.
    pub fn path(&self) -> (path: &str)
        ensures
            self@ == FetchView::Hit(path@) || self@ == FetchView::Miss(path@),
    {
        match self {
            Fetch::Hit(path) => path.as_str(),
            Fetch::Miss(path) => path.as_str(),
        }
    }
}

/// What to do with a cached JSON document once it has been read.
#[derive(Debug)]
pub enum Judgement {
    /// The document is what was asked for.
    Accept,
    /// The document is to be deleted from the cache, and the error returned.
    Reject(String, HttpError),
}

/// What happened to a download, as far as it got.
#[derive(Debug)]
pub enum Outcome {
    /// The directory of the cache file could not be made.
    DirectoryFailed(String, String),
    /// The request could not be made.
    RequestFailed(String),
    /// The server answered with the status.
    Responded(u16),
    /// The cache file could not be made or written.
    FileFailed(String),
    /// The body of the answer could not be read.
    BodyFailed(String),
    /// The body of the answer lies in the cache file.
    Written,
}

/// What an `Outcome` holds, as mathematical values.
pub enum OutcomeView {
    DirectoryFailed(Seq<char>, Seq<char>),
    RequestFailed(Seq<char>),
    Responded(u16),
    FileFailed(Seq<char>),
    BodyFailed(Seq<char>),
    Written,
}

impl View for Outcome {
    type V = OutcomeView;

    open spec fn view(&self) -> OutcomeView {
        match self {
            Outcome::DirectoryFailed(dir, cause) => OutcomeView::DirectoryFailed(dir@, cause@),
            Outcome::RequestFailed(cause) => OutcomeView::RequestFailed(cause@),
            Outcome::Responded(status) => OutcomeView::Responded(*status),
            Outcome::FileFailed(cause) => OutcomeView::FileFailed(cause@),
            Outcome::BodyFailed(cause) => OutcomeView::BodyFailed(cause@),
            Outcome::Written => OutcomeView::Written,
        }
    }
}

/// How a download goes on.
#[derive(Debug)]
pub enum Transfer {
    /// The answer is a success: its body is to be written to the cache file.
    Receive,
    /// The download is complete.
    Done,
    /// The download has failed. It is not tried again.
    Failed(HttpError),
}

/// What a `Transfer` holds, as mathematical values.
pub enum TransferView {
    Receive,
    Done,
    Failed(HttpErrorView),
}

impl View for Transfer {
    type V = TransferView;

    open spec fn view(&self) -> TransferView {
        match self {
            Transfer::Receive => TransferView::Receive,
            Transfer::Done => TransferView::Done,
            Transfer::Failed(e) => TransferView::Failed(e@),
        }
    }
}

/// How a download of `url` to `path` goes on after an outcome. A request
/// that could not be made, and a body that could not be read, are failures
/// of the transport; a status that is no success is a failure of its own
/// kind that carries the status; what goes wrong with the directory or the
/// file is a failure of the file system.
pub open spec fn transfer_after(url: UrlView, path: Seq<char>, outcome: OutcomeView) -> TransferView {
    match outcome {
        OutcomeView::DirectoryFailed(dir, cause) => TransferView::Failed(
            HttpErrorView::Io(dir, cause),
        ),
        OutcomeView::RequestFailed(cause) => TransferView::Failed(
            HttpErrorView::Request(url, cause),
        ),
        OutcomeView::Responded(status) => if is_success(status) {
            TransferView::Receive
        } else {
            TransferView::Failed(HttpErrorView::Response(url, status))
        },
        OutcomeView::FileFailed(cause) => TransferView::Failed(HttpErrorView::Io(path, cause)),
        OutcomeView::BodyFailed(cause) => TransferView::Failed(
            HttpErrorView::ResponseIo(url, cause),
        ),
        OutcomeView::Written => TransferView::Done,
    }
}

/// What the request for a content type came to.
#[derive(Debug)]
pub enum HeadOutcome {
    /// The directory of the cache file could not be made.
    DirectoryFailed(String, String),
    /// The request could not be made.
    RequestFailed(String),
    /// The server answered, with this `Content-Type` header or without one.
    Responded(Option<String>),
}

/// The content type that is cached and returned for a URL, or the failure.
/// An answer without a content type has the empty one.
pub open spec fn head_result(url: UrlView, outcome: HeadOutcome) -> Result<
    Seq<char>,
    HttpErrorView,
> {
    match outcome {
        HeadOutcome::DirectoryFailed(dir, cause) => Err(HttpErrorView::Io(dir@, cause@)),
        HeadOutcome::RequestFailed(cause) => Err(HttpErrorView::Request(url, cause@)),
        HeadOutcome::Responded(Some(header)) => Ok(normal_content_type(header@)),
        HeadOutcome::Responded(None) => Ok(Seq::empty()),
    }
}

/// A client for making HTTP requests and caching responses
#[derive(Debug)]
pub struct HttpClient {
    dir: String,
}

impl View for HttpClient {
    type V = Seq<char>;

    /// The cache's directory.
    closed spec fn view(&self) -> Seq<char> {
        self.dir@
    }
}

impl Default for HttpClient {
    /// A client whose cache lies in `http` below `cache`.
    fn default() -> (client: Self)
        ensures
            client@ == joined("cache"@, "http"@),
    {
        Self { dir: crate::path::join("cache", "http") }
    }
}

/// Appends the path of the segments that are not empty.
fn push_segments(out: &mut Vec<char>, segments: &Vec<String>)
    requires
        old(out)@.len() == 0,
    ensures
        final(out)@ == path_of_segments(crate::text::texts(segments@)),
{
    let ghost all = crate::text::texts(segments@);
    let mut i: usize = 0;
    while i < segments.len()
        invariant
            i <= segments.len(),
            all == crate::text::texts(segments@),
            out@ == path_of_segments(all.take(i as int)),
        decreases segments.len() - i,
    {
        proof {
            assert(all.take(i + 1).drop_last() == all.take(i as int));
        }
        if segments[i].as_str().unicode_len() > 0 {
            push_component(out, segments[i].as_str());
        }
        i += 1;
    }
    assert(all.take(segments.len() as int) == all);
}

impl HttpClient {
    /// A client whose cache lies under `dir`.
    pub fn new(dir: String) -> (client: Self)
        ensures
            client@ == dir@,
    {
        Self { dir }
    }

    /// The cache's directory.
    pub fn dir(&self) -> (dir: &str)
        ensures
            dir@ == self@,
    {
        self.dir.as_str()
    }

    /// The place of a URL's answer in the cache, for the kind of content that
    /// `extension` names. Nothing is read or written.
    pub fn get_cache_path(&self, url: &Url, extension: Option<&str>) -> (path: String)
        ensures
            path@ == cache_path(
                self@,
                url@,
                match extension {
                    Some(e) => Some(e@),
                    None => None,
                },
            ),
    {
        let mut out = chars_of(self.dir.as_str());
        match &url.domain {
            Some(domain) => push_component(&mut out, domain.as_str()),
            None => push_component(&mut out, "__unknown"),
        }
        let mut segments: Vec<char> = Vec::new();
        match &url.segments {
            Some(s) => push_segments(&mut segments, s),
            None => {},
        }
        if segments.len() == 0 {
            push_str(&mut segments, "__root");
        }
        let segments = string_from_chars(&segments);
        push_component(&mut out, segments.as_str());
        match &url.query {
            Some(query) => {
                out.push('-');
                let encoded = percent_encode(query.as_str());
                push_str(&mut out, encoded.as_str());
            },
            None => {},
        }
        match extension {
            Some(e) => {
                out.push('.');
                push_str(&mut out, e);
            },
            None => {},
        }
        string_from_chars(&out)
    }

    /// Decides a `get`: the answer is taken from the cache where its file
    /// exists, and requested where it does not.
    pub fn get(&self, url: &Url, extension: Option<&str>, exists: bool) -> (fetch: Fetch)
        ensures
            fetch@ == fetch_for(
                cache_path(
                    self@,
                    url@,
                    match extension {
                        Some(e) => Some(e@),
                        None => None,
                    },
                ),
                exists,
            ),
    {
        let path = self.get_cache_path(url, extension);
        if exists {
            Fetch::Hit(path)
        } else {
            Fetch::Miss(path)
        }
    }

    /// Decides a `head`: as `get`, for the content type of a URL, which the
    /// cache keeps apart from the answers to GET requests.
    pub fn head(&self, url: &Url, exists: bool) -> (fetch: Fetch)
        ensures
            fetch@ == fetch_for(cache_path(self@, url@, Some(HEAD_EXTENSION@)), exists),
    {
        self.get(url, Some(HEAD_EXTENSION), exists)
    }

    /// Whether a removal took place: the file was there, and deleting it did not fail.
    pub fn remove(exists: bool, deleted: bool) -> (removed: bool)
        ensures
            removed == (exists && deleted),
    {
        exists && deleted
    }

    /// Judges the status of a response: a success lets the download go on, any
    /// other status ends it with an error that carries the status.
    pub fn check_status(url: &Url, status: u16) -> (checked: Result<(), HttpError>)
        ensures
            is_success(status) ==> checked is Ok,
            !is_success(status) ==> checked is Err && checked->Err_0@ == HttpErrorView::Response(
                url@,
                status,
            ),
    {
        if 200 <= status && status < 300 {
            Ok(())
        } else {
            Err(HttpError::Response(url.duplicate(), status))
        }
    }

    /// Decides how a download of `url` to the cache file at `path` goes on.
    pub fn download_to_cache(url: &Url, path: &str, outcome: Outcome) -> (transfer: Transfer)
        ensures
            transfer@ == transfer_after(url@, path@, outcome@),
    {
        match outcome {
            Outcome::DirectoryFailed(dir, cause) => Transfer::Failed(HttpError::Io(dir, cause)),
            Outcome::RequestFailed(cause) => Transfer::Failed(
                HttpError::Request(url.duplicate(), cause),
            ),
            Outcome::Responded(status) => match Self::check_status(url, status) {
                Ok(()) => Transfer::Receive,
                Err(e) => Transfer::Failed(e),
            },
            Outcome::FileFailed(cause) => Transfer::Failed(HttpError::Io(path.to_owned(), cause)),
            Outcome::BodyFailed(cause) => Transfer::Failed(
                HttpError::ResponseIo(url.duplicate(), cause),
            ),
            Outcome::Written => Transfer::Done,
        }
    }

    /// The content type that is cached and returned for `url` after the
    /// request for it.
    pub fn head_to_cache(url: &Url, outcome: HeadOutcome) -> (content_type: Result<
        String,
        HttpError,
    >)
        ensures
            match content_type {
                Ok(text) => head_result(url@, outcome) == Ok::<Seq<char>, HttpErrorView>(text@),
                Err(e) => head_result(url@, outcome) == Err::<Seq<char>, HttpErrorView>(e@),
            },
    {
        match outcome {
            HeadOutcome::DirectoryFailed(dir, cause) => Err(HttpError::Io(dir, cause)),
            HeadOutcome::RequestFailed(cause) => Err(HttpError::Request(url.duplicate(), cause)),
            HeadOutcome::Responded(header) => match header {
                Some(text) => match get_content_type(Some(text.as_str())) {
                    Some(content_type) => Ok(content_type),
                    None => Ok(String::new()),
                },
                None => Ok(String::new()),
            },
        }
    }

    /// Judges a cached JSON document after the attempt to read it: where that
    /// failed with `failure`, the cache file is to be removed, so that a later
    /// run asks the network again, and the error names the file and the cause.
    pub fn get_json(&self, url: &Url, failure: Option<String>) -> (judged: Judgement)
        ensures
            failure is None ==> judged is Accept,
            failure matches Some(cause) ==> judged matches Judgement::Reject(stale, error)
                && stale@ == cache_path(self@, url@, Some(JSON_EXTENSION@)) && error@
                == HttpErrorView::InvalidJson(stale@, cause@),
    {
        match failure {
            None => Judgement::Accept,
            Some(cause) => {
                let path = self.get_cache_path(url, Some(JSON_EXTENSION));
                Judgement::Reject(path.clone(), HttpError::InvalidJson(path, cause))
            },
        }
    }
}

/// The content type that a `Content-Type` header names, in normal form;
/// `None` where the response has no such header.
pub fn get_content_type(header: Option<&str>) -> (content_type: Option<String>)
    ensures
        header is None ==> content_type is None,
        header matches Some(h) ==> content_type matches Some(c) && c@ == normal_content_type(h@),
{
    match header {
        None => None,
        Some(h) => {
            let chars = chars_of(h);
            let mut kind: Vec<char> = Vec::new();
            let mut i: usize = 0;
            proof {
                assert(chars@.skip(0) == chars@);
            }
            while i < chars.len() && chars[i] != ';'
                invariant
                    i <= chars.len(),
                    before_first(chars@, ';') == kind@ + before_first(chars@.skip(i as int), ';'),
                decreases chars.len() - i,
            {
                proof {
                    assert(chars@.skip(i as int).drop_first() == chars@.skip(i + 1));
                }
                kind.push(chars[i]);
                i += 1;
            }
            Some(string_from_chars(&ascii_lower_chars(&trim_chars(&kind))))
        },
    }
}

/// Two kinds of content never share a cache file: for one URL, different
/// extensions (or an extension and none) give different paths.
pub proof fn lemma_kinds_never_collide(
    dir: Seq<char>,
    url: UrlView,
    a: Option<Seq<char>>,
    b: Option<Seq<char>>,
)
    requires
        a != b,
    ensures
        cache_path(dir, url, a) != cache_path(dir, url, b),
{
    let stem = cache_stem(dir, url);
    let n = stem.len() as int;
    match (a, b) {
        (Some(x), Some(y)) => {
            let p = with_extension(stem, x);
            let q = with_extension(stem, y);
            if p == q {
                assert(p.subrange(n + 1, p.len() as int) == x);
                assert(q.subrange(n + 1, q.len() as int) == y);
            }
        },
        (Some(x), None) => {
        },
        (None, Some(y)) => {
        },
        (None, None) => {},
    }
}

/// A `get` after a `get` that succeeded asks the network for nothing, and
/// leaves the cache as it is: the place of a URL and a kind of content is a
/// function of the two alone, and the file that the first `get` wrote is
/// there for the second.
pub proof fn lemma_cache_idempotence(
    files: CacheFiles,
    dir: Seq<char>,
    url: UrlView,
    extension: Option<Seq<char>>,
)
    ensures
        ({
            let path = cache_path(dir, url, extension);
            let after = files_after_get(files, path, true);
            &&& network_calls(fetch_for(path, after.contains(path))) == 0
            &&& files_after_get(after, path, true) == after
        }),
{
}

/// After a cached document was rejected and removed, the next `get` for its
/// URL asks the network again.
pub proof fn lemma_invalidation_refetches(files: CacheFiles, dir: Seq<char>, url: UrlView)
    ensures
        ({
            let path = cache_path(dir, url, Some(JSON_EXTENSION@));
            let after = files_after_remove(files, path);
            network_calls(fetch_for(path, after.contains(path))) == 1
        }),
{
}

/// What the user reads of an `HttpError`.
pub open spec fn http_error_message(error: HttpErrorView) -> Seq<char> {
    match error {
        HttpErrorView::Response(url, number) =>
            "Unexpected response status: "@ + digits(number as nat) + " "@ + reason_text(number)
            + "\nURL: "@ + url.text,
        HttpErrorView::Request(url, cause) =>
            "A request error occurred.\nURL:"@ + url.text + "\n"@ + cause,
        HttpErrorView::Io(path, cause) => "An I/O error occurred.\nPath: "@ + path + "\n"@ + cause,
        HttpErrorView::ResponseIo(url, cause) =>
            "A response I/O error occurred.\nURL: "@ + url.text + "\n"@ + cause,
        HttpErrorView::InvalidJson(path, cause) =>
            "A deserialization error occurred.\nPath: "@ + path + "\n"@ + cause,
        HttpErrorView::NoContentType(url) =>
            "Response did not contain a Content-Type header:\nURL: "@ + url.text,
    }
}

impl HttpError {
    /// Writes the error out for the user.
    pub fn message(&self) -> (text: String)
        ensures
            text@ == http_error_message(self@),
    {
        match self {
            HttpError::Response(url, number) => {
                let mut out = chars_of("Unexpected response status: ");
                push_chars(&mut out, &decimal_chars(*number as u64));
                push_str(&mut out, " ");
                push_str(&mut out, canonical_reason(*number).as_str());
                push_str(&mut out, "\nURL: ");
                push_str(&mut out, url.as_str());
                string_from_chars(&out)
            },
            HttpError::Request(url, cause) => {
                let mut out = chars_of("A request error occurred.\nURL:");
                push_str(&mut out, url.as_str());
                push_str(&mut out, "\n");
                push_str(&mut out, cause.as_str());
                string_from_chars(&out)
            },
            HttpError::Io(path, cause) => {
                let mut out = chars_of("An I/O error occurred.\nPath: ");
                push_str(&mut out, path.as_str());
                push_str(&mut out, "\n");
                push_str(&mut out, cause.as_str());
                string_from_chars(&out)
            },
            HttpError::ResponseIo(url, cause) => {
                let mut out = chars_of("A response I/O error occurred.\nURL: ");
                push_str(&mut out, url.as_str());
                push_str(&mut out, "\n");
                push_str(&mut out, cause.as_str());
                string_from_chars(&out)
            },
            HttpError::InvalidJson(path, cause) => {
                let mut out = chars_of("A deserialization error occurred.\nPath: ");
                push_str(&mut out, path.as_str());
                push_str(&mut out, "\n");
                push_str(&mut out, cause.as_str());
                string_from_chars(&out)
            },
            HttpError::NoContentType(url) => {
                let mut out = chars_of("Response did not contain a Content-Type header:\nURL: ");
                push_str(&mut out, url.as_str());
                string_from_chars(&out)
            },
        }
    }
}

} // verus!
