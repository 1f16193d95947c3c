//! The file-management backend's client: request URLs, the mapping of HTTP
//! statuses to errors, and the conversion of resource records to entries.
//!
//! Sending the requests is left to the transport edge; everything decided
//! about a request or its answer is here.
use vstd::prelude::*;

use crate::state::{FileEntry, FileType};
use crate::text::{append_chars, chars_of, push_decimal, string_of, decimal};

verus! {

/// The HTTP client.
#[verifier::external_type_specification]
#[verifier::external_body]
pub struct ExHttpClient(reqwest::Client);

/// An error of the HTTP client.
#[verifier::external_type_specification]
#[verifier::external_body]
pub struct ExHttpError(reqwest::Error);

/// Relies on `reqwest::Client::new`: a client with default settings (it
/// panics only where a TLS backend or the resolver cannot be set up).
pub assume_specification[ reqwest::Client::new ]() -> reqwest::Client;

/// Relies on `reqwest::Client::clone`: a handle to the same client (its
/// connection pool is shared).
pub assume_specification[ <reqwest::Client as std::clone::Clone>::clone ](
    c: &reqwest::Client,
) -> reqwest::Client;

/// The Unix time (seconds) of an RFC 3339 timestamp, if it is one.
pub uninterp spec fn rfc3339_timestamp(s: Seq<char>) -> Option<i64>;

/// Relies on `chrono::DateTime::parse_from_rfc3339` and `DateTime::timestamp`:
/// the Unix seconds of an RFC 3339 timestamp, `None` where `s` is not one.
#[verifier::external_body]
fn parse_rfc3339(s: &str) -> (r: Option<i64>)
    ensures
        r == rfc3339_timestamp(s@),
{
    chrono::DateTime::parse_from_rfc3339(s).ok().map(|dt| dt.timestamp())
}

/// Errors of backend operations.
#[derive(Debug)]
pub enum FilebrowserError {
    /// The request could not be sent or its answer not read.
    HttpError(reqwest::Error),
    /// The backend refused the login.
    AuthFailed,
    /// No such resource.
    NotFound(String),
    /// The backend refused access.
    PermissionDenied(String),
    /// Any other non-success status.
    ServerError(String),
    /// The answer could not be understood.
    InvalidResponse(String),
}

/// The message of an error that carries no outside error.
pub open spec fn fb_message(e: FilebrowserError) -> Seq<char> {
    match e {
        FilebrowserError::HttpError(_) => "HTTP request failed: "@,
        FilebrowserError::AuthFailed => "Authentication failed"@,
        FilebrowserError::NotFound(p) => "Resource not found: "@ + p@,
        FilebrowserError::PermissionDenied(p) => "Permission denied: "@ + p@,
        FilebrowserError::ServerError(m) => "Server error: "@ + m@,
        FilebrowserError::InvalidResponse(m) => "Invalid response: "@ + m@,
    }
}

/// `prefix` followed by `rest`.
fn joined(prefix: &str, rest: &str) -> (r: String)
    ensures
        r@ == prefix@ + rest@,
{
    let mut s = prefix.to_string();
    s.append(rest);
    s
}

/// Whether `m` is the message of `e`: exact, but for a transport error, whose
/// message starts with `fb_message` and continues with that error's own text.
pub open spec fn fb_error_text(e: FilebrowserError, m: Seq<char>) -> bool {
    match e {
        FilebrowserError::HttpError(_) => m.len() >= fb_message(e).len() && m.subrange(
            0,
            fb_message(e).len() as int,
        ) == fb_message(e),
        _ => m == fb_message(e),
    }
}

impl FilebrowserError {
    /// A human-readable message. For a transport error, the message starts
    /// with `fb_message` and continues with that error's own text.
    pub fn message(&self) -> (r: String)
        ensures
            fb_error_text(*self, r@),
    {
        match self {
            FilebrowserError::HttpError(e) => {
                let detail = e.to_string();
                let r = joined("HTTP request failed: ", detail.as_str());
                assert(r@.subrange(0, "HTTP request failed: "@.len() as int) =~= "HTTP request failed: "@);
                r
            },
            FilebrowserError::AuthFailed => "Authentication failed".to_string(),
            FilebrowserError::NotFound(p) => joined("Resource not found: ", p.as_str()),
            FilebrowserError::PermissionDenied(p) => joined("Permission denied: ", p.as_str()),
            FilebrowserError::ServerError(m) => joined("Server error: ", m.as_str()),
            FilebrowserError::InvalidResponse(m) => joined("Invalid response: ", m.as_str()),
        }
    }
}

/// A resource record as the backend reports it.
#[derive(Debug)]
pub struct ResourceResponse {
    pub name: String,
    pub path: String,
    pub is_dir: bool,
    pub size: u64,
    /// RFC 3339 timestamp.
    pub modified: String,
    pub mime_type: Option<String>,
    /// The entries of a directory.
    pub items: Vec<ResourceResponse>,
}

/// `s` without its trailing slashes.
pub open spec fn trim_slashes(s: Seq<char>) -> Seq<char>
    decreases s.len(),
{
    if s.len() > 0 && s.last() == '/' {
        trim_slashes(s.drop_last())
    } else {
        s
    }
}

/// Whether an HTTP status is a success (2xx).
pub open spec fn is_success(status: u16) -> bool {
    200 <= status && status <= 299
}

/// The outcome that a backend status gives for an operation on `path`.
pub open spec fn status_outcome(status: u16, path: Seq<char>, r: Result<(), FilebrowserError>) -> bool {
    if is_success(status) {
        r is Ok
    } else if status == 401 || status == 403 {
        r matches Err(FilebrowserError::PermissionDenied(p)) && p@ == path
    } else if status == 404 {
        r matches Err(FilebrowserError::NotFound(p)) && p@ == path
    } else {
        r matches Err(FilebrowserError::ServerError(m)) && m@ == "HTTP "@ + decimal(status as nat)
            + ": "@ + path
    }
}

/// The entry for a resource record whose timestamp read as `modified`
/// (0 where it is not a timestamp).
pub open spec fn entry_of(r: ResourceResponse, modified: Option<i64>, e: FileEntry) -> bool {
    &&& e.name == r.name
    &&& e.path == r.path
    &&& e.file_type == (if r.is_dir {
        FileType::Directory
    } else {
        FileType::File
    })
    &&& e.size == r.size
    &&& e.modified == match modified {
        Some(t) => t,
        None => 0,
    }
    &&& e.mime_type == r.mime_type
}

/// Map the status of a backend answer to the operation's outcome.
pub fn handle_error_status(status: u16, path: &str) -> (r: Result<(), FilebrowserError>)
    ensures
        status_outcome(status, path@, r),
{
    if 200 <= status && status <= 299 {
        Ok(())
    } else if status == 401 || status == 403 {
        Err(FilebrowserError::PermissionDenied(path.to_string()))
    } else if status == 404 {
        Err(FilebrowserError::NotFound(path.to_string()))
    } else {
        let mut v: Vec<char> = Vec::new();
        append_chars(&mut v, "HTTP ");
        push_decimal(&mut v, status as u64);
        append_chars(&mut v, ": ");
        append_chars(&mut v, path);
        Err(FilebrowserError::ServerError(string_of(&v)))
    }
}

/// Map the status of a login answer: 403 is a refused login.
pub fn login_status(status: u16) -> (r: Result<(), FilebrowserError>)
    ensures
        status == 403 ==> r matches Err(FilebrowserError::AuthFailed),
        status != 403 ==> r is Ok,
{
    if status == 403 {
        Err(FilebrowserError::AuthFailed)
    } else {
        Ok(())
    }
}

/// The entry for a resource record whose timestamp read as `modified`.
pub fn entry_from_resource(r: ResourceResponse, modified: Option<i64>) -> (e: FileEntry)
    ensures
        entry_of(r, modified, e),
{
    FileEntry {
        name: r.name,
        path: r.path,
        file_type: if r.is_dir {
            FileType::Directory
        } else {
            FileType::File
        },
        size: r.size,
        modified: match modified {
            Some(t) => t,
            None => 0,
        },
        mime_type: r.mime_type,
    }
}

/// The entry for a resource record; its timestamp is read as RFC 3339, and
/// is 0 where it is not one.
pub fn resource_to_entry(r: ResourceResponse) -> (e: FileEntry)
    ensures
        entry_of(r, rfc3339_timestamp(r.modified@), e),
{
    let modified = parse_rfc3339(r.modified.as_str());
    entry_from_resource(r, modified)
}

/// The entries of a directory record, in order.
pub fn entries_of_listing(listing: ResourceResponse) -> (v: Vec<FileEntry>)
    ensures
        v.len() == listing.items.len(),
        forall|i: int|
            0 <= i < v.len() ==> entry_of(
                #[trigger] listing.items[i],
                rfc3339_timestamp(listing.items[i].modified@),
                v[i],
            ),
{
    let items = listing.items;
    let mut v: Vec<FileEntry> = Vec::new();
    for item in it: items
        invariant
            it.seq() == items@,
            v.len() == it.index(),
            forall|j: int|
                0 <= j < v.len() ==> entry_of(
                    #[trigger] items[j],
                    rfc3339_timestamp(items[j].modified@),
                    v[j],
                ),
    {
        let e = resource_to_entry(item);
        v.push(e);
    }
    v
}

/// The path that a listing asks for: the root (`""` or `"/"`) is the empty path.
pub open spec fn listing_path(path: Seq<char>) -> Seq<char> {
    if path.len() == 0 || path == "/"@ {
        Seq::empty()
    } else {
        path
    }
}

/// The path that a listing asks for (and reports errors under).
pub fn listed_path(path: &str) -> (r: &str)
    ensures
        r@ == listing_path(path@),
{
    if path.is_empty() || crate::text::str_eq(path, "/") {
        proof {
            reveal_strlit("");
        }
        ""
    } else {
        path
    }
}

/// A client of the file-management backend. Copies share one HTTP client.
#[derive(Clone)]
pub struct FilebrowserClient {
    client: reqwest::Client,
    base_url: String,
    token: Option<String>,
}

impl FilebrowserClient {
    /// The backend's base URL, without trailing slashes.
    pub closed spec fn base(&self) -> Seq<char> {
        self.base_url@
    }

    /// The backend token sent with each request, if any.
    pub closed spec fn auth_token(&self) -> Option<Seq<char>> {
        match self.token {
            Some(t) => Some(t@),
            None => None,
        }
    }

    /// A client for the backend at `base_url`; trailing slashes are dropped.
    pub fn new(base_url: &str) -> (r: Self)
        ensures
            r.base() == trim_slashes(base_url@),
            r.auth_token() is None,
    {
        let v = chars_of(base_url);
        let mut end = v.len();
        assert(v@.take(end as int) == v@);
        while end > 0 && v[end - 1] == '/'
            invariant
                end <= v.len(),
                trim_slashes(v@.take(end as int)) == trim_slashes(v@),
            decreases end,
        {
            assert(v@.take(end - 1) == v@.take(end as int).drop_last());
            end = end - 1;
        }
        let mut kept: Vec<char> = Vec::new();
        for i in 0..end
            invariant
                end <= v.len(),
                kept@ == v@.take(i as int),
        {
            kept.push(v[i]);
            assert(v@.take(i + 1) == v@.take(i as int).push(v@[i as int]));
        }
        assert(v@.take(v.len() as int) == v@);
        FilebrowserClient { client: reqwest::Client::new(), base_url: string_of(&kept), token: None }
    }

    /// Use `token` for the requests that follow.
    pub fn set_token(&mut self, token: String)
        ensures
            final(self).base() == old(self).base(),
            final(self).auth_token() == Some(token@),
    {
        self.token = Some(token);
    }

    /// The backend's base URL.
    pub fn base_url(&self) -> (r: &str)
        ensures
            r@ == self.base(),
    {
        self.base_url.as_str()
    }

    /// The backend token, if any.
    pub fn token(&self) -> (r: Option<&str>)
        ensures
            match r {
                Some(t) => self.auth_token() == Some(t@),
                None => self.auth_token() is None,
            },
    {
        match &self.token {
            Some(t) => Some(t.as_str()),
            None => None,
        }
    }

    /// The HTTP client that sends the requests.
    pub fn http(&self) -> &reqwest::Client {
        &self.client
    }

    fn url(&self, route: &str, path: &str, suffix: &str) -> (r: String)
        ensures
            r@ == self.base() + route@ + path@ + suffix@,
    {
        let mut v = chars_of(self.base_url.as_str());
        append_chars(&mut v, route);
        append_chars(&mut v, path);
        append_chars(&mut v, suffix);
        string_of(&v)
    }

    /// The URL of the login endpoint.
    pub fn login_url(&self) -> (r: String)
        ensures
            r@ == self.base() + "/api/login"@,
    {
        proof {
            reveal_strlit("");
        }
        let r = self.url("/api/login", "", "");
        assert(r@ =~= self.base() + "/api/login"@);
        r
    }

    /// The URL that lists a directory; the root is listed at the bare route.
    pub fn list_url(&self, path: &str) -> (r: String)
        ensures
            r@ == self.base() + "/api/resources"@ + listing_path(path@),
    {
        proof {
            reveal_strlit("");
        }
        let r = self.url("/api/resources", listed_path(path), "");
        assert(r@ =~= self.base() + "/api/resources"@ + listing_path(path@));
        r
    }

    /// The URL of a resource's record.
    pub fn resource_url(&self, path: &str) -> (r: String)
        ensures
            r@ == self.base() + "/api/resources"@ + path@,
    {
        proof {
            reveal_strlit("");
        }
        let r = self.url("/api/resources", path, "");
        assert(r@ =~= self.base() + "/api/resources"@ + path@);
        r
    }

    /// The URL of a file's raw content.
    pub fn raw_url(&self, path: &str) -> (r: String)
        ensures
            r@ == self.base() + "/api/raw"@ + path@,
    {
        proof {
            reveal_strlit("");
        }
        let r = self.url("/api/raw", path, "");
        assert(r@ =~= self.base() + "/api/raw"@ + path@);
        r
    }

    /// The URL that uploads a file, replacing an existing one or not.
    pub fn upload_url(&self, path: &str, override_existing: bool) -> (r: String)
        ensures
            r@ == self.base() + "/api/resources"@ + path@ + (if override_existing {
                "?override=true"@
            } else {
                "?override=false"@
            }),
    {
        if override_existing {
            self.url("/api/resources", path, "?override=true")
        } else {
            self.url("/api/resources", path, "?override=false")
        }
    }

    /// The URL that creates a directory.
    pub fn mkdir_url(&self, path: &str) -> (r: String)
        ensures
            r@ == self.base() + "/api/resources"@ + path@ + "/?override=false"@,
    {
        self.url("/api/resources", path, "/?override=false")
    }
}

} // verus!
