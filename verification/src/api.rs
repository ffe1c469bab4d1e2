//! The AdGuard Home control API: what is asked of the server, how its answer
//! is judged, and the texts of the errors. The HTTP exchange itself is left to
//! the caller.

use vstd::prelude::*;
use vstd::string::*;
use crate::config::Config;
use crate::text::{
    lemma_trim_end_char_done, lemma_trim_end_char_padding, repeat_char, trim_end_char,
    trim_end_slashes,
};

verus! {

/// The protection state that `GET /control/status` reports.
#[derive(Clone, Copy, Debug, PartialEq, Eq, Structural)]
pub struct Status {
    pub protection_enabled: bool,
    /// Milliseconds left of a snooze; 0 when the answer leaves it out.
    pub protection_disabled_duration: u64,
}

/// The body of `POST /control/protection`. A `duration` of `None` is left
/// out of the JSON object.
#[derive(Clone, Copy, Debug, PartialEq, Eq, Structural)]
pub struct ProtectionRequest {
    pub enabled: bool,
    pub duration: Option<u64>,
}

/// The server to talk to and the credentials of HTTP Basic authentication.
pub struct AdGuardClient {
    base_url: String,
    username: String,
    password: String,
}

pub open spec fn status_url_of(base: Seq<char>) -> Seq<char> {
    base + "/control/status"@
}

pub open spec fn protection_url_of(base: Seq<char>) -> Seq<char> {
    base + "/control/protection"@
}

/// HTTP's success class: 200 to 299.
pub open spec fn is_success(code: u16) -> bool {
    200 <= code && code < 300
}

pub open spec fn api_status_message(status_text: Seq<char>) -> Seq<char> {
    "API returned "@ + status_text
}

pub open spec fn request_failed_message(detail: Seq<char>) -> Seq<char> {
    "Request failed: "@ + detail
}

pub open spec fn parse_failed_message(detail: Seq<char>) -> Seq<char> {
    "Failed to parse response: "@ + detail
}

impl AdGuardClient {
    /// The server address, without trailing '/'.
    pub closed spec fn base_url_view(&self) -> Seq<char> {
        self.base_url@
    }

    pub closed spec fn username_view(&self) -> Seq<char> {
        self.username@
    }

    pub closed spec fn password_view(&self) -> Seq<char> {
        self.password@
    }

    /// A client for the server of `config`; trailing '/' characters of the
    /// server address are dropped.
    pub fn new(config: &Config) -> (c: Self)
        ensures
            c.base_url_view() == trim_end_char(config.server_url@, '/'),
            c.username_view() == config.username@,
            c.password_view() == config.password@,
    {
        AdGuardClient {
            base_url: trim_end_slashes(config.server_url.as_str()),
            username: config.username.clone(),
            password: config.password.clone(),
        }
    }

    pub fn base_url(&self) -> (r: &str)
        ensures
            r@ == self.base_url_view(),
    {
        self.base_url.as_str()
    }

    pub fn username(&self) -> (r: &str)
        ensures
            r@ == self.username_view(),
    {
        self.username.as_str()
    }

    pub fn password(&self) -> (r: &str)
        ensures
            r@ == self.password_view(),
    {
        self.password.as_str()
    }

    /// The address that `get_status` sends its GET request to.
    pub fn status_url(&self) -> (r: String)
        ensures
            r@ == status_url_of(self.base_url_view()),
    {
        let mut r = self.base_url.clone();
        r.append("/control/status");
        r
    }

    /// The address that `set_protection` and `snooze` post to.
    pub fn protection_url(&self) -> (r: String)
        ensures
            r@ == protection_url_of(self.base_url_view()),
    {
        let mut r = self.base_url.clone();
        r.append("/control/protection");
        r
    }

    /// The body that turns protection on or off for good.
    pub fn protection_request(enabled: bool) -> (r: ProtectionRequest)
        ensures
            r == (ProtectionRequest { enabled, duration: None }),
    {
        ProtectionRequest { enabled, duration: None }
    }

    /// The body that turns protection off for `duration_ms` milliseconds.
    pub fn snooze_request(duration_ms: u64) -> (r: ProtectionRequest)
        ensures
            r == (ProtectionRequest { enabled: false, duration: Some(duration_ms) }),
    {
        ProtectionRequest { enabled: false, duration: Some(duration_ms) }
    }

    /// Judges the HTTP status of an answer: success passes, any other status
    /// is an error that names it (`status_text` is how the status prints,
    /// such as "404 Not Found").
    pub fn check_response(code: u16, status_text: &str) -> (r: Result<(), String>)
        ensures
            r is Ok <==> is_success(code),
            r is Ok <==> (200 <= code && code <= 299),
            r matches Err(e) ==> e@ == api_status_message(status_text@),
    {
        if 200 <= code && code < 300 {
            Ok(())
        } else {
            let mut e = String::from_str("API returned ");
            e.append(status_text);
            Err(e)
        }
    }

    /// The error when the request could not be sent or answered.
    pub fn request_failed(detail: &str) -> (r: String)
        ensures
            r@ == request_failed_message(detail@),
    {
        let mut e = String::from_str("Request failed: ");
        e.append(detail);
        e
    }

    /// The error when the answer is not a status object.
    pub fn parse_failed(detail: &str) -> (r: String)
        ensures
            r@ == parse_failed_message(detail@),
    {
        let mut e = String::from_str("Failed to parse response: ");
        e.append(detail);
        e
    }
}


/// Success is exactly the 2xx class: every code from 300 up (redirects,
/// client and server errors alike) and every code below 200 is a failure.
pub proof fn lemma_success_is_2xx(code: u16)
    ensures
        is_success(code) <==> (200 <= code && code <= 299),
        code >= 300 ==> !is_success(code),
        code < 200 ==> !is_success(code),
        api_status_message("500 Internal Server Error"@) == "API returned "@
            + "500 Internal Server Error"@,
{
}

/// Server addresses that differ only in trailing '/' characters give the
/// same base address, which does not end with '/'; so the request addresses
/// never hold "//" before "control".
pub proof fn lemma_trailing_slashes_ignored(url: Seq<char>, k: nat)
    ensures
        trim_end_char(url + repeat_char('/', k), '/') == trim_end_char(url, '/'),
        trim_end_char(url, '/').len() == 0 || trim_end_char(url, '/').last() != '/',
        trim_end_char(trim_end_char(url, '/'), '/') == trim_end_char(url, '/'),
{
    lemma_trim_end_char_padding(url, '/', k);
    lemma_trim_end_char_done(url, '/');
}

} // verus!
