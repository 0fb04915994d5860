//! The interface to one instance: where its dashboards are addressed, how a
//! request is authorized, and what a response means.

use crate::document::Dashboard;
use crate::text::{decimal, decimal_text};
use vstd::prelude::*;

verus! {

/// The longest base address or path, in characters, that is resolved to a URL.
pub const MAX_TEXT: usize = 0x0100_0000;

/// Whether `text` parses as an absolute URL.
///
/// Stands for the outcome of `Url::parse` from the `url` crate, which
/// `reqwest` hands on; no function here computes it in any other way.
pub uninterp spec fn parses_as_url(text: Seq<char>) -> bool;

/// The text of the URL that `base` parses to, with its path replaced by
/// `path` and any query and fragment kept.
///
/// Stands for what `Url::set_path` leaves as the serialization of the URL.
pub uninterp spec fn location_text(base: Seq<char>, path: Seq<char>) -> Seq<char>;

/// Trusted: calls `Url::parse` and reports whether it accepted the text.
#[verifier::external_body]
fn is_url(text: &str) -> (result: bool)
    ensures
        result == parses_as_url(text@),
{
    reqwest::Url::parse(text).is_ok()
}

/// Trusted: parses `base` with `Url::parse`, replaces the path of the URL
/// with `Url::set_path` and hands back the URL's text. The result is `None`
/// exactly when the base does not parse. The bounds keep the URL far below
/// the 4 GiB at which `set_path` gives up.
#[verifier::external_body]
fn with_path(base: &str, path: &str) -> (result: Option<String>)
    requires
        base@.len() <= MAX_TEXT,
        path@.len() <= MAX_TEXT,
    ensures
        result is Some <==> parses_as_url(base@),
        result matches Some(text) ==> text@ == location_text(base@, path@),
{
    match reqwest::Url::parse(base) {
        Ok(mut url) => {
            url.set_path(path);
            Some(String::from(url))
        },
        Err(_) => None,
    }
}

/// Whether `base` can serve as the address of an instance.
pub open spec fn usable_base(base: Seq<char>) -> bool {
    base.len() <= MAX_TEXT && parses_as_url(base)
}

/// The path under which an instance serves the dashboard with stable identifier `uid`.
pub open spec fn dashboard_path(uid: Seq<char>) -> Seq<char> {
    "/api/dashboards/uid/"@ + uid
}

/// The path to which a dashboard is submitted.
pub open spec fn submit_path() -> Seq<char> {
    "/api/dashboards/db"@
}

/// The address of an instance and the key that gives access to it.
#[derive(Debug, PartialEq)]
pub struct Api {
    base: String,
    access_key: String,
}

/// What an `Api` is, as a mathematical value.
pub struct ApiModel {
    pub base: Seq<char>,
    pub access_key: Seq<char>,
}

impl View for Api {
    type V = ApiModel;

    closed spec fn view(&self) -> ApiModel {
        ApiModel { base: self.base@, access_key: self.access_key@ }
    }
}

impl Clone for Api {
    fn clone(&self) -> (result: Api)
        ensures
            result@ == self@,
    {
        proof {
            use_type_invariant(self);
        }
        Api { base: self.base.clone(), access_key: self.access_key.clone() }
    }
}

impl Api {
    #[verifier::type_invariant]
    spec fn well_formed(self) -> bool {
        usable_base(self.base@)
    }

    /// The instance at `base`, or `None` where `base` is no usable address.
    pub fn new(base: String, access_key: String) -> (result: Option<Api>)
        ensures
            match result {
                Some(api) => usable_base(base@) && api@ == (ApiModel {
                    base: base@,
                    access_key: access_key@,
                }),
                None => !usable_base(base@),
            },
    {
        if base.as_str().unicode_len() <= MAX_TEXT && is_url(base.as_str()) {
            Some(Api { base, access_key })
        } else {
            None
        }
    }

    /// The base address as it was given.
    pub fn base(&self) -> (result: &str)
        ensures
            result@ == self@.base,
            usable_base(result@),
    {
        proof {
            use_type_invariant(self);
        }
        self.base.as_str()
    }

    /// The access key as it was given.
    pub fn access_key(&self) -> (result: &str)
        ensures
            result@ == self@.access_key,
    {
        self.access_key.as_str()
    }

    /// The value of the `Authorization` header of every request to the instance.
    pub fn authorization(&self) -> (result: String)
        ensures
            result@ == "Bearer "@ + self@.access_key,
    {
        let mut result = String::from_str("Bearer ");
        result.append(self.access_key.as_str());
        result
    }

    /// The URL of `path` on the instance; `None` where `path` is longer than `MAX_TEXT`.
    pub fn locate(&self, path: &str) -> (result: Option<String>)
        ensures
            match result {
                Some(url) => path@.len() <= MAX_TEXT && url@ == location_text(
                    self@.base,
                    path@,
                ),
                None => path@.len() > MAX_TEXT,
            },
    {
        proof {
            use_type_invariant(self);
        }
        if path.unicode_len() <= MAX_TEXT {
            with_path(self.base.as_str(), path)
        } else {
            None
        }
    }

    /// The URL from which the dashboard with stable identifier `uid` is
    /// fetched; `None` where its path is longer than `MAX_TEXT`.
    pub fn dashboard_url(&self, uid: &str) -> (result: Option<String>)
        ensures
            match result {
                Some(url) => dashboard_path(uid@).len() <= MAX_TEXT && url@ == location_text(
                    self@.base,
                    dashboard_path(uid@),
                ),
                None => dashboard_path(uid@).len() > MAX_TEXT,
            },
    {
        let mut path = String::from_str("/api/dashboards/uid/");
        path.append(uid);
        self.locate(path.as_str())
    }

    /// The URL to which a dashboard is submitted.
    pub fn submit_url(&self) -> (result: String)
        ensures
            result@ == location_text(self@.base, submit_path()),
    {
        proof {
            reveal_strlit("/api/dashboards/db");
        }
        self.locate("/api/dashboards/db").unwrap()
    }
}

/// Why an instance gave no usable answer.
#[derive(Debug, Clone, PartialEq)]
pub enum ClientFailure {
    /// The instance answered with a status that the operation does not accept.
    Status { code: u16, body: String },
    /// The status was accepted, but the body could not be decoded; `cause`
    /// is what the decoder said of it.
    Malformed { body: String, cause: String },
    /// No answer arrived.
    Transport { detail: String },
}

/// A failure as it is reported: the status and the body, what the decoder
/// said and the body that it could not decode, or what the transport said.
pub open spec fn failure_text(failure: ClientFailure) -> Seq<char> {
    match failure {
        ClientFailure::Status { code, body } => "status: "@ + decimal_text(code as nat)
            + ", body: "@ + body@,
        ClientFailure::Malformed { body, cause } => "malformed body: "@ + cause@
            + ", body: "@ + body@,
        ClientFailure::Transport { detail } => detail@,
    }
}

impl ClientFailure {
    /// The failure as it is reported.
    pub fn describe(&self) -> (result: String)
        ensures
            result@ == failure_text(*self),
    {
        match self {
            ClientFailure::Status { code, body } => {
                let mut line = String::from_str("status: ");
                line.append(decimal(*code as u32).as_str());
                line.append(", body: ");
                line.append(body.as_str());
                line
            },
            ClientFailure::Malformed { body, cause } => {
                let mut line = String::from_str("malformed body: ");
                line.append(cause.as_str());
                line.append(", body: ");
                line.append(body.as_str());
                line
            },
            ClientFailure::Transport { detail } => detail.clone(),
        }
    }
}

/// The answer to "fetch by stable identifier".
#[derive(Debug, Clone, PartialEq)]
pub enum FetchOutcome {
    Found(Dashboard),
    /// The instance holds no dashboard with the identifier. This is no failure.
    NotFound,
    Failed(ClientFailure),
}

/// What the destination reports of a dashboard that it has stored.
#[derive(Debug, Clone, PartialEq)]
pub struct SubmitResponse {
    /// The identity that the destination has for the dashboard.
    pub id: u32,
    pub uid: String,
    /// The path of the dashboard on the destination.
    pub url: String,
    /// The version that the write produced.
    pub version: u32,
}

/// The answer to "create or overwrite".
#[derive(Debug, Clone, PartialEq)]
pub enum SubmitOutcome {
    Accepted(SubmitResponse),
    Failed(ClientFailure),
}

/// How an operation reads a response status.
#[derive(Debug, Clone, Copy, PartialEq, Eq, Structural)]
pub enum StatusClass {
    /// The body holds the answer and is to be decoded.
    Success,
    /// The instance has no such dashboard.
    NotFound,
    /// Anything else: the response is reported with its status and body.
    Rejected,
}

/// How a fetch reads the status `code`: 404 as "not found", 200 as success.
pub open spec fn fetch_class(code: u16) -> StatusClass {
    if code == 404 {
        StatusClass::NotFound
    } else if code == 200 {
        StatusClass::Success
    } else {
        StatusClass::Rejected
    }
}

/// How a submission reads the status `code`: every status of the success
/// range, 200 to 299, as success.
pub open spec fn submit_class(code: u16) -> StatusClass {
    if 200 <= code <= 299 {
        StatusClass::Success
    } else {
        StatusClass::Rejected
    }
}

/// The outcome of a fetch that was answered with status `code` and `body`,
/// where `decoded` is the dashboard that the body decodes to, or what the
/// decoder said where it does not decode.
pub open spec fn fetch_outcome_of(
    code: u16,
    body: String,
    decoded: Result<Dashboard, String>,
) -> FetchOutcome {
    match fetch_class(code) {
        StatusClass::NotFound => FetchOutcome::NotFound,
        StatusClass::Success => match decoded {
            Ok(dashboard) => FetchOutcome::Found(dashboard),
            Err(cause) => FetchOutcome::Failed(ClientFailure::Malformed { body, cause }),
        },
        StatusClass::Rejected => FetchOutcome::Failed(ClientFailure::Status { code, body }),
    }
}

/// The outcome of a submission that was answered with status `code` and
/// `body`, where `decoded` is what the body decodes to, or what the decoder
/// said where it does not decode.
pub open spec fn submit_outcome_of(
    code: u16,
    body: String,
    decoded: Result<SubmitResponse, String>,
) -> SubmitOutcome {
    match submit_class(code) {
        StatusClass::Success => match decoded {
            Ok(response) => SubmitOutcome::Accepted(response),
            Err(cause) => SubmitOutcome::Failed(ClientFailure::Malformed { body, cause }),
        },
        _ => SubmitOutcome::Failed(ClientFailure::Status { code, body }),
    }
}

/// Reads the status of the answer to a fetch.
pub fn fetch_status(code: u16) -> (result: StatusClass)
    ensures
        result == fetch_class(code),
{
    if code == 404 {
        StatusClass::NotFound
    } else if code == 200 {
        StatusClass::Success
    } else {
        StatusClass::Rejected
    }
}

/// Reads the status of the answer to a submission: a success exactly on
/// the statuses 200 to 299.
pub fn submit_status(code: u16) -> (result: StatusClass)
    ensures
        result == submit_class(code),
        result == StatusClass::Success <==> 200 <= code <= 299,
        result != StatusClass::NotFound,
{
    if 200 <= code && code <= 299 {
        StatusClass::Success
    } else {
        StatusClass::Rejected
    }
}

/// Shapes the answer to a fetch. `decoded` is read only where the status is
/// a success, and is then the result of decoding `body`.
pub fn fetch_outcome(code: u16, body: String, decoded: Result<Dashboard, String>) -> (result:
    FetchOutcome)
    ensures
        result == fetch_outcome_of(code, body, decoded),
{
    match fetch_status(code) {
        StatusClass::NotFound => FetchOutcome::NotFound,
        StatusClass::Success => match decoded {
            Ok(dashboard) => FetchOutcome::Found(dashboard),
            Err(cause) => FetchOutcome::Failed(ClientFailure::Malformed { body, cause }),
        },
        StatusClass::Rejected => FetchOutcome::Failed(ClientFailure::Status { code, body }),
    }
}

/// Shapes the answer to a submission. `decoded` is read only where the
/// status is a success, and is then the result of decoding `body`.
pub fn submit_outcome(
    code: u16,
    body: String,
    decoded: Result<SubmitResponse, String>,
) -> (result: SubmitOutcome)
    ensures
        result == submit_outcome_of(code, body, decoded),
        result is Accepted <==> 200 <= code <= 299 && decoded is Ok,
{
    match submit_status(code) {
        StatusClass::Success => match decoded {
            Ok(response) => SubmitOutcome::Accepted(response),
            Err(cause) => SubmitOutcome::Failed(ClientFailure::Malformed { body, cause }),
        },
        _ => SubmitOutcome::Failed(ClientFailure::Status { code, body }),
    }
}

} // verus!
