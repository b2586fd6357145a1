//! Requests to the tracker's REST interface and the reading of its answers.
//!
//! Nothing here touches the network. A request is built as a value, the
//! caller transmits it, and what came back is handed to
//! [`Client::send_request`], which decides whether it is a success or which
//! error it is.

use crate::text::{decimal, decimal_string};
use crate::user_config::Config;
use rustc_serialize::json;
use std::collections::HashMap;
use url::Url;
use vstd::prelude::*;
use vstd::string::*;

verus! {

/// The HTTP verbs the client uses.
#[derive(Clone, Copy, Debug, PartialEq, Eq, Structural)]
pub enum Method {
    Get,
    Post,
    Put,
    Delete,
}

impl Method {
    /// The verb as it is written on the wire and in messages.
    pub open spec fn name_text(self) -> Seq<char> {
        match self {
            Method::Get => "GET"@,
            Method::Post => "POST"@,
            Method::Put => "PUT"@,
            Method::Delete => "DELETE"@,
        }
    }

    pub fn name(&self) -> (text: &'static str)
        ensures
            text@ == self.name_text(),
    {
        match self {
            Method::Get => "GET",
            Method::Post => "POST",
            Method::Put => "PUT",
            Method::Delete => "DELETE",
        }
    }
}

/// The class of an HTTP status code, by its hundreds.
#[derive(Clone, Copy, Debug, PartialEq, Eq, Structural)]
pub enum StatusClass {
    Informational,
    Success,
    Redirection,
    ClientError,
    ServerError,
    NoClass,
}

pub open spec fn class_of(status: u16) -> StatusClass {
    if 100 <= status < 200 {
        StatusClass::Informational
    } else if 200 <= status < 300 {
        StatusClass::Success
    } else if 300 <= status < 400 {
        StatusClass::Redirection
    } else if 400 <= status < 500 {
        StatusClass::ClientError
    } else if 500 <= status < 600 {
        StatusClass::ServerError
    } else {
        StatusClass::NoClass
    }
}

pub fn status_class(status: u16) -> (class: StatusClass)
    ensures
        class == class_of(status),
{
    if 100 <= status && status < 200 {
        StatusClass::Informational
    } else if 200 <= status && status < 300 {
        StatusClass::Success
    } else if 300 <= status && status < 400 {
        StatusClass::Redirection
    } else if 400 <= status && status < 500 {
        StatusClass::ClientError
    } else if 500 <= status && status < 600 {
        StatusClass::ServerError
    } else {
        StatusClass::NoClass
    }
}

/// A failed exchange with the tracker.
#[derive(Debug, PartialEq, Eq)]
pub enum Error {
    /// The request never got an answer; carries the transport's words.
    Http(String),
    /// The answer's body could not be read as the expected JSON; carries the
    /// decoder's words.
    Response(String),
    /// The server answered 401 or 403 to this method and URL.
    Forbidden(Method, String),
    /// The server answered with a 5xx status to this method and URL.
    Server(Method, String),
    /// The server answered with some other status that is not a success.
    Unknown(Method, String, u16),
}

impl Error {
    /// The message as a function of the error's contents.
    pub open spec fn message_text(&self) -> Seq<char> {
        match self {
            Error::Http(cause) => "Http error: "@ + cause@,
            Error::Response(cause) => "Invalid response: "@ + cause@,
            Error::Forbidden(method, url) => "Authorization error: Server denied access to "@
                + method.name_text() + " "@ + url@,
            Error::Server(method, url) => "Server-side error: Server returned error on "@
                + method.name_text() + " "@ + url@,
            Error::Unknown(method, url, status) => "Unkwnown error: Server returned "@ + decimal(
                *status as nat,
            ) + " on "@ + method.name_text() + " "@ + url@,
        }
    }

    /// The error for a request that the transport could not carry out.
    pub fn from_transport(cause: String) -> (error: Error)
        ensures
            error == Error::Http(cause),
    {
        Error::Http(cause)
    }

    /// The error for a response whose body could not be read to its end.
    pub fn from_io(cause: String) -> (error: Error)
        ensures
            error == Error::Http(cause),
    {
        Error::Http(cause)
    }

    /// The error for a response whose body is not the expected JSON.
    pub fn from_decoder(cause: String) -> (error: Error)
        ensures
            error == Error::Response(cause),
    {
        Error::Response(cause)
    }

    /// The text shown to the user.
    pub fn message(&self) -> (text: String)
        ensures
            text@ == self.message_text(),
    {
        match self {
            Error::Http(cause) => {
                let mut text = String::from_str("Http error: ");
                text.append(cause.as_str());
                text
            },
            Error::Response(cause) => {
                let mut text = String::from_str("Invalid response: ");
                text.append(cause.as_str());
                text
            },
            Error::Forbidden(method, url) => {
                let mut text = String::from_str("Authorization error: Server denied access to ");
                text.append(method.name());
                text.append(" ");
                text.append(url.as_str());
                text
            },
            Error::Server(method, url) => {
                let mut text = String::from_str("Server-side error: Server returned error on ");
                text.append(method.name());
                text.append(" ");
                text.append(url.as_str());
                text
            },
            Error::Unknown(method, url, status) => {
                let code = decimal_string(*status as u32);
                let mut text = String::from_str("Unkwnown error: Server returned ");
                text.append(code.as_str());
                text.append(" on ");
                text.append(method.name());
                text.append(" ");
                text.append(url.as_str());
                text
            },
        }
    }

    /// A fixed one-line description of the kind of failure.
    pub fn description(&self) -> (text: &'static str)
        ensures
            text@ == match self {
                Error::Http(_) => "Http error"@,
                Error::Response(_) => "Received invalid response"@,
                Error::Forbidden(_, _) => "User not authorized to perform action"@,
                Error::Server(_, _) => "Server-side error"@,
                Error::Unknown(_, _, _) => "Unknown error"@,
            },
    {
        match self {
            Error::Http(_) => "Http error",
            Error::Response(_) => "Received invalid response",
            Error::Forbidden(_, _) => "User not authorized to perform action",
            Error::Server(_, _) => "Server-side error",
            Error::Unknown(_, _, _) => "Unknown error",
        }
    }
}

/// The text of the URL that `reference` denotes when it is resolved against
/// `base`, or `None` where `base` is no absolute URL or the resolution fails.
pub uninterp spec fn url_joined(base: Seq<char>, reference: Seq<char>) -> Option<Seq<char>>;

/// Parses `base` with `url::Url::parse`, resolves `reference` against it with
/// `Url::join`, and hands back the serialization of the result. A failure of
/// either step gives `None`. The contract only names the outcome.
#[verifier::external_body]
fn join_url(base: &str, reference: &str) -> (joined: Option<String>)
    ensures
        match joined {
            Some(url) => url_joined(base@, reference@) == Some(url@),
            None => url_joined(base@, reference@) is None,
        },
{
    match Url::parse(base) {
        Ok(parsed) => match parsed.join(reference) {
            Ok(url) => Some(String::from(url)),
            Err(_) => None,
        },
        Err(_) => None,
    }
}

/// The JSON text of the object that has the single key `outer`, whose value
/// is the object with the single key `inner` and the number `value`.
pub uninterp spec fn json_nested_entry(outer: Seq<char>, inner: Seq<char>, value: u32) -> Seq<char>;

/// Builds the one-entry map inside a one-entry map and encodes it with
/// `rustc_serialize::json::encode`. The encoder fails only on a map key that
/// is neither text nor a number, which a `&str` key never is. The contract
/// only names the text.
#[verifier::external_body]
fn encode_nested_entry(outer: &str, inner: &str, value: u32) -> (text: String)
    ensures
        text@ == json_nested_entry(outer@, inner@, value),
{
    let mut fields = HashMap::new();
    fields.insert(inner, value);
    let mut body = HashMap::new();
    body.insert(outer, fields);
    json::encode(&body).unwrap()
}

/// A request ready to be transmitted.
#[derive(Debug, PartialEq, Eq)]
pub struct Request {
    pub method: Method,
    pub body: Option<String>,
    pub url: String,
    /// Header names and values, in the order they are to be set.
    pub headers: Vec<(String, String)>,
}

/// Mathematical model of a [`Request`].
pub struct RequestView {
    pub method: Method,
    pub body: Option<Seq<char>>,
    pub url: Seq<char>,
    pub headers: Seq<(Seq<char>, Seq<char>)>,
}

impl View for Request {
    type V = RequestView;

    open spec fn view(&self) -> RequestView {
        RequestView {
            method: self.method,
            body: match self.body {
                Some(text) => Some(text@),
                None => None,
            },
            url: self.url@,
            headers: Seq::new(
                self.headers@.len(),
                |i: int| (self.headers@[i].0@, self.headers@[i].1@),
            ),
        }
    }
}

/// The headers every request carries: the API key that authenticates the
/// caller, and the JSON content type.
pub open spec fn standard_headers(key: Seq<char>) -> Seq<(Seq<char>, Seq<char>)> {
    seq![("X-Redmine-API-Key"@, key), ("Content-Type"@, "application/json"@)]
}

/// The request for `path` below the configured server, or `None` where the
/// configured URL and the path do not resolve to a URL.
pub open spec fn request_to(
    config: Config,
    method: Method,
    body: Option<Seq<char>>,
    path: Seq<char>,
) -> Option<RequestView> {
    match url_joined(config.data.redmine_url@, path) {
        Some(url) => Some(
            RequestView { method, body, url, headers: standard_headers(config.data.redmine_key@) },
        ),
        None => None,
    }
}

/// The path of one issue below the server's root.
pub open spec fn issue_path(number: u32) -> Seq<char> {
    "issues/"@ + decimal(number as nat) + ".json"@
}

/// Whether `found` is the request that `expected` describes.
pub open spec fn is_request(found: Option<Request>, expected: Option<RequestView>) -> bool {
    match found {
        Some(request) => expected == Some(request@),
        None => expected is None,
    }
}

/// What an answer with this status means for a request with this method and
/// URL: `None` for a success, otherwise the error.
pub open spec fn status_error(method: Method, url: String, status: u16) -> Option<Error> {
    if status == 401 || status == 403 {
        Some(Error::Forbidden(method, url))
    } else if class_of(status) == StatusClass::ServerError {
        Some(Error::Server(method, url))
    } else if class_of(status) == StatusClass::Success {
        None
    } else {
        Some(Error::Unknown(method, url, status))
    }
}

/// Access to one tracker, as configured.
#[derive(Debug, PartialEq, Eq)]
pub struct Client {
    pub config: Config,
}

impl Client {
    pub fn config(&self) -> (config: &Config)
        ensures
            *config == self.config,
    {
        &self.config
    }

    pub fn new(config: Config) -> (client: Client)
        ensures
            client.config == config,
    {
        Client { config }
    }

    /// Resolves a path against the configured server URL.
    pub fn build_url(&self, path: &str) -> (url: Option<String>)
        ensures
            match url {
                Some(text) => url_joined(self.config.data.redmine_url@, path@) == Some(text@),
                None => url_joined(self.config.data.redmine_url@, path@) is None,
            },
    {
        join_url(self.config.redmine_url(), path)
    }

    /// The URL of one issue.
    pub fn issue_url(&self, number: u32) -> (url: Option<String>)
        ensures
            match url {
                Some(text) => url_joined(self.config.data.redmine_url@, issue_path(number))
                    == Some(text@),
                None => url_joined(self.config.data.redmine_url@, issue_path(number)) is None,
            },
    {
        let mut path = String::from_str("issues/");
        let digits = decimal_string(number);
        path.append(digits.as_str());
        path.append(".json");
        self.build_url(path.as_str())
    }

    /// Puts a request together from its parts and the standard headers;
    /// without a URL there is no request.
    pub fn request(&self, method: Method, body: Option<String>, url: Option<String>) -> (found: Option<
        Request,
    >)
        ensures
            match found {
                Some(request) => url matches Some(text) && request.method == method && request.body
                    == body && request.url == text && request@.headers == standard_headers(
                    self.config.data.redmine_key@,
                ),
                None => url is None,
            },
    {
        match url {
            Some(url) => {
                let mut headers: Vec<(String, String)> = Vec::new();
                headers.push(
                    (String::from_str("X-Redmine-API-Key"), self.config.data.redmine_key.clone()),
                );
                headers.push(
                    (String::from_str("Content-Type"), String::from_str("application/json")),
                );
                let request = Request { method, body, url, headers };
                assert(request@.headers =~= standard_headers(self.config.data.redmine_key@));
                Some(request)
            },
            None => None,
        }
    }

    /// The request that sets the status of issue `number` to the status with
    /// id `status`: a `PUT` to the issue's URL whose body is the JSON object
    /// `{"issue": {"status_id": status}}`.
    pub fn update_issue(&self, number: u32, status: u32) -> (found: Option<Request>)
        ensures
            is_request(
                found,
                request_to(
                    self.config,
                    Method::Put,
                    Some(json_nested_entry("issue"@, "status_id"@, status)),
                    issue_path(number),
                ),
            ),
    {
        let body = encode_nested_entry("issue", "status_id", status);
        let url = self.issue_url(number);
        self.request(Method::Put, Some(body), url)
    }

    /// The request that fetches the issue statuses: a `GET` without a body.
    pub fn issue_statuses(&self) -> (found: Option<Request>)
        ensures
            is_request(
                found,
                request_to(self.config, Method::Get, None, "issue_statuses.json"@),
            ),
    {
        let url = self.build_url("issue_statuses.json");
        self.request(Method::Get, None, url)
    }

    /// The request that fetches the users: a `GET` without a body.
    pub fn users(&self) -> (found: Option<Request>)
        ensures
            is_request(found, request_to(self.config, Method::Get, None, "users.json"@)),
    {
        let url = self.build_url("users.json");
        self.request(Method::Get, None, url)
    }

    /// Reads the outcome of transmitting `request`. `answer` is the status
    /// code of the response, or the transport's words where no response came.
    /// A transport failure is an `Http` error; 401 and 403 are `Forbidden`; a
    /// 5xx status is `Server`; a 2xx status is the one success; every other
    /// status is `Unknown` and carries the code.
    pub fn send_request(request: Request, answer: Result<u16, String>) -> (outcome: Result<
        (),
        Error,
    >)
        ensures
            outcome == match answer {
                Ok(status) => match status_error(request.method, request.url, status) {
                    Some(error) => Err::<(), Error>(error),
                    None => Ok(()),
                },
                Err(cause) => Err(Error::Http(cause)),
            },
    {
        match answer {
            Err(cause) => Err(Error::Http(cause)),
            Ok(status) => {
                if status == 401 || status == 403 {
                    Err(Error::Forbidden(request.method, request.url))
                } else {
                    match status_class(status) {
                        StatusClass::ServerError => Err(Error::Server(request.method, request.url)),
                        StatusClass::Success => Ok(()),
                        _ => Err(Error::Unknown(request.method, request.url, status)),
                    }
                }
            },
        }
    }
}

/// The reading of a status sorts every code into exactly one outcome:
/// success for 2xx, `Forbidden` for 401 and 403, `Server` for 5xx, and
/// `Unknown`, with the code, for everything else.
pub proof fn lemma_status_outcomes(method: Method, url: String, status: u16)
    ensures
        status_error(method, url, status) is None <==> 200 <= status < 300,
        status_error(method, url, status) == Some(Error::Forbidden(method, url)) <==> (status == 401
            || status == 403),
        status_error(method, url, status) == Some(Error::Server(method, url)) <==> 500 <= status
            < 600,
        status_error(method, url, status) == Some(Error::Unknown(method, url, status)) <==> !(200
            <= status < 300) && !(500 <= status < 600) && status != 401 && status != 403,
{
}

} // verus!
