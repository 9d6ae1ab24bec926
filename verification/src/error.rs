//! The ways in which a call of the service fails.

use vstd::prelude::*;
use vstd::string::StringExecFns;
use crate::json::{parsed_text, Json, JsonValue};

verus! {

/// A numeric code by which the service identifies a kind of error.
#[derive(Debug, Clone, Copy, PartialEq, Eq, Structural)]
pub struct ErrorCode(pub u64);

/// The error object of a reply in which the service reports a failure.
#[derive(Debug, Clone)]
pub struct ResponseError {
    /// A numeric error code that identifies the kind of error.
    pub code: ErrorCode,
    /// A message in English, fit for a log file or for showing to a user.
    pub message: String,
}

/// The content of a [`ResponseError`].
pub struct ResponseErrorView {
    pub code: u64,
    pub message: Seq<char>,
}

impl View for ResponseError {
    type V = ResponseErrorView;

    open spec fn view(&self) -> ResponseErrorView {
        ResponseErrorView { code: self.code.0, message: self.message@ }
    }
}

/// A parameter of a request, named where it is outside the range that the service
/// documents for it.
#[derive(Debug, Clone, Copy, PartialEq, Eq, Structural)]
pub enum Parameter {
    Min,
    Max,
    Limit,
    DecimalPlaces,
    Mean,
    StandardDeviation,
    SignificantDigits,
    Length,
    Characters,
    Size,
}

impl Parameter {
    /// The name of the parameter as a caller of the client writes it.
    pub open spec fn spec_name(self) -> Seq<char> {
        match self {
            Parameter::Min => "min"@,
            Parameter::Max => "max"@,
            Parameter::Limit => "limit"@,
            Parameter::DecimalPlaces => "decimal_places"@,
            Parameter::Mean => "mean"@,
            Parameter::StandardDeviation => "standard_deviation"@,
            Parameter::SignificantDigits => "significant_digits"@,
            Parameter::Length => "length"@,
            Parameter::Characters => "characters"@,
            Parameter::Size => "size"@,
        }
    }

    /// Returns the name of the parameter as a caller of the client writes it.
    pub fn name(self) -> (name: &'static str)
        ensures
            name@ == self.spec_name(),
    {
        match self {
            Parameter::Min => "min",
            Parameter::Max => "max",
            Parameter::Limit => "limit",
            Parameter::DecimalPlaces => "decimal_places",
            Parameter::Mean => "mean",
            Parameter::StandardDeviation => "standard_deviation",
            Parameter::SignificantDigits => "significant_digits",
            Parameter::Length => "length",
            Parameter::Characters => "characters",
            Parameter::Size => "size",
        }
    }
}

/// Why a body could not be read as the reply that was expected.
#[derive(Debug, Clone)]
pub enum DecodeError {
    /// The body is not a JSON document. Holds the parser's message.
    Syntax(String),
    /// A member that the reply must have is not there. Holds the member's name.
    Missing(String),
    /// A member holds a value of the wrong kind or outside its range. Holds the
    /// member's name.
    Invalid(String),
    /// A timestamp is not in the service's format. Holds the parser's message and
    /// the text that it was given.
    Timestamp(String, String),
}

/// The content of a [`DecodeError`].
pub enum DecodeErrorView {
    Syntax(Seq<char>),
    Missing(Seq<char>),
    Invalid(Seq<char>),
    Timestamp(Seq<char>, Seq<char>),
}

impl View for DecodeError {
    type V = DecodeErrorView;

    open spec fn view(&self) -> DecodeErrorView {
        match *self {
            DecodeError::Syntax(message) => DecodeErrorView::Syntax(message@),
            DecodeError::Missing(name) => DecodeErrorView::Missing(name@),
            DecodeError::Invalid(name) => DecodeErrorView::Invalid(name@),
            DecodeError::Timestamp(message, text) => DecodeErrorView::Timestamp(
                message@,
                text@,
            ),
        }
    }
}

impl DecodeErrorView {
    /// The error in words.
    pub open spec fn description(self) -> Seq<char> {
        match self {
            DecodeErrorView::Syntax(message) => message,
            DecodeErrorView::Missing(name) => "missing field `"@ + name + "`"@,
            DecodeErrorView::Invalid(name) => "invalid value of field `"@ + name + "`"@,
            DecodeErrorView::Timestamp(message, text) => "Parse error "@ + message + " for "@
                + text,
        }
    }
}

impl DecodeError {
    /// Says the error in words.
    pub fn description(&self) -> (r: String)
        ensures
            r@ == self@.description(),
    {
        match self {
            DecodeError::Syntax(message) => message.clone(),
            DecodeError::Missing(name) => {
                let mut r = "missing field `".to_owned();
                r.append(name.as_str());
                r.append("`");
                r
            },
            DecodeError::Invalid(name) => {
                let mut r = "invalid value of field `".to_owned();
                r.append(name.as_str());
                r.append("`");
                r
            },
            DecodeError::Timestamp(message, text) => {
                let mut r = "Parse error ".to_owned();
                r.append(message.as_str());
                r.append(" for ");
                r.append(text.as_str());
                r
            },
        }
    }
}

/// A failed call.
#[derive(Debug, Clone)]
pub enum Error {
    /// The HTTP exchange itself did not complete. Holds the transport's message.
    Transport(String),
    /// A request could not be written as JSON. Holds the serializer's message.
    Encode(String),
    /// The body of a successful reply could not be read.
    Json(DecodeError),
    /// The service reported a failure: the HTTP status and the error object.
    RandomOrg(u16, ResponseError),
    /// A reply without success that holds no error object: the HTTP status and
    /// the body as it came.
    Status(u16, String),
    /// A parameter is outside the range that the service documents: nothing was
    /// sent.
    InvalidParameter(Parameter),
}

/// The content of an [`Error`].
pub enum ErrorView {
    Transport(Seq<char>),
    Encode(Seq<char>),
    Json(DecodeErrorView),
    RandomOrg(u16, ResponseErrorView),
    Status(u16, Seq<char>),
    InvalidParameter(Parameter),
}

impl View for Error {
    type V = ErrorView;

    open spec fn view(&self) -> ErrorView {
        match *self {
            Error::Transport(message) => ErrorView::Transport(message@),
            Error::Encode(message) => ErrorView::Encode(message@),
            Error::Json(e) => ErrorView::Json(e@),
            Error::RandomOrg(status, e) => ErrorView::RandomOrg(status, e@),
            Error::Status(status, body) => ErrorView::Status(status, body@),
            Error::InvalidParameter(p) => ErrorView::InvalidParameter(p),
        }
    }
}

/// What `http::StatusCode::canonical_reason` gives for a status from 100 to 999:
/// the reason phrase that is usual for it, if there is one. Another number has
/// none.
pub uninterp spec fn canonical_reason(status: u16) -> Option<Seq<char>>;

/// `http::StatusCode::canonical_reason` of the status that
/// `http::StatusCode::from_u16` makes of a number: the result is what
/// [`canonical_reason`] names. A number that is no status has no reason phrase.
#[verifier::external_body]
fn reason_phrase(status: u16) -> (r: Option<&'static str>)
    ensures
        match r {
            Some(phrase) => canonical_reason(status) == Some(phrase@),
            None => canonical_reason(status) is None,
        },
{
    http::StatusCode::from_u16(status).ok().and_then(|code| code.canonical_reason())
}

impl ErrorView {
    /// The error in words, given the reason phrase of its status.
    pub open spec fn description_with(self, reason: Option<Seq<char>>) -> Seq<char> {
        match self {
            ErrorView::Transport(message) => message,
            ErrorView::Encode(message) => message,
            ErrorView::Json(e) => e.description(),
            ErrorView::RandomOrg(_, _) | ErrorView::Status(_, _) => match reason {
                Some(phrase) => phrase,
                None => "Unknown bad HTTP status"@,
            },
            ErrorView::InvalidParameter(p) => "parameter out of range: "@ + p.spec_name(),
        }
    }

    /// The HTTP status that the error holds, or 0.
    pub open spec fn status(self) -> u16 {
        match self {
            ErrorView::RandomOrg(status, _) => status,
            ErrorView::Status(status, _) => status,
            _ => 0,
        }
    }

    /// The error in words. A reply without success is described by the reason
    /// phrase that is usual for its status.
    pub open spec fn description(self) -> Seq<char> {
        self.description_with(canonical_reason(self.status()))
    }
}

/// Whether an HTTP status is in the success range, 200 to 299.
pub open spec fn status_is_success(status: u16) -> bool {
    200 <= status < 300
}

/// Whether an HTTP status is in the success range, 200 to 299.
pub fn is_success(status: u16) -> (r: bool)
    ensures
        r == status_is_success(status),
{
    200 <= status && status < 300
}

impl ResponseError {
    /// The error object that a document holds: its member `error`, where that has
    /// a member `code` that is an integer from 0 to `u64::MAX` and a member
    /// `message` that is a string.
    pub open spec fn of_json(doc: JsonValue) -> Option<ResponseErrorView> {
        match doc.member("error"@) {
            Some(error) => match error.member("code"@) {
                Some(code) => match code.as_u64() {
                    Some(code) => match error.member("message"@) {
                        Some(message) => match message.as_str() {
                            Some(message) => Some(ResponseErrorView { code, message }),
                            None => None,
                        },
                        None => None,
                    },
                    None => None,
                },
                None => None,
            },
            None => None,
        }
    }

    /// Reads the error object that a document holds, if it holds one.
    pub fn from_json(doc: &Json) -> (r: Option<ResponseError>)
        ensures
            match r {
                Some(e) => ResponseError::of_json(doc@) == Some(e@),
                None => ResponseError::of_json(doc@) is None,
            },
    {
        let error = match doc.member("error") {
            Some(error) => error,
            None => return None,
        };
        let code = match error.member("code") {
            Some(code) => code,
            None => return None,
        };
        let code = match code.as_u64() {
            Some(code) => code,
            None => return None,
        };
        let message = match error.member("message") {
            Some(message) => message,
            None => return None,
        };
        match message.as_str() {
            Some(message) => Some(ResponseError { code: ErrorCode(code), message }),
            None => None,
        }
    }
}

impl Error {
    /// The failure that a reply stands for, given what the JSON parser made of its
    /// body: what the service reported, where the status is outside the success
    /// range and the body is a document that holds an error object; the bare
    /// status and body otherwise.
    pub open spec fn of_parsed_reply(
        status: u16,
        body: Seq<char>,
        parsed: Result<JsonValue, Seq<char>>,
    ) -> ErrorView {
        if status_is_success(status) {
            ErrorView::Status(status, body)
        } else {
            match parsed {
                Ok(doc) => match ResponseError::of_json(doc) {
                    Some(e) => ErrorView::RandomOrg(status, e),
                    None => ErrorView::Status(status, body),
                },
                Err(_) => ErrorView::Status(status, body),
            }
        }
    }

    /// The failure that a reply with this status and body stands for.
    pub open spec fn of_reply(status: u16, body: Seq<char>) -> ErrorView {
        Error::of_parsed_reply(status, body, parsed_text(body))
    }

    /// Tells what failure a reply stands for, given what the JSON parser made of
    /// its body.
    pub fn from_parsed_reply(status: u16, body: String, parsed: &Result<Json, String>) -> (e:
        Error)
        ensures
            e@ == Error::of_parsed_reply(
                status,
                body@,
                match *parsed {
                    Ok(doc) => Ok(doc@),
                    Err(message) => Err(message@),
                },
            ),
    {
        if is_success(status) {
            return Error::Status(status, body);
        }
        match parsed {
            Ok(doc) => match ResponseError::from_json(doc) {
                Some(e) => Error::RandomOrg(status, e),
                None => Error::Status(status, body),
            },
            Err(_) => Error::Status(status, body),
        }
    }

    /// Says the error in words, given the reason phrase of its status.
    pub fn description_with(&self, reason: Option<&str>) -> (r: String)
        ensures
            r@ == self@.description_with(
                match reason {
                    Some(phrase) => Some(phrase@),
                    None => None,
                },
            ),
    {
        match self {
            Error::Transport(message) => message.clone(),
            Error::Encode(message) => message.clone(),
            Error::Json(e) => e.description(),
            Error::RandomOrg(_, _) | Error::Status(_, _) => match reason {
                Some(phrase) => phrase.to_owned(),
                None => "Unknown bad HTTP status".to_owned(),
            },
            Error::InvalidParameter(p) => {
                let mut r = "parameter out of range: ".to_owned();
                r.append(p.name());
                r
            },
        }
    }

    /// Says the error in words.
    pub fn description(&self) -> (r: String)
        ensures
            r@ == self@.description(),
    {
        let status: u16 = match self {
            Error::RandomOrg(status, _) => *status,
            Error::Status(status, _) => *status,
            _ => 0,
        };
        self.description_with(reason_phrase(status))
    }

    /// Tells what failure a reply with this status and body stands for.
    pub fn from_response(status: u16, body: String) -> (e: Error)
        ensures
            e@ == Error::of_reply(status, body@),
    {
        let parsed = Json::parse(body.as_str());
        Error::from_parsed_reply(status, body, &parsed)
    }
}

} // verus!
