//! The errors that an operation of the client can end in.

use vstd::prelude::*;
use vstd::string::*;
use crate::decimal::{decimal, decimal_text};

verus! {

/// What a response status outside the success range means.
#[derive(Debug, Clone, Copy, PartialEq, Eq, Structural)]
pub enum ApiStatus {
    InvalidRequest,
    Unauthenticated,
    ProRequired,
    Unauthorized,
    NotFound,
    Unprocessable,
    RateLimited,
    Unexpected,
    Undocumented(u16),
}

/// Whether a status code lies in the success range, 200 to 299.
pub open spec fn status_is_success(status: u16) -> bool {
    200 <= status < 300
}

/// The classification of a status code.
pub open spec fn classify(status: u16) -> ApiStatus {
    if status == 400 {
        ApiStatus::InvalidRequest
    } else if status == 401 {
        ApiStatus::Unauthenticated
    } else if status == 402 {
        ApiStatus::ProRequired
    } else if status == 403 {
        ApiStatus::Unauthorized
    } else if status == 404 {
        ApiStatus::NotFound
    } else if status == 422 {
        ApiStatus::Unprocessable
    } else if status == 429 {
        ApiStatus::RateLimited
    } else if status == 500 {
        ApiStatus::Unexpected
    } else {
        ApiStatus::Undocumented(status)
    }
}

impl ApiStatus {
    /// Classifies the status code of a response that was not a success.
    pub fn from_code(status: u16) -> (res: ApiStatus)
        ensures
            res == classify(status),
    {
        if status == 400 {
            ApiStatus::InvalidRequest
        } else if status == 401 {
            ApiStatus::Unauthenticated
        } else if status == 402 {
            ApiStatus::ProRequired
        } else if status == 403 {
            ApiStatus::Unauthorized
        } else if status == 404 {
            ApiStatus::NotFound
        } else if status == 422 {
            ApiStatus::Unprocessable
        } else if status == 429 {
            ApiStatus::RateLimited
        } else if status == 500 {
            ApiStatus::Unexpected
        } else {
            ApiStatus::Undocumented(status)
        }
    }

    /// The words that describe the status.
    pub open spec fn spec_description(self) -> Seq<char> {
        match self {
            ApiStatus::InvalidRequest => "invalid request"@,
            ApiStatus::Unauthenticated => "unauthenticated"@,
            ApiStatus::ProRequired => "Pro required"@,
            ApiStatus::Unauthorized => "unauthorized"@,
            ApiStatus::NotFound => "not found"@,
            ApiStatus::Unprocessable => "unprocessable content"@,
            ApiStatus::RateLimited => "rate limited"@,
            ApiStatus::Unexpected => "unexpected"@,
            ApiStatus::Undocumented(code) => "undocumented status code: "@ + decimal(code as nat),
        }
    }

    /// Describes the status in words.
    pub fn description(&self) -> (res: String)
        ensures
            res@ == self.spec_description(),
    {
        match self {
            ApiStatus::InvalidRequest => String::from_str("invalid request"),
            ApiStatus::Unauthenticated => String::from_str("unauthenticated"),
            ApiStatus::ProRequired => String::from_str("Pro required"),
            ApiStatus::Unauthorized => String::from_str("unauthorized"),
            ApiStatus::NotFound => String::from_str("not found"),
            ApiStatus::Unprocessable => String::from_str("unprocessable content"),
            ApiStatus::RateLimited => String::from_str("rate limited"),
            ApiStatus::Unexpected => String::from_str("unexpected"),
            ApiStatus::Undocumented(code) => {
                let digits = decimal_text(*code as u64);
                String::from_str("undocumented status code: ").concat(digits.as_str())
            },
        }
    }
}

/// Why an operation of the client failed.
#[derive(Debug)]
#[allow(inconsistent_fields)]
pub enum ClientError {
    /// The service answered with success but broke what the client relies on.
    String(String),
    /// A credential that the operation needs is not configured.
    Missing { message: String },
    /// The request could not be carried out.
    Request { message: String, source: reqwest::Error },
    /// A local file operation failed.
    Io { message: String, source: std::io::Error },
    /// A response that should hold a bare URL did not.
    Url { message: String, source: url::ParseError },
    /// The service answered with a status outside the success range.
    Api { message: String, status: ApiStatus, text: String },
    /// A response body was not JSON of the expected shape.
    Json { message: String, text: String, source: serde_json::Error, type_label: &'static str },
}

/// What an error says, without the outside cause that it carries.
pub enum ErrorView {
    String(Seq<char>),
    Missing(Seq<char>),
    Request(Seq<char>),
    Io(Seq<char>),
    Url(Seq<char>),
    Api { message: Seq<char>, status: ApiStatus, text: Seq<char> },
    Json { message: Seq<char>, text: Seq<char>, type_label: Seq<char> },
}

impl View for ClientError {
    type V = ErrorView;

    open spec fn view(&self) -> ErrorView {
        match self {
            ClientError::String(message) => ErrorView::String(message@),
            ClientError::Missing { message } => ErrorView::Missing(message@),
            ClientError::Request { message, .. } => ErrorView::Request(message@),
            ClientError::Io { message, .. } => ErrorView::Io(message@),
            ClientError::Url { message, .. } => ErrorView::Url(message@),
            ClientError::Api { message, status, text } => ErrorView::Api {
                message: message@,
                status: *status,
                text: text@,
            },
            ClientError::Json { message, text, type_label, .. } => ErrorView::Json {
                message: message@,
                text: text@,
                type_label: type_label@,
            },
        }
    }
}

impl ClientError {
    /// The text that presents the error to a person.
    pub open spec fn spec_to_text(self) -> Seq<char> {
        match self {
            ClientError::String(message) => message@,
            ClientError::Missing { message } => message@,
            ClientError::Request { message, .. } => message@,
            ClientError::Io { message, .. } => message@,
            ClientError::Url { message, .. } => message@,
            ClientError::Api { message, text, .. } => message@ + " ("@ + text@ + ")"@,
            ClientError::Json { message, text, type_label, .. } => message@ + " - type "@ + type_label@
                + " ("@ + text@ + ")"@,
        }
    }

    /// Presents the error to a person: the message, and the response text
    /// where the error carries one.
    pub fn to_text(&self) -> (res: String)
        ensures
            res@ == self.spec_to_text(),
    {
        match self {
            ClientError::String(message) => message.clone(),
            ClientError::Missing { message } => message.clone(),
            ClientError::Request { message, .. } => message.clone(),
            ClientError::Io { message, .. } => message.clone(),
            ClientError::Url { message, .. } => message.clone(),
            ClientError::Api { message, text, .. } => message.clone().concat(" (").concat(
                text.as_str(),
            ).concat(")"),
            ClientError::Json { message, text, type_label, .. } => message.clone().concat(
                " - type ",
            ).concat(type_label).concat(" (").concat(text.as_str()).concat(")"),
        }
    }
}

/// Turns an absent value into the error of a missing credential.
pub trait WrapNone<T>: Sized {
    fn wrap_none(self, msg: &str) -> Result<T, ClientError>;
}

impl<T> WrapNone<T> for Option<T> {
    fn wrap_none(self, msg: &str) -> (res: Result<T, ClientError>)
        ensures
            match self {
                Some(t) => res == Ok::<T, ClientError>(t),
                None => res matches Err(e) && e@ == ErrorView::Missing(msg@),
            },
    {
        match self {
            Some(t) => Ok(t),
            None => Err(ClientError::Missing { message: String::from_str(msg) }),
        }
    }
}

/// Gives the failure of an outside operation the message of the step that
/// failed.
pub trait WrapErr<T, E>: Sized {
    fn wrap_err(self, msg: &str) -> Result<T, ClientError>;
}

impl<T> WrapErr<T, std::io::Error> for Result<T, std::io::Error> {
    fn wrap_err(self, msg: &str) -> (res: Result<T, ClientError>)
        ensures
            match self {
                Ok(t) => res == Ok::<T, ClientError>(t),
                Err(e) => res matches Err(ClientError::Io { message, source }) && message@ == msg@
                    && source == e,
            },
    {
        match self {
            Ok(t) => Ok(t),
            Err(source) => Err(ClientError::Io { message: String::from_str(msg), source }),
        }
    }
}

impl<T> WrapErr<T, reqwest::Error> for Result<T, reqwest::Error> {
    fn wrap_err(self, msg: &str) -> (res: Result<T, ClientError>)
        ensures
            match self {
                Ok(t) => res == Ok::<T, ClientError>(t),
                Err(e) => res matches Err(ClientError::Request { message, source }) && message@ == msg@
                    && source == e,
            },
    {
        match self {
            Ok(t) => Ok(t),
            Err(source) => Err(ClientError::Request { message: String::from_str(msg), source }),
        }
    }
}

impl<T> WrapErr<T, url::ParseError> for Result<T, url::ParseError> {
    fn wrap_err(self, msg: &str) -> (res: Result<T, ClientError>)
        ensures
            match self {
                Ok(t) => res == Ok::<T, ClientError>(t),
                Err(e) => res matches Err(ClientError::Url { message, source }) && message@ == msg@
                    && source == e,
            },
    {
        match self {
            Ok(t) => Ok(t),
            Err(source) => Err(ClientError::Url { message: String::from_str(msg), source }),
        }
    }
}

/// The name under which a decoding failure reports the type it expected.
pub trait TypeName {
    /// The name as contracts speak of it.
    spec fn spec_type_label() -> Seq<char>;

    fn type_label() -> (res: &'static str)
        ensures
            res@ == Self::spec_type_label(),
    ;
}

impl TypeName for serde_json::Value {
    open spec fn spec_type_label() -> Seq<char> {
        "value"@
    }

    fn type_label() -> (res: &'static str) {
        "value"
    }
}

impl TypeName for Vec<serde_json::Value> {
    open spec fn spec_type_label() -> Seq<char> {
        "vector of values"@
    }

    fn type_label() -> (res: &'static str) {
        "vector of values"
    }
}

} // verus!
