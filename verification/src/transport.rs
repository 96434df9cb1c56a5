//! Requests and responses as plain values, and the two checks that every
//! response goes through: its status and the shape of its body.

use vstd::prelude::*;
use vstd::string::*;
use crate::error::{
    classify, status_is_success, ApiStatus, ClientError, ErrorView, TypeName, WrapErr,
};
use crate::trusted::header_entries;

verus! {

/// The method of a request.
#[derive(Clone, Copy, Debug, PartialEq, Eq, Structural)]
pub enum Method {
    Get,
    Post,
}

/// A named text: a query parameter or a request header.
#[derive(Clone, Debug)]
pub struct Param {
    pub name: String,
    pub value: String,
}

/// One part of a multipart form.
#[derive(Clone, Debug)]
pub enum Part {
    /// A text field.
    Text { name: String, value: String },
    /// The bytes of the file that is uploaded.
    File { name: String },
}

/// A request that the caller is to send.
#[derive(Clone, Debug)]
pub struct Request {
    pub method: Method,
    pub url: String,
    pub query: Vec<Param>,
    pub headers: Vec<Param>,
    pub form: Vec<Part>,
}

/// A response as the caller received it: the status code, the headers and
/// the body as text, or the failure of reading the body.
#[derive(Debug)]
pub struct Response {
    pub status: u16,
    pub headers: http::HeaderMap,
    pub text: Result<String, reqwest::Error>,
}

/// A part of a form as contracts speak of it.
pub enum PartView {
    Text { name: Seq<char>, value: Seq<char> },
    File { name: Seq<char> },
}

/// A request as contracts speak of it.
pub struct RequestView {
    pub method: Method,
    pub url: Seq<char>,
    pub query: Seq<(Seq<char>, Seq<char>)>,
    pub headers: Seq<(Seq<char>, Seq<char>)>,
    pub form: Seq<PartView>,
}

impl View for Param {
    type V = (Seq<char>, Seq<char>);

    open spec fn view(&self) -> (Seq<char>, Seq<char>) {
        (self.name@, self.value@)
    }
}

impl View for Part {
    type V = PartView;

    open spec fn view(&self) -> PartView {
        match self {
            Part::Text { name, value } => PartView::Text { name: name@, value: value@ },
            Part::File { name } => PartView::File { name: name@ },
        }
    }
}

/// The named texts of a list of parameters, in order.
pub open spec fn params_view(params: Seq<Param>) -> Seq<(Seq<char>, Seq<char>)> {
    Seq::new(params.len(), |i: int| params[i]@)
}

/// The parts of a form, in order.
pub open spec fn parts_view(parts: Seq<Part>) -> Seq<PartView> {
    Seq::new(parts.len(), |i: int| parts[i]@)
}

impl View for Request {
    type V = RequestView;

    open spec fn view(&self) -> RequestView {
        RequestView {
            method: self.method,
            url: self.url@,
            query: params_view(self.query@),
            headers: params_view(self.headers@),
            form: parts_view(self.form@),
        }
    }
}

/// What the headers hold under a name: nothing where no header has the
/// name, else the value of the first that has it, which is absent as text
/// where it is not visible ASCII.
pub open spec fn header_value(headers: http::HeaderMap, name: Seq<char>) -> Option<
    Option<Seq<char>>,
> {
    if header_entries(headers).contains_key(name) {
        Some(header_entries(headers)[name])
    } else {
        None
    }
}

/// The text of a header that is present and readable, and nothing otherwise.
pub open spec fn header_text(headers: http::HeaderMap, name: Seq<char>) -> Option<Seq<char>> {
    match header_value(headers, name) {
        Some(Some(text)) => Some(text),
        _ => None,
    }
}

/// The body that a failed response reports where its own could not be read.
pub open spec fn spec_body_or_placeholder(text: Result<String, reqwest::Error>) -> Seq<char> {
    match text {
        Ok(text) => text@,
        Err(_) => "TEXT MISSING"@,
    }
}

/// The error that a response with a status outside 200 to 299 ends in.
pub open spec fn spec_refusal(response: Response, msg: Seq<char>) -> ErrorView {
    ErrorView::Api {
        message: msg,
        status: classify(response.status),
        text: spec_body_or_placeholder(response.text),
    }
}

/// Accepts a response by its status.
pub trait Verify: Sized {
    fn verify(self, msg: &str) -> Result<Self, ClientError>;
}

impl Verify for Response {
    /// Hands a response with a status from 200 to 299 back unchanged. Any
    /// other status is an error that carries the message, the class of the
    /// status and the body, or a placeholder where the body could not be
    /// read.
    fn verify(self, msg: &str) -> (res: Result<Response, ClientError>)
        ensures
            status_is_success(self.status) ==> res == Ok::<Response, ClientError>(self),
            !status_is_success(self.status) ==> (res matches Err(e) && e@ == spec_refusal(
                self,
                msg@,
            )),
    {
        if 200 <= self.status && self.status < 300 {
            return Ok(self);
        }
        let status = ApiStatus::from_code(self.status);
        let text = match self.text {
            Ok(text) => text,
            Err(_) => String::from_str("TEXT MISSING"),
        };
        Err(ClientError::Api { message: String::from_str(msg), status, text })
    }
}

/// Whether `res` is what a decoding attempt on a body comes to: the decoded
/// value, or an error that carries the message, the body as it was received,
/// the refusal and the name of `T`.
pub open spec fn spec_decoded<T: TypeName>(
    body: String,
    parsed: Result<T, serde_json::Error>,
    msg: Seq<char>,
    res: Result<T, ClientError>,
) -> bool {
    match parsed {
        Ok(value) => res == Ok::<T, ClientError>(value),
        Err(failure) => res matches Err(ClientError::Json { message, text, source, type_label })
            && message@ == msg && text == body && source == failure && type_label@
            == T::spec_type_label(),
    }
}

/// Turns the outcome of a decoding attempt on a body into the result of the
/// operation.
pub fn decoded<T: TypeName>(body: String, parsed: Result<T, serde_json::Error>, msg: &str) -> (res:
    Result<T, ClientError>)
    ensures
        spec_decoded(body, parsed, msg@, res),
{
    match parsed {
        Ok(value) => Ok(value),
        Err(source) => Err(
            ClientError::Json {
                message: String::from_str(msg),
                text: body,
                source,
                type_label: T::type_label(),
            },
        ),
    }
}

/// Whether `res` is what decoding the body of a response gives: what
/// [`decoded`] makes of the body and of the outcome of `decode` on it; for a
/// body that could not be read, the failure of the request.
pub open spec fn spec_extracted<T: TypeName, F: FnOnce(String) -> Result<T, serde_json::Error>>(
    text: Result<String, reqwest::Error>,
    decode: F,
    msg: Seq<char>,
    res: Result<T, ClientError>,
) -> bool {
    match text {
        Err(failure) => res matches Err(ClientError::Request { message, source }) && message@
            == "response contained invalid text"@ && source == failure,
        Ok(body) => exists|parsed: Result<T, serde_json::Error>| #[trigger]
            decode.ensures((body,), parsed) && spec_decoded(body, parsed, msg, res),
    }
}

/// Decodes a body that was read as text, or reports the failure of reading
/// it.
pub fn extract_text<T: TypeName, F>(text: Result<String, reqwest::Error>, decode: F, msg: &str) -> (res:
    Result<T, ClientError>) where F: FnOnce(String) -> Result<T, serde_json::Error>
    requires
        forall|body: String| decode.requires((body,)),
    ensures
        spec_extracted(text, decode, msg@, res),
{
    match text.wrap_err("response contained invalid text") {
        Err(e) => Err(e),
        Ok(body) => {
            let parsed = decode(body.clone());
            decoded(body, parsed, msg)
        },
    }
}

/// Whether `res` is what checking the status of a response and then
/// decoding its body gives.
pub open spec fn spec_checked_json<
    T: TypeName,
    F: FnOnce(String) -> Result<T, serde_json::Error>,
>(
    response: Response,
    decode: F,
    refusal_msg: Seq<char>,
    decode_msg: Seq<char>,
    res: Result<T, ClientError>,
) -> bool {
    if status_is_success(response.status) {
        spec_extracted(response.text, decode, decode_msg, res)
    } else {
        res matches Err(e) && e@ == spec_refusal(response, refusal_msg)
    }
}

/// Reads the body of a response as a value of type `T`.
pub trait ExtractJson<T>: Sized {
    fn extract_json<F>(self, decode: F, msg: &str) -> Result<T, ClientError> where
        F: FnOnce(String) -> Result<T, serde_json::Error>,

        requires
            forall|text: String| decode.requires((text,)),
    ;
}

impl<T: TypeName> ExtractJson<T> for Response {
    /// Takes the body as text first and hands a copy of it to `decode`.
    /// Where `decode` refuses it, the error carries the message, the text as
    /// it was received, the refusal and the name of `T`. A body that could
    /// not be read is a failure of the request.
    fn extract_json<F>(self, decode: F, msg: &str) -> (res: Result<T, ClientError>) where
        F: FnOnce(String) -> Result<T, serde_json::Error>,

        ensures
            spec_extracted(self.text, decode, msg@, res),
    {
        extract_text(self.text, decode, msg)
    }
}

impl Response {
    /// The body as text; where it could not be read, the failure of the
    /// request under the given message.
    pub fn into_text(self, msg: &str) -> (res: Result<String, ClientError>)
        ensures
            match self.text {
                Ok(body) => res == Ok::<String, ClientError>(body),
                Err(failure) => res matches Err(ClientError::Request { message, source })
                    && message@ == msg@ && source == failure,
            },
    {
        self.text.wrap_err(msg)
    }

    /// Checks the status, then decodes the body.
    pub fn checked_json<T: TypeName, F>(self, decode: F, refusal_msg: &str, decode_msg: &str) -> (res:
        Result<(T, http::HeaderMap), ClientError>) where
        F: FnOnce(String) -> Result<T, serde_json::Error>,

        requires
            forall|text: String| decode.requires((text,)),
        ensures
            spec_checked_json(
                self,
                decode,
                refusal_msg@,
                decode_msg@,
                match res {
                    Ok((value, _)) => Ok(value),
                    Err(e) => Err(e),
                },
            ),
            res matches Ok((_, headers)) ==> headers == self.headers,
    {
        match self.verify(refusal_msg) {
            Err(e) => Err(e),
            Ok(response) => {
                let Response { status: _, headers, text } = response;
                match extract_text(text, decode, decode_msg) {
                    Ok(value) => Ok((value, headers)),
                    Err(e) => Err(e),
                }
            },
        }
    }
}

/// A refused response is classified by its status alone: 429 is always a
/// rate limit, 404 is always a missing item, and a status that the service
/// does not document is reported with its number.
pub proof fn lemma_refusal_status(response: Response, msg: Seq<char>)
    ensures
        spec_refusal(response, msg) is Api,
        spec_refusal(response, msg)->Api_message == msg,
        response.status == 429 ==> spec_refusal(response, msg)->Api_status
            == ApiStatus::RateLimited,
        response.status == 404 ==> spec_refusal(response, msg)->Api_status == ApiStatus::NotFound,
        response.status != 400 && response.status != 401 && response.status != 402
            && response.status != 403 && response.status != 404 && response.status != 422
            && response.status != 429 && response.status != 500 ==> spec_refusal(
            response,
            msg,
        )->Api_status == ApiStatus::Undocumented(response.status),
{
}

/// A body that does not decode is kept: the error of an accepted response
/// whose body was read holds that body as it was received, together with the
/// message of the step and the name of the expected type.
pub proof fn lemma_decode_failure_keeps_text<
    T: TypeName,
    F: FnOnce(String) -> Result<T, serde_json::Error>,
>(
    response: Response,
    decode: F,
    refusal_msg: Seq<char>,
    decode_msg: Seq<char>,
    error: ClientError,
)
    requires
        status_is_success(response.status),
        response.text is Ok,
        spec_checked_json::<T, F>(response, decode, refusal_msg, decode_msg, Err(error)),
    ensures
        error@ == (ErrorView::Json {
            message: decode_msg,
            text: response.text->Ok_0@,
            type_label: T::spec_type_label(),
        }),
{
}

} // verus!
