//! The client: the credentials it holds and, for each operation of the
//! service, the request to send and the meaning of the response.
//!
//! Every operation comes as a pair. The first function builds the request and
//! fails where a credential that the operation needs is missing, before
//! anything is sent. The second takes the response and gives the result of
//! the operation or the error it ended in.

use vstd::prelude::*;
use vstd::string::*;
use crate::config::Config;
use crate::decimal::{count_of, decimal, decimal_text, parse_count};
use crate::error::{status_is_success, ClientError, ErrorView, TypeName, WrapNone};
use crate::image::{text_of, Image};
use crate::listing::PAGE_SIZE;
use crate::trusted::{json_array_len, parse_values, read_header};
use crate::transport::{
    decoded,
    header_text,
    params_view,
    spec_checked_json,
    spec_refusal,
    Method,
    Param,
    Request,
    RequestView,
    Response,
    Verify,
};

verus! {

pub const API_URL: &'static str = "https://api.gyazo.com/api";

pub const API_IMAGE_UPLOAD_URL: &'static str = "https://upload.gyazo.com/api/upload";

pub const CGI_IMAGE_UPLOAD_URL: &'static str = "https://upload.gyazo.com/upload.cgi";

pub const VIDEO_UPLOAD_URL: &'static str = "https://gif.gyazo.com/gif/upload";

/// The application that an upload is attributed to where none is named.
pub const DEFAULT_APP: &'static str = "https://github.com/brooke-eva/gyazo";

/// The identifier of a linked device.
pub type Device = String;

/// The account that an access token belongs to.
#[derive(Debug)]
pub struct User {
    pub email: String,
    pub is_pro: bool,
    pub is_team: bool,
    pub name: String,
    pub profile_image: String,
    pub uid: String,
}

/// The envelope in which the service sends a [`User`].
#[derive(Debug)]
pub struct WrappedUser {
    pub user: User,
}

impl TypeName for WrappedUser {
    open spec fn spec_type_label() -> Seq<char> {
        "user wrapped in object"@
    }

    fn type_label() -> (res: &'static str) {
        "user wrapped in object"
    }
}

/// What an upload is meant to be: the application it is attributed to,
/// whether its metadata is public, and whether it is made without a device
/// identifier.
#[derive(Clone, Debug)]
pub struct Upload {
    pub app: String,
    pub public_metadata: bool,
    pub anonymous: bool,
}

impl Upload {
    /// The upload that the configuration asks for: attributed to
    /// [`DEFAULT_APP`], with the configured visibility, and not anonymous.
    pub fn new(config: &Config) -> (res: Upload)
        ensures
            res.app@ == DEFAULT_APP@,
            res.public_metadata == config.upload.public_metadata,
            !res.anonymous,
    {
        Upload {
            app: String::from_str(DEFAULT_APP),
            public_metadata: config.upload.public_metadata,
            anonymous: false,
        }
    }
}

/// The credentials of a client, each of which may be absent.
pub struct ClientView {
    pub cookie: Option<Seq<char>>,
    pub device: Option<Seq<char>>,
    pub key: Option<Seq<char>>,
}

/// A client of the service. It holds the credentials that were configured
/// and refuses an operation only when the operation needs one that is
/// missing.
#[derive(Clone, Debug)]
pub struct Client {
    cookie: Option<String>,
    device: Option<String>,
    key: Option<String>,
}

impl View for Client {
    type V = ClientView;

    closed spec fn view(&self) -> ClientView {
        ClientView {
            cookie: text_of(self.cookie),
            device: text_of(self.device),
            key: text_of(self.key),
        }
    }
}

fn copy_of(value: &Option<String>) -> (res: Option<String>)
    ensures
        res == *value,
{
    match value {
        Some(text) => Some(text.clone()),
        None => None,
    }
}

fn as_text(value: &Option<String>) -> (res: Option<&str>)
    ensures
        match res {
            Some(text) => value matches Some(held) && text@ == held@,
            None => value is None,
        },
{
    match value {
        Some(text) => Some(text.as_str()),
        None => None,
    }
}

pub(crate) fn param(name: &str, value: &str) -> (res: Param)
    ensures
        res@ == (name@, value@),
{
    Param { name: String::from_str(name), value: String::from_str(value) }
}

/// The credential that an operation needs, or the error that names the one
/// that is missing.
pub open spec fn spec_expect(credential: Option<Seq<char>>, msg: Seq<char>) -> Result<
    Seq<char>,
    ErrorView,
> {
    match credential {
        Some(text) => Ok(text),
        None => Err(ErrorView::Missing(msg)),
    }
}

/// A result as contracts speak of it: the text of a success, the content of
/// an error.
pub open spec fn text_result(res: Result<String, ClientError>) -> Result<Seq<char>, ErrorView> {
    match res {
        Ok(text) => Ok(text@),
        Err(e) => Err(e@),
    }
}

/// The same for a borrowed text.
pub open spec fn str_result(res: Result<&str, ClientError>) -> Result<Seq<char>, ErrorView> {
    match res {
        Ok(text) => Ok(text@),
        Err(e) => Err(e@),
    }
}

/// The same for a request.
pub open spec fn request_result(res: Result<Request, ClientError>) -> Result<
    RequestView,
    ErrorView,
> {
    match res {
        Ok(request) => Ok(request@),
        Err(e) => Err(e@),
    }
}

/// The message of a refused request to the API.
pub open spec fn api_refusal_message(url: Seq<char>) -> Seq<char> {
    "API get request to `"@ + url + "` failed"@
}

/// The message of a refused request to the internal API.
pub open spec fn internal_refusal_message(url: Seq<char>) -> Seq<char> {
    "Internal API get request to `"@ + url + "` failed"@
}

/// A GET on the API: the access token goes first in the query.
pub open spec fn spec_api_request(
    client: ClientView,
    url: Seq<char>,
    query: Seq<(Seq<char>, Seq<char>)>,
) -> Result<RequestView, ErrorView> {
    match client.key {
        None => Err(ErrorView::Missing("No API key configured"@)),
        Some(key) => Ok(
            RequestView {
                method: Method::Get,
                url,
                query: seq![("access_token"@, key)] + query,
                headers: Seq::empty(),
                form: Seq::empty(),
            },
        ),
    }
}

/// A GET on the internal API: the session cookie goes in a header.
pub open spec fn spec_internal_api_request(
    client: ClientView,
    url: Seq<char>,
    query: Seq<(Seq<char>, Seq<char>)>,
) -> Result<RequestView, ErrorView> {
    match client.cookie {
        None => Err(ErrorView::Missing("No cookie configured"@)),
        Some(cookie) => Ok(
            RequestView {
                method: Method::Get,
                url,
                query,
                headers: seq![("cookie"@, "Gyazo_session="@ + cookie)],
                form: Seq::empty(),
            },
        ),
    }
}

/// The query of a page of a listing.
pub open spec fn page_query(page: u64) -> Seq<(Seq<char>, Seq<char>)> {
    seq![("page"@, decimal(page as nat)), ("per_page"@, decimal(PAGE_SIZE as nat))]
}

/// The total that the service reports in the header `x-total-count`;
/// nothing where the header is missing or is no count.
pub open spec fn total_count(headers: http::HeaderMap) -> Option<usize> {
    match header_text(headers, "x-total-count"@) {
        Some(text) => count_of(text),
        None => None,
    }
}

fn page_params(page: u64) -> (res: Vec<Param>)
    ensures
        params_view(res@) == page_query(page),
{
    let number = decimal_text(page);
    let size = decimal_text(PAGE_SIZE);
    let first = param("page", number.as_str());
    let second = param("per_page", size.as_str());
    let res = vec![first, second];
    assert(params_view(res@) =~= page_query(page));
    res
}

fn read_total(headers: &http::HeaderMap) -> (res: Option<usize>)
    ensures
        res == total_count(*headers),
{
    match read_header(headers, "x-total-count") {
        Some(Some(text)) => parse_count(text.as_str()),
        _ => None,
    }
}

impl Client {
    /// A client with the credentials of a configuration.
    pub fn new(config: &Config) -> (res: Client)
        ensures
            res@ == (ClientView {
                cookie: text_of(config.cookie),
                device: text_of(config.device),
                key: text_of(config.key),
            }),
    {
        Client {
            cookie: copy_of(&config.cookie),
            device: copy_of(&config.device),
            key: copy_of(&config.key),
        }
    }

    /// The session cookie, or the error that says it is missing.
    pub fn expect_cookie(&self) -> (res: Result<&str, ClientError>)
        ensures
            str_result(res) == spec_expect(self@.cookie, "No cookie configured"@),
    {
        as_text(&self.cookie).wrap_none("No cookie configured")
    }

    /// The device identifier, or the error that says it is missing.
    pub fn expect_device(&self) -> (res: Result<&str, ClientError>)
        ensures
            str_result(res) == spec_expect(self@.device, "No device ID configured"@),
    {
        as_text(&self.device).wrap_none("No device ID configured")
    }

    /// The access key, or the error that says it is missing.
    pub fn expect_key(&self) -> (res: Result<&str, ClientError>)
        ensures
            str_result(res) == spec_expect(self@.key, "No API key configured"@),
    {
        as_text(&self.key).wrap_none("No API key configured")
    }

    /// The GET request on the API for a URL and a query. It needs the access
    /// key.
    pub fn api_request(&self, url: String, query: Vec<Param>) -> (res: Result<Request, ClientError>)
        ensures
            request_result(res) == spec_api_request(
                self@,
                url@,
                params_view(query@),
            ),
    {
        let key = match self.expect_key() {
            Ok(key) => key,
            Err(e) => {
                return Err(e);
            },
        };
        let mut query = query;
        let ghost given = query@;
        query.insert(0, param("access_token", key));
        let request = Request {
            method: Method::Get,
            url,
            query,
            headers: Vec::new(),
            form: Vec::new(),
        };
        assert(request@.query =~= seq![("access_token"@, key@)] + params_view(
            given,
        ));
        assert(request@.headers =~= Seq::empty());
        assert(request@.form =~= Seq::empty());
        Ok(request)
    }

    /// The GET request on the internal API for a URL and a query. It needs
    /// the session cookie.
    pub fn internal_api_request(&self, url: String, query: Vec<Param>) -> (res: Result<
        Request,
        ClientError,
    >)
        ensures
            request_result(res) == spec_internal_api_request(
                self@,
                url@,
                params_view(query@),
            ),
    {
        let cookie = match self.expect_cookie() {
            Ok(cookie) => cookie,
            Err(e) => {
                return Err(e);
            },
        };
        let value = String::from_str("Gyazo_session=").concat(cookie);
        let headers = vec![param("cookie", value.as_str())];
        let request = Request { method: Method::Get, url, query, headers, form: Vec::new() };
        assert(request@.headers =~= seq![("cookie"@, "Gyazo_session="@ + cookie@)]);
        assert(request@.form =~= Seq::empty());
        Ok(request)
    }

    /// What a response of the API to a GET on `url` means: the decoded body
    /// together with the headers.
    pub fn api_response<T: TypeName, F>(response: Response, url: &str, decode: F) -> (res: Result<
        (T, http::HeaderMap),
        ClientError,
    >) where F: FnOnce(String) -> Result<T, serde_json::Error>
        requires
            forall|text: String| decode.requires((text,)),
        ensures
            spec_checked_json(
                response,
                decode,
                api_refusal_message(url@),
                "Could not decode API get request response as JSON"@,
                match res {
                    Ok((value, _)) => Ok(value),
                    Err(e) => Err(e),
                },
            ),
            res matches Ok((_, headers)) ==> headers == response.headers,
    {
        let msg = String::from_str("API get request to `").concat(url).concat("` failed");
        response.checked_json(
            decode,
            msg.as_str(),
            "Could not decode API get request response as JSON",
        )
    }
}

/// Whether checking and decoding a response can end in a value.
pub open spec fn spec_decodes<T: TypeName, F: FnOnce(String) -> Result<T, serde_json::Error>>(
    response: Response,
    decode: F,
    refusal_msg: Seq<char>,
    decode_msg: Seq<char>,
) -> bool {
    exists|value: T|
        spec_checked_json(response, decode, refusal_msg, decode_msg, Ok::<T, ClientError>(value))
}

/// The URL of one stored item.
pub open spec fn image_url(image_id: Seq<char>) -> Seq<char> {
    API_URL@ + "/images/"@ + image_id
}

/// The URL of the stored items.
pub open spec fn images_url() -> Seq<char> {
    API_URL@ + "/images"@
}

/// The URL of the stored items on the internal API.
pub open spec fn internal_images_url() -> Seq<char> {
    API_URL@ + "/internal/images"@
}

/// The URL of the account.
pub open spec fn me_url() -> Seq<char> {
    API_URL@ + "/users/me"@
}

/// What the response to a request for a page of the internal API means:
/// the number of untyped items in the page, or the error.
pub open spec fn spec_internal_page(response: Response) -> Result<nat, ErrorView> {
    if !status_is_success(response.status) {
        Err(spec_refusal(response, internal_refusal_message(internal_images_url())))
    } else {
        match response.text {
            Err(_) => Err(ErrorView::Request("response contained invalid text"@)),
            Ok(body) => match json_array_len(body@) {
                Some(len) => Ok(len),
                None => Err(
                    ErrorView::Json {
                        message: "Could not decode internal API get request response as JSON"@,
                        text: body@,
                        type_label: "vector of values"@,
                    },
                ),
            },
        }
    }
}

/// The message of a response that lacks a usable total.
pub open spec fn missing_total_message() -> Seq<char> {
    "API did not respond to an empty read query with a parseable `X-Total-Count` header"@
}

/// The message of a page that lacks a usable total.
pub open spec fn missing_page_total_message() -> Seq<char> {
    "API did not respond to a page query with a parseable `X-Total-Count` header"@
}

impl Client {
    /// The request for one stored item.
    pub fn get_request(&self, image_id: &str) -> (res: Result<Request, ClientError>)
        ensures
            request_result(res) == spec_api_request(self@, image_url(image_id@), Seq::empty()),
    {
        let url = String::from_str(API_URL).concat("/images/").concat(image_id);
        let query: Vec<Param> = Vec::new();
        assert(params_view(query@) =~= Seq::empty());
        self.api_request(url, query)
    }

    /// The stored item that the response to [`Client::get_request`] holds.
    /// It is put in its normal form by [`Image::into_file`].
    pub fn get_response<F>(response: Response, image_id: &str, decode: F) -> (res: Result<
        Image,
        ClientError,
    >) where F: FnOnce(String) -> Result<Image, serde_json::Error>
        requires
            forall|text: String| decode.requires((text,)),
        ensures
            spec_checked_json(
                response,
                decode,
                api_refusal_message(image_url(image_id@)),
                "Could not decode API get request response as JSON"@,
                res,
            ),
    {
        let url = String::from_str(API_URL).concat("/images/").concat(image_id);
        match Client::api_response(response, url.as_str(), decode) {
            Ok((image, _)) => Ok(image),
            Err(e) => Err(e),
        }
    }

    /// The request for the number of stored items: a page of no items, sent
    /// for its total alone.
    pub fn count_request(&self) -> (res: Result<Request, ClientError>)
        ensures
            request_result(res) == spec_api_request(
                self@,
                images_url(),
                seq![("per_page"@, "0"@)],
            ),
    {
        let url = String::from_str(API_URL).concat("/images");
        let query = vec![param("per_page", "0")];
        assert(params_view(query@) =~= seq![("per_page"@, "0"@)]);
        self.api_request(url, query)
    }

    /// The number of stored items that the response to
    /// [`Client::count_request`] reports. The body has to decode as a list of
    /// items; after that the total is read from its header, and a header that
    /// is missing or is no count is an error.
    pub fn count_response<F>(response: Response, decode: F) -> (res: Result<usize, ClientError>) where
        F: FnOnce(String) -> Result<Vec<Image>, serde_json::Error>,

        requires
            forall|text: String| decode.requires((text,)),
        ensures
            match res {
                Ok(count) => total_count(response.headers) == Some(count) && spec_decodes::<
                    Vec<Image>,
                    F,
                >(
                    response,
                    decode,
                    api_refusal_message(images_url()),
                    "Could not decode API get request response as JSON"@,
                ),
                Err(e) => spec_checked_json::<Vec<Image>, F>(
                    response,
                    decode,
                    api_refusal_message(images_url()),
                    "Could not decode API get request response as JSON"@,
                    Err(e),
                ) || (e@ == ErrorView::String(missing_total_message()) && total_count(
                    response.headers,
                ) is None && spec_decodes::<Vec<Image>, F>(
                    response,
                    decode,
                    api_refusal_message(images_url()),
                    "Could not decode API get request response as JSON"@,
                )),
            },
    {
        let url = String::from_str(API_URL).concat("/images");
        match Client::api_response::<Vec<Image>, F>(response, url.as_str(), decode) {
            Err(e) => Err(e),
            Ok((page, headers)) => {
                assert(spec_checked_json(
                    response,
                    decode,
                    api_refusal_message(images_url()),
                    "Could not decode API get request response as JSON"@,
                    Ok::<Vec<Image>, ClientError>(page),
                ));
                match read_total(&headers) {
                    Some(count) => Ok(count),
                    None => Err(
                        ClientError::String(
                            String::from_str(
                                "API did not respond to an empty read query with a parseable `X-Total-Count` header",
                            ),
                        ),
                    ),
                }
            },
        }
    }

    /// The request for the account of the access key.
    pub fn me_request(&self) -> (res: Result<Request, ClientError>)
        ensures
            request_result(res) == spec_api_request(self@, me_url(), Seq::empty()),
    {
        let url = String::from_str(API_URL).concat("/users/me");
        let query: Vec<Param> = Vec::new();
        assert(params_view(query@) =~= Seq::empty());
        self.api_request(url, query)
    }

    /// The account that the response to [`Client::me_request`] holds inside
    /// its envelope.
    pub fn me_response<F>(response: Response, decode: F) -> (res: Result<User, ClientError>) where
        F: FnOnce(String) -> Result<WrappedUser, serde_json::Error>,

        requires
            forall|text: String| decode.requires((text,)),
        ensures
            spec_checked_json(
                response,
                decode,
                api_refusal_message(me_url()),
                "Could not decode API get request response as JSON"@,
                match res {
                    Ok(user) => Ok(WrappedUser { user }),
                    Err(e) => Err(e),
                },
            ),
    {
        let url = String::from_str(API_URL).concat("/users/me");
        match Client::api_response::<WrappedUser, F>(response, url.as_str(), decode) {
            Ok((wrapped, _)) => Ok(wrapped.user),
            Err(e) => Err(e),
        }
    }

    /// The request for one page of the stored items.
    pub fn list_request(&self, page: u64) -> (res: Result<Request, ClientError>)
        ensures
            request_result(res) == spec_api_request(self@, images_url(), page_query(page)),
    {
        let url = String::from_str(API_URL).concat("/images");
        self.api_request(url, page_params(page))
    }

    /// The items of one page and the total that the service reports with
    /// them. A total that is missing or is no count is an error, whatever the
    /// page holds.
    pub fn list_response<F>(response: Response, decode: F) -> (res: Result<
        (Vec<Image>, usize),
        ClientError,
    >) where F: FnOnce(String) -> Result<Vec<Image>, serde_json::Error>
        requires
            forall|text: String| decode.requires((text,)),
        ensures
            match res {
                Ok((page, total)) => total_count(response.headers) == Some(total)
                    && spec_checked_json(
                    response,
                    decode,
                    api_refusal_message(images_url()),
                    "Could not decode API get request response as JSON"@,
                    Ok::<Vec<Image>, ClientError>(page),
                ),
                Err(e) => spec_checked_json::<Vec<Image>, F>(
                    response,
                    decode,
                    api_refusal_message(images_url()),
                    "Could not decode API get request response as JSON"@,
                    Err(e),
                ) || (e@ == ErrorView::String(missing_page_total_message()) && total_count(
                    response.headers,
                ) is None && spec_decodes::<Vec<Image>, F>(
                    response,
                    decode,
                    api_refusal_message(images_url()),
                    "Could not decode API get request response as JSON"@,
                )),
            },
    {
        let url = String::from_str(API_URL).concat("/images");
        match Client::api_response::<Vec<Image>, F>(response, url.as_str(), decode) {
            Err(e) => Err(e),
            Ok((page, headers)) => {
                assert(spec_checked_json(
                    response,
                    decode,
                    api_refusal_message(images_url()),
                    "Could not decode API get request response as JSON"@,
                    Ok::<Vec<Image>, ClientError>(page),
                ));
                match read_total(&headers) {
                    Some(total) => Ok((page, total)),
                    None => Err(
                        ClientError::String(
                            String::from_str(
                                "API did not respond to a page query with a parseable `X-Total-Count` header",
                            ),
                        ),
                    ),
                }
            },
        }
    }

    /// The request for one page of the stored items on the internal API.
    pub fn list_internal_request(&self, page: u64) -> (res: Result<Request, ClientError>)
        ensures
            request_result(res) == spec_internal_api_request(
                self@,
                internal_images_url(),
                page_query(page),
            ),
    {
        let url = String::from_str(API_URL).concat("/internal/images");
        self.internal_api_request(url, page_params(page))
    }

    /// The untyped items of one page of the internal API: as many as the
    /// JSON array in the body holds.
    pub fn list_internal_response(response: Response) -> (res: Result<
        Vec<serde_json::Value>,
        ClientError,
    >)
        ensures
            match spec_internal_page(response) {
                Ok(len) => res matches Ok(values) && values@.len() == len,
                Err(e) => res matches Err(failure) && failure@ == e,
            },
    {
        let response = match response.verify(
            "Internal API get request to `https://api.gyazo.com/api/internal/images` failed",
        ) {
            Ok(response) => response,
            Err(e) => {
                proof {
                    lemma_internal_refusal_message();
                }
                return Err(e);
            },
        };
        let body = match response.into_text("response contained invalid text") {
            Ok(body) => body,
            Err(e) => {
                return Err(e);
            },
        };
        let parsed = parse_values(body.as_str());
        decoded(body, parsed, "Could not decode internal API get request response as JSON")
    }
}

/// The message of a refused page of the internal API names its URL.
proof fn lemma_internal_refusal_message()
    ensures
        internal_refusal_message(internal_images_url())
            == "Internal API get request to `https://api.gyazo.com/api/internal/images` failed"@,
{
    reveal_strlit("Internal API get request to `");
    reveal_strlit("` failed");
    reveal_strlit("https://api.gyazo.com/api");
    reveal_strlit("/internal/images");
    reveal_strlit(
        "Internal API get request to `https://api.gyazo.com/api/internal/images` failed",
    );
    assert(internal_refusal_message(internal_images_url())
        =~= "Internal API get request to `https://api.gyazo.com/api/internal/images` failed"@);
}

} // verus!
