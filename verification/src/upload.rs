//! The three upload protocols of the service: the upload of an image in the
//! manner of a browser form, the upload of an image with an access key, and
//! the upload of a video.

use vstd::prelude::*;
use vstd::string::*;
use crate::client::{
    param,
    request_result,
    text_result,
    Client,
    ClientView,
    Device,
    Upload,
    API_IMAGE_UPLOAD_URL,
    CGI_IMAGE_UPLOAD_URL,
    VIDEO_UPLOAD_URL,
};
use crate::error::{status_is_success, ClientError, ErrorView, WrapErr};
use crate::image::{text_of, Image};
use crate::trusted::{
    byte_len,
    json_object,
    json_object_text,
    parse_url,
    parsed_url,
    read_header,
    set_url_query,
    url_with_query,
    MAX_URL_BYTES,
};
use crate::transport::{
    header_value,
    spec_checked_json,
    spec_refusal,
    Method,
    Part,
    PartView,
    Request,
    RequestView,
    Response,
    Verify,
};

verus! {

/// The device identifier that a form upload sends: the configured one,
/// unless the upload is anonymous.
pub open spec fn sent_device(client: ClientView, upload: Upload) -> Option<Seq<char>> {
    if upload.anonymous {
        None
    } else {
        client.device
    }
}

/// The request of a form upload: the device identifier, or an empty text
/// where none is sent; the metadata as a JSON object that names the
/// application; the file; and the header that asks for a session token.
pub open spec fn spec_cgi_request(client: ClientView, upload: Upload) -> RequestView {
    RequestView {
        method: Method::Post,
        url: CGI_IMAGE_UPLOAD_URL@,
        query: Seq::empty(),
        headers: seq![("x-gyazo-accept-token"@, "required"@)],
        form: seq![
            PartView::Text {
                name: "id"@,
                value: match sent_device(client, upload) {
                    Some(device) => device,
                    None => Seq::empty(),
                },
            },
            PartView::Text { name: "metadata"@, value: json_object("app"@, upload.app@) },
            PartView::File { name: "imagedata"@ },
        ],
    }
}

/// The message of a form upload whose session token cannot be read.
pub open spec fn unreadable_token_message() -> Seq<char> {
    "CGI image upload response contained an unreadable `x-gyazo-session-token` header"@
}

/// The message of a form upload that was sent without a device identifier
/// and got none back.
pub open spec fn missing_device_message() -> Seq<char> {
    "CGI image upload response did not contain a readable `x-gyazo-id` header"@
}

/// The message of a form upload whose URL or token is too long to be joined.
pub open spec fn oversized_message() -> Seq<char> {
    "CGI image upload response is too long to carry a session token"@
}

/// The URL of an upload with the session token as its query.
pub open spec fn spec_with_token(url: Seq<char>, token: Option<Seq<char>>) -> Result<
    Seq<char>,
    ErrorView,
> {
    match token {
        None => Ok(url),
        Some(token) => {
            let query = "token="@ + token;
            if byte_len(url) > MAX_URL_BYTES || byte_len(query) > MAX_URL_BYTES {
                Err(ErrorView::String(oversized_message()))
            } else {
                match url_with_query(url, query) {
                    Some(changed) => Ok(changed),
                    None => Err(
                        ErrorView::Url("CGI image upload response did not contain a URL"@),
                    ),
                }
            }
        },
    }
}

/// What the response to a form upload means: the URL of the upload, with
/// the session token as its query where the service sent one, and the device
/// identifier, which is the one that was sent or else the one that the
/// service assigned.
pub open spec fn spec_cgi_response(client: ClientView, upload: Upload, response: Response) -> Result<
    (Seq<char>, Seq<char>),
    ErrorView,
> {
    if !status_is_success(response.status) {
        Err(spec_refusal(response, "CGI image upload request failed"@))
    } else {
        match header_value(response.headers, "x-gyazo-session-token"@) {
            Some(None) => Err(ErrorView::String(unreadable_token_message())),
            token => {
                let token = match token {
                    Some(Some(text)) => Some(text),
                    _ => None,
                };
                let device = match sent_device(client, upload) {
                    Some(device) => Some(device),
                    None => match header_value(response.headers, "x-gyazo-id"@) {
                        Some(Some(text)) => Some(text),
                        _ => None,
                    },
                };
                match device {
                    None => Err(ErrorView::String(missing_device_message())),
                    Some(device) => match response.text {
                        Err(_) => Err(
                            ErrorView::Request(
                                "CGI image upload response did not contain text"@,
                            ),
                        ),
                        Ok(body) => match parsed_url(body@) {
                            None => Err(
                                ErrorView::Url(
                                    "CGI image upload response did not contain a URL"@,
                                ),
                            ),
                            Some(url) => match spec_with_token(url, token) {
                                Ok(url) => Ok((url, device)),
                                Err(e) => Err(e),
                            },
                        },
                    },
                }
            },
        }
    }
}

/// The result of a form upload as contracts speak of it.
pub open spec fn upload_result(res: Result<(String, Device), ClientError>) -> Result<
    (Seq<char>, Seq<char>),
    ErrorView,
> {
    match res {
        Ok((url, device)) => Ok((url@, device@)),
        Err(e) => Err(e@),
    }
}

/// The text `true` or `false`.
pub open spec fn bool_text(value: bool) -> Seq<char> {
    if value {
        "true"@
    } else {
        "false"@
    }
}

/// The request of an upload with an access key: the key, the application
/// and the visibility of the metadata go in the query, followed by the
/// creation time of the file where it is known; the form holds the file
/// alone.
pub open spec fn spec_api_upload_request(
    client: ClientView,
    upload: Upload,
    created_at: Option<Seq<char>>,
) -> Result<RequestView, ErrorView> {
    match client.key {
        None => Err(ErrorView::Missing("No API key configured"@)),
        Some(key) => {
            let fixed = seq![
                ("access_token"@, key),
                ("app"@, upload.app@),
                ("metadata_is_public"@, bool_text(upload.public_metadata)),
            ];
            Ok(
                RequestView {
                    method: Method::Post,
                    url: API_IMAGE_UPLOAD_URL@,
                    query: match created_at {
                        Some(time) => fixed.push(("created_at"@, time)),
                        None => fixed,
                    },
                    headers: Seq::empty(),
                    form: seq![PartView::File { name: "imagedata"@ }],
                },
            )
        },
    }
}

/// The request of a video upload: the form holds the device identifier and
/// the file.
pub open spec fn spec_video_request(client: ClientView) -> Result<RequestView, ErrorView> {
    match client.device {
        None => Err(ErrorView::Missing("No device ID configured"@)),
        Some(device) => Ok(
            RequestView {
                method: Method::Post,
                url: VIDEO_UPLOAD_URL@,
                query: Seq::empty(),
                headers: Seq::empty(),
                form: seq![
                    PartView::Text { name: "id"@, value: device },
                    PartView::File { name: "data"@ },
                ],
            },
        ),
    }
}

/// What the response to a video upload means: the URL that its body holds.
pub open spec fn spec_video_response(response: Response) -> Result<Seq<char>, ErrorView> {
    if !status_is_success(response.status) {
        Err(spec_refusal(response, "Video upload failed"@))
    } else {
        match response.text {
            Err(_) => Err(ErrorView::Request("Video API upload response did not contain text"@)),
            Ok(body) => match parsed_url(body@) {
                None => Err(ErrorView::Url("Video API upload response did not contain a URL"@)),
                Some(url) => Ok(url),
            },
        }
    }
}

/// Appends the session token to the URL of an upload as its query.
pub fn with_token(url: String, token: Option<String>) -> (res: Result<String, ClientError>)
    ensures
        text_result(res) == spec_with_token(url@, text_of(token)),
{
    match token {
        None => Ok(url),
        Some(token) => {
            let query = String::from_str("token=").concat(token.as_str());
            if url.as_str().as_bytes().len() > MAX_URL_BYTES || query.as_str().as_bytes().len()
                > MAX_URL_BYTES {
                return Err(
                    ClientError::String(
                        String::from_str(
                            "CGI image upload response is too long to carry a session token",
                        ),
                    ),
                );
            }
            set_url_query(url.as_str(), query.as_str()).wrap_err(
                "CGI image upload response did not contain a URL",
            )
        },
    }
}

impl Client {
    /// The device identifier that a form upload sends.
    pub fn device_to_send(&self, upload: &Upload) -> (res: Option<String>)
        ensures
            text_of(res) == sent_device(self@, *upload),
    {
        if upload.anonymous {
            None
        } else {
            match self.expect_device() {
                Ok(device) => Some(String::from_str(device)),
                Err(_) => None,
            }
        }
    }

    /// The request of a form upload. It needs no credential.
    pub fn upload_image_cgi_request(&self, upload: &Upload) -> (res: Request)
        ensures
            res@ == spec_cgi_request(self@, *upload),
    {
        let id = match self.device_to_send(upload) {
            Some(device) => device,
            None => String::new(),
        };
        let metadata = json_object_text("app", upload.app.as_str());
        let form = vec![
            Part::Text { name: String::from_str("id"), value: id },
            Part::Text { name: String::from_str("metadata"), value: metadata },
            Part::File { name: String::from_str("imagedata") },
        ];
        let headers = vec![param("x-gyazo-accept-token", "required")];
        let request = Request {
            method: Method::Post,
            url: String::from_str(CGI_IMAGE_UPLOAD_URL),
            query: Vec::new(),
            headers,
            form,
        };
        assert(request@.query =~= spec_cgi_request(self@, *upload).query);
        assert(request@.headers =~= spec_cgi_request(self@, *upload).headers);
        assert(request@.form =~= spec_cgi_request(self@, *upload).form);
        request
    }

    /// The URL and the device identifier that the response to a form upload
    /// gives.
    pub fn upload_image_cgi_response(&self, upload: &Upload, response: Response) -> (res: Result<
        (String, Device),
        ClientError,
    >)
        ensures
            upload_result(res) == spec_cgi_response(self@, *upload, response),
    {
        let response = match response.verify("CGI image upload request failed") {
            Ok(response) => response,
            Err(e) => {
                return Err(e);
            },
        };
        let token = match read_header(&response.headers, "x-gyazo-session-token") {
            Some(None) => {
                return Err(
                    ClientError::String(
                        String::from_str(
                            "CGI image upload response contained an unreadable `x-gyazo-session-token` header",
                        ),
                    ),
                );
            },
            Some(Some(text)) => Some(text),
            None => None,
        };
        let device = match self.device_to_send(upload) {
            Some(device) => device,
            None => match read_header(&response.headers, "x-gyazo-id") {
                Some(Some(text)) => text,
                _ => {
                    return Err(
                        ClientError::String(
                            String::from_str(
                                "CGI image upload response did not contain a readable `x-gyazo-id` header",
                            ),
                        ),
                    );
                },
            },
        };
        let body = match response.into_text("CGI image upload response did not contain text") {
            Ok(body) => body,
            Err(e) => {
                return Err(e);
            },
        };
        let url = match parse_url(body.as_str()).wrap_err(
            "CGI image upload response did not contain a URL",
        ) {
            Ok(url) => url,
            Err(e) => {
                return Err(e);
            },
        };
        match with_token(url, token) {
            Ok(url) => Ok((url, device)),
            Err(e) => Err(e),
        }
    }

    /// The request of an image upload: that of a form upload.
    pub fn upload_image_request(&self, upload: &Upload) -> (res: Request)
        ensures
            res@ == spec_cgi_request(self@, *upload),
    {
        self.upload_image_cgi_request(upload)
    }

    /// The URL that the response to an image upload gives.
    pub fn upload_image_response(&self, upload: &Upload, response: Response) -> (res: Result<
        String,
        ClientError,
    >)
        ensures
            text_result(res) == (match spec_cgi_response(self@, *upload, response) {
                Ok((url, _)) => Ok(url),
                Err(e) => Err(e),
            }),
    {
        match self.upload_image_cgi_response(upload, response) {
            Ok((url, _)) => Ok(url),
            Err(e) => Err(e),
        }
    }

    /// The request of an upload with the access key. `created_at` is the
    /// creation time of the file in seconds since 1970, as text, where it is
    /// known.
    pub fn upload_image_api_request(&self, upload: &Upload, created_at: Option<String>) -> (res:
        Result<Request, ClientError>)
        ensures
            request_result(res) == spec_api_upload_request(
                self@,
                *upload,
                text_of(created_at),
            ),
    {
        let key = match self.expect_key() {
            Ok(key) => key,
            Err(e) => {
                return Err(e);
            },
        };
        let public_metadata = if upload.public_metadata {
            "true"
        } else {
            "false"
        };
        let mut query = vec![
            param("access_token", key),
            param("app", upload.app.as_str()),
            param("metadata_is_public", public_metadata),
        ];
        match created_at {
            Some(time) => {
                query.push(param("created_at", time.as_str()));
            },
            None => {},
        }
        let request = Request {
            method: Method::Post,
            url: String::from_str(API_IMAGE_UPLOAD_URL),
            query,
            headers: Vec::new(),
            form: vec![Part::File { name: String::from_str("imagedata") }],
        };
        let ghost wanted = spec_api_upload_request(
            self@,
            *upload,
            text_of(created_at),
        )->Ok_0;
        assert(request@.query =~= wanted.query);
        assert(request@.headers =~= wanted.headers);
        assert(request@.form =~= wanted.form);
        Ok(request)
    }

    /// The stored item that the response to an upload with the access key
    /// describes. It is put in its normal form by [`Image::into_file`].
    pub fn upload_image_api_response<F>(response: Response, decode: F) -> (res: Result<
        Image,
        ClientError,
    >) where F: FnOnce(String) -> Result<Image, serde_json::Error>
        requires
            forall|text: String| decode.requires((text,)),
        ensures
            spec_checked_json(
                response,
                decode,
                "API image upload failed"@,
                "Could not decode image API upload response as JSON"@,
                res,
            ),
    {
        match response.checked_json(
            decode,
            "API image upload failed",
            "Could not decode image API upload response as JSON",
        ) {
            Ok((image, _)) => Ok(image),
            Err(e) => Err(e),
        }
    }

    /// The request of a video upload. It needs the device identifier.
    pub fn upload_video_request(&self) -> (res: Result<Request, ClientError>)
        ensures
            request_result(res) == spec_video_request(self@),
    {
        let device = match self.expect_device() {
            Ok(device) => device,
            Err(e) => {
                return Err(e);
            },
        };
        let request = Request {
            method: Method::Post,
            url: String::from_str(VIDEO_UPLOAD_URL),
            query: Vec::new(),
            headers: Vec::new(),
            form: vec![
                Part::Text { name: String::from_str("id"), value: String::from_str(device) },
                Part::File { name: String::from_str("data") },
            ],
        };
        let ghost wanted = spec_video_request(self@)->Ok_0;
        assert(request@.query =~= wanted.query);
        assert(request@.headers =~= wanted.headers);
        assert(request@.form =~= wanted.form);
        Ok(request)
    }

    /// The URL that the response to a video upload gives.
    pub fn upload_video_response(response: Response) -> (res: Result<String, ClientError>)
        ensures
            text_result(res) == spec_video_response(response),
    {
        let response = match response.verify("Video upload failed") {
            Ok(response) => response,
            Err(e) => {
                return Err(e);
            },
        };
        let body = match response.into_text("Video API upload response did not contain text") {
            Ok(body) => body,
            Err(e) => {
                return Err(e);
            },
        };
        parse_url(body.as_str()).wrap_err("Video API upload response did not contain a URL")
    }
}

/// A successful form upload hands back what the service sent: where no
/// device identifier went out, the device is the value of the header
/// `x-gyazo-id`, and where one went out it is echoed; where the service sent
/// a session token, the URL is the one in the body with `token=` and the
/// token as its query.
pub proof fn lemma_cgi_upload_surfaces_device_and_token(
    client: ClientView,
    upload: Upload,
    response: Response,
)
    requires
        spec_cgi_response(client, upload, response) is Ok,
    ensures
        ({
            let (url, device) = spec_cgi_response(client, upload, response)->Ok_0;
            let token = header_value(response.headers, "x-gyazo-session-token"@);
            &&& response.text is Ok
            &&& parsed_url(response.text->Ok_0@) is Some
            &&& sent_device(client, upload) is None ==> header_value(
                response.headers,
                "x-gyazo-id"@,
            ) == Some(Some(device))
            &&& sent_device(client, upload) is Some ==> sent_device(client, upload) == Some(device)
            &&& token is None ==> parsed_url(response.text->Ok_0@) == Some(url)
            &&& token matches Some(Some(text)) ==> url_with_query(
                parsed_url(response.text->Ok_0@)->0,
                "token="@ + text,
            ) == Some(url)
        }),
{
}

/// A video upload without a device identifier ends in the error of the
/// missing credential, and no request is built.
pub proof fn lemma_video_upload_needs_device(client: ClientView)
    requires
        client.device is None,
    ensures
        spec_video_request(client) == Err::<RequestView, ErrorView>(
            ErrorView::Missing("No device ID configured"@),
        ),
{
}

} // verus!
