//! The request and response pipeline: building authenticated request
//! descriptions and turning what the transport reports into a typed outcome.

use crate::headers::{
    header_byte_ok, header_key, header_value_ok, is_header_value, lemma_ascii_key_len,
    lemma_joined_value_ok, Headers,
};
use crate::json::{json_parse, json_print, FromJson, Json, JsonView, ToJson};
use crate::text::joined;
use vstd::prelude::*;
use vstd::utf8::{encode_utf8, is_ascii_chars, is_ascii_chars_encode_utf8};

verus! {

/// Version of this client, as sent in the `User-Agent` header.
pub const VERSION: &'static str = "0.1.0";

/// Product name of this client, as sent in the `User-Agent` header.
pub const PRODUCT: &'static str = "resend-rust";

/// The default `User-Agent`: product name, a slash, the version.
pub const USER_AGENT: &'static str = "resend-rust/0.1.0";

/// The media type of every body sent and accepted.
pub const CONTENT_TYPE: &'static str = "application/json";

/// An HTTP request method.
#[derive(Debug, Clone, Copy, PartialEq, Eq)]
pub enum Method {
    Get,
    Post,
    Put,
    Patch,
    Delete,
    Head,
    Options,
}

/// The part of a URL that says where the API is served: scheme, host and
/// port. Requests keep these and bring their own path.
#[derive(Debug)]
pub struct BaseUrl {
    pub scheme: String,
    pub host: String,
    pub port: Option<u16>,
}

/// The mathematical value of a [`BaseUrl`].
pub struct BaseUrlView {
    pub scheme: Seq<char>,
    pub host: Seq<char>,
    pub port: Option<u16>,
}

impl DeepView for BaseUrl {
    type V = BaseUrlView;

    open spec fn deep_view(&self) -> BaseUrlView {
        BaseUrlView { scheme: self.scheme@, host: self.host@, port: self.port }
    }
}

impl View for BaseUrl {
    type V = BaseUrlView;

    open spec fn view(&self) -> BaseUrlView {
        self.deep_view()
    }
}

/// What `url::Url::parse` makes of `text`: `None` where it rejects the text,
/// else the scheme, the host if there is one, and the port if one is given
/// that is not the scheme's default.
pub uninterp spec fn url_origin(text: Seq<char>) -> Option<
    (Seq<char>, Option<Seq<char>>, Option<u16>),
>;

/// `url::Url::parse`, then `scheme`, `host_str` and `port` of the parsed URL.
/// All four depend on `text` alone.
#[verifier::external_body]
fn parse_origin(text: &str) -> (parts: Option<(String, Option<String>, Option<u16>)>)
    ensures
        parts.deep_view() == url_origin(text@),
{
    match url::Url::parse(text) {
        Ok(url) => Some(
            (url.scheme().to_string(), url.host_str().map(|host| host.to_string()), url.port()),
        ),
        Err(_) => None,
    }
}

/// The base URL that the parts of a parsed URL give: none without a host.
pub open spec fn origin_base(
    parts: Option<(Seq<char>, Option<Seq<char>>, Option<u16>)>,
) -> Option<BaseUrlView> {
    match parts {
        Some((scheme, Some(host), port)) => Some(BaseUrlView { scheme, host, port }),
        _ => None,
    }
}

impl BaseUrl {
    /// The default base URL, `https://api.resend.com`.
    pub open spec fn default_view() -> BaseUrlView {
        BaseUrlView { scheme: "https"@, host: "api.resend.com"@, port: None }
    }

    /// The default base URL, `https://api.resend.com`.
    pub fn resend() -> (base: BaseUrl)
        ensures
            base@ == Self::default_view(),
    {
        BaseUrl { scheme: "https".to_owned(), host: "api.resend.com".to_owned(), port: None }
    }

    /// The base URL made of the parts of a parsed URL, if it has a host.
    pub fn from_origin(parts: Option<(String, Option<String>, Option<u16>)>) -> (base: Option<
        BaseUrl,
    >)
        ensures
            base.deep_view() == origin_base(parts.deep_view()),
    {
        match parts {
            Some((scheme, Some(host), port)) => Some(BaseUrl { scheme, host, port }),
            _ => None,
        }
    }

    /// Reads a base URL from the text of an absolute URL. Its path, query
    /// and fragment are left out.
    pub fn parse(text: &str) -> (base: Option<BaseUrl>)
        ensures
            base.deep_view() == origin_base(url_origin(text@)),
    {
        Self::from_origin(parse_origin(text))
    }

    /// A copy of the base URL.
    pub fn duplicate(&self) -> (copy: BaseUrl)
        ensures
            copy@ == self@,
    {
        BaseUrl { scheme: self.scheme.clone(), host: self.host.clone(), port: self.port }
    }
}

/// The description of one outbound request.
#[derive(Debug)]
pub struct Request {
    pub method: Method,
    pub base_url: BaseUrl,
    pub path: String,
    pub headers: Headers,
    pub body: Option<String>,
}

/// The mathematical value of a [`Request`].
pub struct RequestView {
    pub method: Method,
    pub base_url: BaseUrlView,
    pub path: Seq<char>,
    pub headers: Map<Seq<u8>, Seq<char>>,
    pub body: Option<Seq<char>>,
}

impl DeepView for Request {
    type V = RequestView;

    open spec fn deep_view(&self) -> RequestView {
        RequestView {
            method: self.method,
            base_url: self.base_url@,
            path: self.path@,
            headers: self.headers@,
            body: self.body.deep_view(),
        }
    }
}

impl View for Request {
    type V = RequestView;

    open spec fn view(&self) -> RequestView {
        self.deep_view()
    }
}

/// Why a request could not be built.
#[derive(Debug, Clone, Copy, PartialEq, Eq)]
pub enum BuildError {
    /// The API key, the user agent or a custom header holds a byte that no
    /// HTTP header value may hold.
    InvalidHeaderValue,
    /// The payload has no JSON text.
    Serialization,
}

/// The configuration of a client: credentials, where the API is served, and
/// the headers to send along.
#[derive(Debug)]
pub struct ReqClient {
    pub api_key: String,
    pub base_url: BaseUrl,
    pub user_agent: String,
    pub headers: Headers,
}

/// The mathematical value of a [`ReqClient`].
pub struct ReqClientView {
    pub api_key: Seq<char>,
    pub base_url: BaseUrlView,
    pub user_agent: Seq<char>,
    pub headers: Map<Seq<u8>, Seq<char>>,
}

impl DeepView for ReqClient {
    type V = ReqClientView;

    open spec fn deep_view(&self) -> ReqClientView {
        ReqClientView {
            api_key: self.api_key@,
            base_url: self.base_url@,
            user_agent: self.user_agent@,
            headers: self.headers@,
        }
    }
}

impl View for ReqClient {
    type V = ReqClientView;

    open spec fn view(&self) -> ReqClientView {
        self.deep_view()
    }
}

impl ReqClientView {
    /// The value of the `Authorization` header: `Bearer`, a space, the key.
    pub open spec fn authorization(self) -> Seq<char> {
        "Bearer "@ + self.api_key
    }

    /// Whether every header value that a request would carry is legal.
    pub open spec fn sendable(self) -> bool {
        &&& forall|key: Seq<u8>|
            self.headers.contains_key(key) ==> header_value_ok(#[trigger] self.headers[key])
        &&& header_value_ok(self.user_agent)
        &&& header_value_ok(self.authorization())
    }

    /// The headers of every request: the custom ones, then `Accept`,
    /// `User-Agent` and `Authorization`, each replacing what was there.
    pub open spec fn request_headers(self) -> Map<Seq<u8>, Seq<char>> {
        self.headers.insert(header_key("Accept"@), CONTENT_TYPE@).insert(
            header_key("User-Agent"@),
            self.user_agent,
        ).insert(header_key("Authorization"@), self.authorization())
    }

    /// The request that the configuration gives for a method and a path.
    pub open spec fn request(self, method: Method, path: Seq<char>) -> RequestView {
        RequestView {
            method,
            base_url: self.base_url,
            path,
            headers: self.request_headers(),
            body: None,
        }
    }
}

impl ReqClient {
    /// A client for the API at its default address.
    pub fn new(api_key: String) -> (client: ReqClient)
        ensures
            client@ == (ReqClientView {
                api_key: api_key@,
                base_url: BaseUrl::default_view(),
                user_agent: USER_AGENT@,
                headers: Map::empty(),
            }),
    {
        ReqClient::new_custom(api_key)
    }

    /// A client for the API at its default address, to be adjusted through
    /// its fields.
    pub fn new_custom(api_key: String) -> (client: ReqClient)
        ensures
            client@ == (ReqClientView {
                api_key: api_key@,
                base_url: BaseUrl::default_view(),
                user_agent: USER_AGENT@,
                headers: Map::empty(),
            }),
    {
        ReqClient {
            api_key,
            base_url: BaseUrl::resend(),
            user_agent: USER_AGENT.to_owned(),
            headers: Headers::new(),
        }
    }

    /// The request for `method` on `path`, without a body.
    pub fn new_request(&self, method: Method, path: &str) -> (built: Result<Request, BuildError>)
        ensures
            built is Ok <==> self@.sendable(),
            built matches Ok(request) ==> request@ == self@.request(method, path@),
            built matches Err(error) ==> error == BuildError::InvalidHeaderValue,
            self@.builds(method, path@, None, built),
    {
        let authorization = joined("Bearer ", self.api_key.as_str());
        if !self.headers.values_ok() || !is_header_value(self.user_agent.as_str())
            || !is_header_value(authorization.as_str()) {
            return Err(BuildError::InvalidHeaderValue);
        }
        let mut headers = self.headers.duplicate();
        headers.insert("Accept".to_owned(), CONTENT_TYPE.to_owned());
        headers.insert("User-Agent".to_owned(), self.user_agent.clone());
        headers.insert("Authorization".to_owned(), authorization);
        Ok(
            Request {
                method,
                base_url: self.base_url.duplicate(),
                path: path.to_owned(),
                headers,
                body: None,
            },
        )
    }
}

/// The error body that the API sends with an error status.
#[derive(Debug, Clone)]
pub struct ErrorResponse {
    pub name: String,
    pub status_code: u16,
    pub message: String,
}

/// The mathematical value of an [`ErrorResponse`].
pub struct ErrorResponseView {
    pub name: Seq<char>,
    pub status_code: u16,
    pub message: Seq<char>,
}

impl DeepView for ErrorResponse {
    type V = ErrorResponseView;

    open spec fn deep_view(&self) -> ErrorResponseView {
        ErrorResponseView {
            name: self.name@,
            status_code: self.status_code,
            message: self.message@,
        }
    }
}

impl View for ErrorResponse {
    type V = ErrorResponseView;

    open spec fn view(&self) -> ErrorResponseView {
        self.deep_view()
    }
}

impl FromJson for ErrorResponse {
    /// An object with the string fields `name` and `message` and the number
    /// field `status_code`, which fits 16 bits.
    open spec fn decoded(json: JsonView) -> Option<ErrorResponseView> {
        if json.text_at("name"@) is Some && json.small_at("status_code"@) is Some && json.text_at(
            "message"@,
        ) is Some {
            Some(
                ErrorResponseView {
                    name: json.text_at("name"@)->0,
                    status_code: json.small_at("status_code"@)->0,
                    message: json.text_at("message"@)->0,
                },
            )
        } else {
            None
        }
    }

    fn from_json(json: &Json) -> (value: Option<ErrorResponse>) {
        let name = match json.text_at("name") {
            Some(name) => name,
            None => { return None; },
        };
        let status_code = match json.small_at("status_code") {
            Some(status_code) => status_code,
            None => { return None; },
        };
        let message = match json.text_at("message") {
            Some(message) => message,
            None => { return None; },
        };
        Some(ErrorResponse { name, status_code, message })
    }
}

/// Why a body could not be read as the expected type.
#[derive(Debug, Clone, Copy, PartialEq, Eq)]
pub enum ParseCause {
    /// The body is not JSON.
    Malformed,
    /// The body is JSON of another shape than the expected type.
    Mismatch,
}

/// A body that could not be read as the expected type.
#[derive(Debug, Clone)]
pub struct ParseFailure {
    pub cause: ParseCause,
    /// The body as it was received.
    pub body: String,
}

/// The mathematical value of a [`ParseFailure`].
pub struct ParseFailureView {
    pub cause: ParseCause,
    pub body: Seq<char>,
}

impl DeepView for ParseFailure {
    type V = ParseFailureView;

    open spec fn deep_view(&self) -> ParseFailureView {
        ParseFailureView { cause: self.cause, body: self.body@ }
    }
}

/// A request that got no usable answer.
#[derive(Debug, Clone)]
pub enum Failure {
    /// No HTTP response was received.
    NoResponse { reason: String },
    /// A response was received, but its body could not be read.
    UnreadableBody { status: u16, reason: String },
    /// The response had an error status and no readable error body.
    Status { status: u16 },
}

/// The mathematical value of a [`Failure`].
pub enum FailureView {
    NoResponse { reason: Seq<char> },
    UnreadableBody { status: u16, reason: Seq<char> },
    Status { status: u16 },
}

impl DeepView for Failure {
    type V = FailureView;

    open spec fn deep_view(&self) -> FailureView {
        match self {
            Failure::NoResponse { reason } => FailureView::NoResponse { reason: reason@ },
            Failure::UnreadableBody { status, reason } => FailureView::UnreadableBody {
                status: *status,
                reason: reason@,
            },
            Failure::Status { status } => FailureView::Status { status: *status },
        }
    }
}

/// The outcome of one call of the API.
#[derive(Debug)]
pub enum APIResponse<T> {
    /// The status was no error and the body was read as `T`.
    Success(T),
    /// The status was an error and the body was read as an error body.
    Error(ErrorResponse),
    /// The status was no error, but the body could not be read as `T`.
    ParseError(ParseFailure),
    /// There was no response, or an error status without an error body.
    Failure(Failure),
}

/// The mathematical value of an [`APIResponse`].
pub enum APIResponseView<V> {
    Success(V),
    Error(ErrorResponseView),
    ParseError(ParseFailureView),
    Failure(FailureView),
}

impl<T: DeepView> DeepView for APIResponse<T> {
    type V = APIResponseView<T::V>;

    open spec fn deep_view(&self) -> APIResponseView<T::V> {
        match self {
            APIResponse::Success(value) => APIResponseView::Success(value.deep_view()),
            APIResponse::Error(error) => APIResponseView::Error(error.deep_view()),
            APIResponse::ParseError(failure) => APIResponseView::ParseError(failure.deep_view()),
            APIResponse::Failure(failure) => APIResponseView::Failure(failure.deep_view()),
        }
    }
}

/// What the transport reports of one dispatched request.
#[derive(Debug, Clone)]
pub enum Exchange {
    /// No HTTP response was received.
    NoResponse { reason: String },
    /// A response was received, but its body could not be read.
    UnreadableBody { status: u16, reason: String },
    /// A response was received and its body read as text.
    Response { status: u16, body: String },
}

/// The mathematical value of an [`Exchange`].
pub enum ExchangeView {
    NoResponse { reason: Seq<char> },
    UnreadableBody { status: u16, reason: Seq<char> },
    Response { status: u16, body: Seq<char> },
}

impl DeepView for Exchange {
    type V = ExchangeView;

    open spec fn deep_view(&self) -> ExchangeView {
        match self {
            Exchange::NoResponse { reason } => ExchangeView::NoResponse { reason: reason@ },
            Exchange::UnreadableBody { status, reason } => ExchangeView::UnreadableBody {
                status: *status,
                reason: reason@,
            },
            Exchange::Response { status, body } => ExchangeView::Response {
                status: *status,
                body: body@,
            },
        }
    }
}

impl View for Exchange {
    type V = ExchangeView;

    open spec fn view(&self) -> ExchangeView {
        self.deep_view()
    }
}

/// Whether an HTTP status reports an error.
pub open spec fn is_error_status(status: u16) -> bool {
    status >= 400
}

/// The outcome that a result stands for, whichever side holds it.
pub open spec fn response_view<T: DeepView>(
    result: Result<APIResponse<T>, APIResponse<T>>,
) -> APIResponseView<T::V> {
    match result {
        Ok(response) => response.deep_view(),
        Err(response) => response.deep_view(),
    }
}

/// The outcome of a response with the given status and body, where
/// `parsed` is the JSON read from the body, if it is JSON.
pub open spec fn interpreted<T: FromJson>(
    status: u16,
    body: Seq<char>,
    parsed: Option<JsonView>,
) -> APIResponseView<T::V> {
    if is_error_status(status) {
        match parsed {
            Some(json) if ErrorResponse::decoded(json) is Some => APIResponseView::Error(
                ErrorResponse::decoded(json)->0,
            ),
            _ => APIResponseView::Failure(FailureView::Status { status }),
        }
    } else {
        match parsed {
            Some(json) => match T::decoded(json) {
                Some(value) => APIResponseView::Success(value),
                None => APIResponseView::ParseError(
                    ParseFailureView { cause: ParseCause::Mismatch, body },
                ),
            },
            None => APIResponseView::ParseError(
                ParseFailureView { cause: ParseCause::Malformed, body },
            ),
        }
    }
}

/// The outcome of an exchange.
pub open spec fn settled<T: FromJson>(exchange: ExchangeView) -> APIResponseView<T::V> {
    match exchange {
        ExchangeView::NoResponse { reason } => APIResponseView::Failure(
            FailureView::NoResponse { reason },
        ),
        ExchangeView::UnreadableBody { status, reason } => APIResponseView::Failure(
            FailureView::UnreadableBody { status, reason },
        ),
        ExchangeView::Response { status, body } => interpreted::<T>(status, body, json_parse(body)),
    }
}

/// `request` with `text` as its JSON body.
pub open spec fn with_body(request: RequestView, text: Seq<char>) -> RequestView {
    RequestView {
        headers: request.headers.insert(header_key("Content-Type"@), CONTENT_TYPE@),
        body: Some(text),
        ..request
    }
}

/// The request with the JSON text of a payload attached, or the error
/// where the payload has no text.
pub fn attach_body(request: Request, text: Option<String>) -> (built: Result<Request, BuildError>)
    ensures
        match text {
            Some(text) => built matches Ok(bodied) && bodied@ == with_body(request@, text@),
            None => built == Err::<Request, BuildError>(BuildError::Serialization),
        },
{
    match text {
        Some(text) => {
            let mut headers = request.headers;
            headers.insert("Content-Type".to_owned(), CONTENT_TYPE.to_owned());
            Ok(
                Request {
                    method: request.method,
                    base_url: request.base_url,
                    path: request.path,
                    headers,
                    body: Some(text),
                },
            )
        },
        None => Err(BuildError::Serialization),
    }
}

/// The outcome of a response with the given status and body, where
/// `parsed` is the JSON read from the body, if it is JSON.
pub fn interpret<T: FromJson>(status: u16, body: String, parsed: Option<Json>) -> (result: Result<
    APIResponse<T>,
    APIResponse<T>,
>)
    ensures
        response_view(result) == interpreted::<T>(status, body@, parsed.deep_view()),
        result is Ok <==> response_view(result) is Success,
{
    if status >= 400 {
        let error = match &parsed {
            Some(json) => ErrorResponse::from_json(json),
            None => None,
        };
        match error {
            Some(error) => Err(APIResponse::Error(error)),
            None => Err(APIResponse::Failure(Failure::Status { status })),
        }
    } else {
        match &parsed {
            Some(json) => match T::from_json(json) {
                Some(value) => Ok(APIResponse::Success(value)),
                None => Err(
                    APIResponse::ParseError(ParseFailure { cause: ParseCause::Mismatch, body }),
                ),
            },
            None => Err(
                APIResponse::ParseError(ParseFailure { cause: ParseCause::Malformed, body }),
            ),
        }
    }
}

impl ReqClientView {
    /// Whether `built` is what building the request for a method, a path
    /// and a payload, if any, has to give: the header error where a header
    /// value is illegal, else the serialization error where the payload has
    /// no JSON text, else the request.
    pub open spec fn builds(
        self,
        method: Method,
        path: Seq<char>,
        payload: Option<JsonView>,
        built: Result<Request, BuildError>,
    ) -> bool {
        if !self.sendable() {
            built matches Err(error) && error == BuildError::InvalidHeaderValue
        } else {
            match payload {
                None => built matches Ok(request) && request@ == self.request(method, path),
                Some(json) => match json_print(json) {
                    Some(text) => built matches Ok(request) && request@ == with_body(
                        self.request(method, path),
                        text,
                    ),
                    None => built matches Err(error) && error == BuildError::Serialization,
                },
            }
        }
    }

    /// The request for a method, a path and the JSON text of a payload, if
    /// there is a payload.
    pub open spec fn body_request(
        self,
        method: Method,
        path: Seq<char>,
        text: Option<Seq<char>>,
    ) -> RequestView {
        match text {
            Some(text) => with_body(self.request(method, path), text),
            None => self.request(method, path),
        }
    }
}

impl ReqClient {
    /// The request for `method` on `path`, with the JSON text of `json` as
    /// its body if there is a payload.
    pub fn new_body_request<T: ToJson>(&self, method: Method, path: &str, json: Option<&T>) -> (built:
        Result<Request, BuildError>)
        ensures
            built is Ok <==> self@.sendable() && (json matches Some(payload) ==> json_print(
                T::encoded(payload.deep_view()),
            ) is Some),
            built matches Ok(request) ==> request@ == self@.body_request(
                method,
                path@,
                match json {
                    Some(payload) => json_print(T::encoded(payload.deep_view())),
                    None => None,
                },
            ),
            built matches Err(error) ==> error == if self@.sendable() {
                BuildError::Serialization
            } else {
                BuildError::InvalidHeaderValue
            },
            self@.builds(
                method,
                path@,
                match json {
                    Some(payload) => Some(T::encoded(payload.deep_view())),
                    None => None,
                },
                built,
            ),
    {
        let request = match self.new_request(method, path) {
            Ok(request) => request,
            Err(error) => { return Err(error); },
        };
        match json {
            Some(payload) => attach_body(request, payload.to_json().to_text()),
            None => Ok(request),
        }
    }

    /// The outcome of an exchange, its body read as `T`.
    pub fn exec<T: FromJson>(&self, exchange: Exchange) -> (result: Result<
        APIResponse<T>,
        APIResponse<T>,
    >)
        ensures
            response_view(result) == settled::<T>(exchange@),
            result is Ok <==> response_view(result) is Success,
    {
        match exchange {
            Exchange::NoResponse { reason } => Err(
                APIResponse::Failure(Failure::NoResponse { reason }),
            ),
            Exchange::UnreadableBody { status, reason } => Err(
                APIResponse::Failure(Failure::UnreadableBody { status, reason }),
            ),
            Exchange::Response { status, body } => {
                let parsed = Json::parse(body.as_str());
                interpret(status, body, parsed)
            },
        }
    }
}

/// The keys of the four headers that the library sets differ from each
/// other.
pub proof fn lemma_fixed_keys_differ()
    ensures
        header_key("Accept"@) != header_key("User-Agent"@),
        header_key("Accept"@) != header_key("Authorization"@),
        header_key("Accept"@) != header_key("Content-Type"@),
        header_key("User-Agent"@) != header_key("Authorization"@),
        header_key("User-Agent"@) != header_key("Content-Type"@),
        header_key("Authorization"@) != header_key("Content-Type"@),
{
    reveal_strlit("Accept");
    reveal_strlit("User-Agent");
    reveal_strlit("Authorization");
    reveal_strlit("Content-Type");
    lemma_ascii_key_len("Accept"@);
    lemma_ascii_key_len("User-Agent"@);
    lemma_ascii_key_len("Authorization"@);
    lemma_ascii_key_len("Content-Type"@);
}

/// Every request that is built is addressed to the base URL of the
/// configuration and to the path that was asked for, letter for letter.
pub proof fn law_request_address(
    client: ReqClientView,
    method: Method,
    path: Seq<char>,
    payload: Option<JsonView>,
    built: Result<Request, BuildError>,
)
    requires
        client.builds(method, path, payload, built),
        built is Ok,
    ensures
        built->Ok_0@.method == method,
        built->Ok_0@.base_url == client.base_url,
        built->Ok_0@.path == path,
{
}

/// Every request that is built carries `Accept`, `User-Agent` and
/// `Authorization` with the values that the configuration gives them,
/// whatever custom headers the configuration holds under these names.
pub proof fn law_fixed_headers(
    client: ReqClientView,
    method: Method,
    path: Seq<char>,
    payload: Option<JsonView>,
    built: Result<Request, BuildError>,
)
    requires
        client.builds(method, path, payload, built),
        built is Ok,
    ensures
        ({
            let headers = built->Ok_0@.headers;
            &&& headers.contains_key(header_key("Accept"@))
            &&& headers[header_key("Accept"@)] == CONTENT_TYPE@
            &&& headers.contains_key(header_key("User-Agent"@))
            &&& headers[header_key("User-Agent"@)] == client.user_agent
            &&& headers.contains_key(header_key("Authorization"@))
            &&& headers[header_key("Authorization"@)] == "Bearer "@ + client.api_key
        }),
{
    lemma_fixed_keys_differ();
}

/// A custom header under another name than the four that the library sets
/// reaches the request unchanged.
pub proof fn law_custom_headers(
    client: ReqClientView,
    method: Method,
    path: Seq<char>,
    payload: Option<JsonView>,
    built: Result<Request, BuildError>,
    name: Seq<char>,
)
    requires
        client.builds(method, path, payload, built),
        built is Ok,
        client.headers.contains_key(header_key(name)),
        header_key(name) != header_key("Accept"@),
        header_key(name) != header_key("User-Agent"@),
        header_key(name) != header_key("Authorization"@),
        header_key(name) != header_key("Content-Type"@),
    ensures
        built->Ok_0@.headers.contains_key(header_key(name)),
        built->Ok_0@.headers[header_key(name)] == client.headers[header_key(name)],
{
}

/// A request with a payload carries `Content-Type: application/json` and
/// the JSON text of the payload as its body.
pub proof fn law_payload_sets_body(
    client: ReqClientView,
    method: Method,
    path: Seq<char>,
    payload: JsonView,
    built: Result<Request, BuildError>,
)
    requires
        client.builds(method, path, Some(payload), built),
        built is Ok,
    ensures
        built->Ok_0@.headers.contains_key(header_key("Content-Type"@)),
        built->Ok_0@.headers[header_key("Content-Type"@)] == CONTENT_TYPE@,
        built->Ok_0@.body == json_print(payload),
        built->Ok_0@.body is Some,
{
}

/// A request without a payload has no body, and no `Content-Type` unless
/// the configuration holds a custom header of that name.
pub proof fn law_no_payload_no_body(
    client: ReqClientView,
    method: Method,
    path: Seq<char>,
    built: Result<Request, BuildError>,
)
    requires
        client.builds(method, path, None, built),
        built is Ok,
    ensures
        built->Ok_0@.body is None,
        built->Ok_0@.headers.contains_key(header_key("Content-Type"@))
            <==> client.headers.contains_key(header_key("Content-Type"@)),
{
    lemma_fixed_keys_differ();
}

/// A response without an error status whose body reads as `T` gives
/// `Success` with the value read.
pub proof fn law_success<T: FromJson>(status: u16, body: Seq<char>, json: JsonView, value: T::V)
    requires
        !is_error_status(status),
        json_parse(body) == Some(json),
        T::decoded(json) == Some(value),
    ensures
        settled::<T>(ExchangeView::Response { status, body }) == APIResponseView::<T::V>::Success(
            value,
        ),
{
}

/// A response without an error status whose body does not read as `T`
/// gives `ParseError` with the body.
pub proof fn law_parse_error<T: FromJson>(status: u16, body: Seq<char>)
    requires
        !is_error_status(status),
        json_parse(body) matches Some(json) ==> T::decoded(json) is None,
    ensures
        settled::<T>(ExchangeView::Response { status, body }) matches APIResponseView::ParseError(
            failure,
        ) && failure.body == body,
{
}

/// A response with an error status whose body reads as an error body gives
/// `Error` with the fields of that body.
pub proof fn law_api_error<T: FromJson>(
    status: u16,
    body: Seq<char>,
    json: JsonView,
    error: ErrorResponseView,
)
    requires
        is_error_status(status),
        json_parse(body) == Some(json),
        ErrorResponse::decoded(json) == Some(error),
    ensures
        settled::<T>(ExchangeView::Response { status, body }) == APIResponseView::<T::V>::Error(
            error,
        ),
{
}

/// A response with an error status whose body does not read as an error
/// body gives `Failure` with the status, not a parse error.
pub proof fn law_status_failure<T: FromJson>(status: u16, body: Seq<char>)
    requires
        is_error_status(status),
        json_parse(body) matches Some(json) ==> ErrorResponse::decoded(json) is None,
    ensures
        settled::<T>(ExchangeView::Response { status, body }) == APIResponseView::<T::V>::Failure(
            FailureView::Status { status },
        ),
{
}

/// Where no response was received, or its body could not be read, the
/// outcome is `Failure`.
pub proof fn law_transport_failure<T: FromJson>(exchange: ExchangeView)
    requires
        !(exchange is Response),
    ensures
        settled::<T>(exchange) is Failure,
{
}

/// The default user agent is the product name, a slash and the version.
pub proof fn law_user_agent_format()
    ensures
        USER_AGENT@ == PRODUCT@ + "/"@ + VERSION@,
{
    reveal_strlit("resend-rust/0.1.0");
    reveal_strlit("resend-rust");
    reveal_strlit("/");
    reveal_strlit("0.1.0");
    assert(USER_AGENT@ =~= PRODUCT@ + "/"@ + VERSION@);
}

/// A request can be built exactly when the API key, the user agent and
/// every custom header value is a legal header value.
pub proof fn law_sendable(client: ReqClientView)
    ensures
        client.sendable() <==> header_value_ok(client.api_key) && header_value_ok(
            client.user_agent,
        ) && forall|key: Seq<u8>|
            client.headers.contains_key(key) ==> header_value_ok(#[trigger] client.headers[key]),
{
    reveal_strlit("Bearer ");
    let bearer = "Bearer "@;
    assert(is_ascii_chars(bearer));
    is_ascii_chars_encode_utf8(bearer);
    assert(header_value_ok(bearer)) by {
        let bytes = encode_utf8(bearer);
        assert forall|i: int| 0 <= i < bytes.len() implies header_byte_ok(
            #[trigger] bytes[i],
        ) by {
            assert(bytes[i] == bearer[i] as u8);
        }
    }
    lemma_joined_value_ok(bearer, client.api_key);
}

} // verus!
