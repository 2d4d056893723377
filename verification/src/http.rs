//! What the middleware reads of HTTP requests and responses, as plain values.
use crate::outside;
use crate::outside::{
    matched_paths, uri_is_valid, uri_path, uri_query, uri_scheme, url_host, url_is_valid, url_port,
    url_text,
};
use axum::http::Extensions;
use vstd::prelude::*;

verus! {

/// A version of HTTP.
#[derive(Clone, Copy, Debug, PartialEq, Eq, Structural)]
pub enum HttpVersion {
    Http09,
    Http10,
    Http11,
    Http2,
    Http3,
}

/// The number of a version.
pub open spec fn version_number(version: HttpVersion) -> Seq<char> {
    match version {
        HttpVersion::Http09 => "0.9"@,
        HttpVersion::Http10 => "1.0"@,
        HttpVersion::Http11 => "1.1"@,
        HttpVersion::Http2 => "2.0"@,
        HttpVersion::Http3 => "3.0"@,
    }
}

/// The name of a version: its protocol and its number.
pub open spec fn protocol_version(version: HttpVersion) -> Seq<char> {
    match version {
        HttpVersion::Http09 => "HTTP/0.9"@,
        HttpVersion::Http10 => "HTTP/1.0"@,
        HttpVersion::Http11 => "HTTP/1.1"@,
        HttpVersion::Http2 => "HTTP/2.0"@,
        HttpVersion::Http3 => "HTTP/3.0"@,
    }
}

/// The number of a version, without the protocol in front of it.
pub fn http_version(version: HttpVersion) -> (number: &'static str)
    ensures
        number@ == version_number(version),
{
    match version {
        HttpVersion::Http09 => "0.9",
        HttpVersion::Http10 => "1.0",
        HttpVersion::Http11 => "1.1",
        HttpVersion::Http2 => "2.0",
        HttpVersion::Http3 => "3.0",
    }
}

/// The name of a version is `HTTP/` and its number.
pub proof fn protocol_version_is_prefixed_number(version: HttpVersion)
    ensures
        protocol_version(version) == "HTTP/"@ + version_number(version),
{
    reveal_strlit("HTTP/");
    reveal_strlit("0.9");
    reveal_strlit("1.0");
    reveal_strlit("1.1");
    reveal_strlit("2.0");
    reveal_strlit("3.0");
    reveal_strlit("HTTP/0.9");
    reveal_strlit("HTTP/1.0");
    reveal_strlit("HTTP/1.1");
    reveal_strlit("HTTP/2.0");
    reveal_strlit("HTTP/3.0");
    assert(protocol_version(version) =~= "HTTP/"@ + version_number(version));
}

/// The decimal digit of a number below ten.
pub open spec fn digit(d: int) -> char {
    ('0' as u32 + d) as char
}

/// The three decimal digits of a status code.
pub open spec fn status_text(code: u16) -> Seq<char> {
    seq![digit(code as int / 100), digit(code as int / 10 % 10), digit(code as int % 10)]
}

/// The numbers that are status codes.
pub open spec fn is_status_code(code: u16) -> bool {
    100 <= code <= 999
}

pub open spec fn is_client_error_code(code: u16) -> bool {
    400 <= code <= 499
}

pub open spec fn is_server_error_code(code: u16) -> bool {
    500 <= code <= 599
}

/// Codes that tell of an error on either side.
pub open spec fn is_error_code(code: u16) -> bool {
    is_client_error_code(code) || is_server_error_code(code)
}

/// The number is no status code.
#[derive(Clone, Copy, Debug, PartialEq, Eq, Structural)]
pub struct InvalidStatus;

/// The status of a response: a number of three digits.
#[derive(Clone, Copy, Debug, PartialEq, Eq)]
pub struct Status {
    code: u16,
}

impl View for Status {
    type V = u16;

    closed spec fn view(&self) -> u16 {
        self.code
    }
}

impl Status {
    #[verifier::type_invariant]
    closed spec fn well_formed(self) -> bool {
        is_status_code(self.code)
    }

    /// The status with the given number.
    pub fn from_u16(code: u16) -> (status: Result<Status, InvalidStatus>)
        ensures
            status is Ok <==> is_status_code(code),
            status matches Ok(status) ==> status@ == code,
    {
        if outside::status_is_valid(code) {
            Ok(Status { code })
        } else {
            Err(InvalidStatus)
        }
    }

    /// `200 OK`.
    pub fn ok() -> (status: Status)
        ensures
            status@ == 200,
    {
        Status { code: 200 }
    }

    /// `500 Internal Server Error`.
    pub fn internal_server_error() -> (status: Status)
        ensures
            status@ == 500,
    {
        Status { code: 500 }
    }

    /// The number of the status.
    pub fn as_u16(&self) -> (code: u16)
        ensures
            code == self@,
            is_status_code(code),
    {
        proof {
            use_type_invariant(self);
        }
        self.code
    }

    /// Whether the status is one of 400 to 499.
    pub fn is_client_error(&self) -> (error: bool)
        ensures
            error == is_client_error_code(self@),
    {
        outside::status_is_client_error(self.as_u16())
    }

    /// Whether the status is one of 500 to 599.
    pub fn is_server_error(&self) -> (error: bool)
        ensures
            error == is_server_error_code(self@),
    {
        outside::status_is_server_error(self.as_u16())
    }

    /// The three digits of the status.
    pub fn as_str(&self) -> (text: String)
        ensures
            text@ == status_text(self@),
            is_status_code(self@),
    {
        outside::status_as_str(self.as_u16())
    }
}

/// The number that a text of decimal digits is.
pub open spec fn decimal(text: Seq<char>) -> int
    decreases text.len(),
{
    if text.len() == 0 {
        0
    } else {
        decimal(text.drop_last()) * 10 + (text.last() as u32 - '0' as u32)
    }
}

/// The text of a code, read as a number, is the code.
pub proof fn status_text_reads_as_the_code(code: u16)
    ensures
        decimal(status_text(code)) == code,
        status_text(code).len() == 3,
{
    let text = status_text(code);
    reveal_with_fuel(decimal, 4);
    assert(text.drop_last().drop_last() =~= seq![text[0]]);
    assert(text.drop_last().last() == text[1]);
    assert(text.drop_last().drop_last().drop_last() =~= Seq::<char>::empty());
}

/// A status is the number that it was made of, and reads as that number. The first of its three
/// digits tells whether it is an error, and on which side.
pub proof fn status_is_its_number(
    code: u16,
    made: Result<Status, InvalidStatus>,
    status: &Status,
    number: u16,
    text: String,
    errors: (bool, bool),
)
    requires
        call_ensures(Status::from_u16, (code,), made),
        made matches Ok(made) ==> *status == made,
        call_ensures(Status::as_u16, (status,), number),
        call_ensures(Status::as_str, (status,), text),
        call_ensures(Status::is_client_error, (status,), errors.0),
        call_ensures(Status::is_server_error, (status,), errors.1),
    ensures
        made is Ok <==> 100 <= code <= 999,
        made is Ok ==> number == code,
        100 <= number <= 999,
        text@.len() == 3,
        decimal(text@) == number,
        forall|i: int| 0 <= i < 3 ==> '0' as u32 <= #[trigger] text@[i] as u32 <= '9' as u32,
        errors.0 <==> text@[0] == '4',
        errors.1 <==> text@[0] == '5',
{
    status_text_reads_as_the_code(number);
}

/// Two statuses of one text are the same status.
pub proof fn status_text_is_injective(a: u16, b: u16)
    requires
        is_status_code(a),
        is_status_code(b),
        status_text(a) == status_text(b),
    ensures
        a == b,
{
    assert(status_text(a)[0] == status_text(b)[0]);
    assert(status_text(a)[1] == status_text(b)[1]);
    assert(status_text(a)[2] == status_text(b)[2]);
}

/// What a request-target says.
#[derive(Debug, PartialEq, Eq)]
pub struct UriParts {
    pub scheme: Option<String>,
    pub path: String,
    pub query: Option<String>,
}

/// The text is no URI.
#[derive(Clone, Copy, Debug, PartialEq, Eq, Structural)]
pub struct InvalidUri;

/// What the server middleware reads of a request.
#[derive(Debug, PartialEq, Eq)]
pub struct ServerRequest {
    pub method: String,
    /// The scheme of the request's URI, where it has one.
    pub scheme: Option<String>,
    pub path: String,
    pub query: Option<String>,
    pub version: HttpVersion,
    /// The route that matched, with its parameters unfilled.
    pub route: Option<String>,
}

/// What a [`ServerRequest`] means.
pub struct ServerRequestView {
    pub method: Seq<char>,
    pub scheme: Option<Seq<char>>,
    pub path: Seq<char>,
    pub query: Option<Seq<char>>,
    pub version: HttpVersion,
    pub route: Option<Seq<char>>,
}

impl View for ServerRequest {
    type V = ServerRequestView;

    open spec fn view(&self) -> ServerRequestView {
        ServerRequestView {
            method: self.method@,
            scheme: self.scheme.deep_view(),
            path: self.path@,
            query: self.query.deep_view(),
            version: self.version,
            route: self.route.deep_view(),
        }
    }
}

impl ServerRequestView {
    /// The scheme of a request whose URI names none is `http`.
    pub open spec fn scheme_or_http(self) -> Seq<char> {
        match self.scheme {
            Some(scheme) => scheme,
            None => "http"@,
        }
    }
}

/// The first entry of a list, where it has one.
pub open spec fn first_of(list: Seq<Seq<char>>) -> Option<Seq<char>> {
    if list.len() > 0 {
        Some(list[0])
    } else {
        None
    }
}

/// The request with the given method, URI and version. `routes` are the routes that the router has
/// left in its extensions.
pub open spec fn server_request(
    method: Seq<char>,
    uri: Seq<char>,
    version: HttpVersion,
    routes: Seq<Seq<char>>,
) -> ServerRequestView {
    ServerRequestView {
        method,
        scheme: uri_scheme(uri),
        path: uri_path(uri),
        query: uri_query(uri),
        version,
        route: first_of(routes),
    }
}

/// Whether the text is a path, with or without a query, and nothing else.
pub open spec fn is_origin_form(uri: Seq<char>) -> bool {
    uri.len() > 0 && uri[0] == '/' && !uri.contains('#')
}

/// A path and, behind a question mark, a query.
pub open spec fn path_and_query(path: Seq<char>, query: Option<Seq<char>>) -> Seq<char> {
    match query {
        Some(query) => path + seq!['?'] + query,
        None => path,
    }
}

impl ServerRequest {
    /// Reads a request off its method, its URI, its version and its extensions, where the router
    /// leaves the route that matched.
    pub fn new(method: &str, uri: &str, version: HttpVersion, extensions: &Extensions) -> (request:
        Result<ServerRequest, InvalidUri>)
        ensures
            request is Ok <==> uri_is_valid(uri@),
            request matches Ok(request) ==> request@ == server_request(
                method@,
                uri@,
                version,
                matched_paths(*extensions),
            ),
            request matches Ok(request) ==> is_origin_form(uri@) ==> {
                &&& request@.scheme is None
                &&& !request@.path.contains('?')
                &&& uri@ == path_and_query(request@.path, request@.query)
            },
    {
        match outside::parse_uri(uri) {
            Some(parts) => Ok(Self::of_parts(method, parts, version, extensions)),
            None => Err(InvalidUri),
        }
    }

    /// Reads a request whose URI has been parsed.
    pub fn of_parts(
        method: &str,
        parts: UriParts,
        version: HttpVersion,
        extensions: &Extensions,
    ) -> (request: ServerRequest)
        ensures
            request@ == (ServerRequestView {
                method: method@,
                scheme: parts.scheme.deep_view(),
                path: parts.path@,
                query: parts.query.deep_view(),
                version,
                route: first_of(matched_paths(*extensions)),
            }),
    {
        ServerRequest {
            method: method.to_owned(),
            scheme: parts.scheme,
            path: parts.path,
            query: parts.query,
            version,
            route: outside::matched_path(extensions),
        }
    }

    /// The scheme of the request, `http` where its URI names none.
    pub fn scheme_or_http(&self) -> (scheme: &str)
        ensures
            scheme@ == self@.scheme_or_http(),
    {
        match &self.scheme {
            Some(scheme) => scheme.as_str(),
            None => "http",
        }
    }
}

/// A request is made of what it is read off: its method and its version are those given, its route
/// is the one that the router has left, and the rest is what its URI says.
pub proof fn server_request_is_what_it_is_read_off(
    method: &str,
    uri: &str,
    version: HttpVersion,
    extensions: &Extensions,
    request: Result<ServerRequest, InvalidUri>,
)
    requires
        call_ensures(ServerRequest::new, (method, uri, version, extensions), request),
    ensures
        request is Ok <==> uri_is_valid(uri@),
        request matches Ok(request) ==> {
            &&& request.method@ == method@
            &&& request.scheme.deep_view() == uri_scheme(uri@)
            &&& request.path@ == uri_path(uri@)
            &&& request.query.deep_view() == uri_query(uri@)
            &&& request.version == version
            &&& request.route is Some <==> matched_paths(*extensions).len() > 0
            &&& request.route matches Some(route) ==> route@ == matched_paths(*extensions)[0]
        },
{
}

/// Nothing of a path or a query is lost: a URI that is a path, with or without a query, is put
/// together again from what was read off it, and its query begins at the first question mark.
pub proof fn path_and_query_are_read_whole(
    method: &str,
    uri: &str,
    version: HttpVersion,
    extensions: &Extensions,
    request: ServerRequest,
)
    requires
        call_ensures(
            ServerRequest::new,
            (method, uri, version, extensions),
            Ok::<ServerRequest, InvalidUri>(request),
        ),
        uri@.len() > 0 && uri@[0] == '/',
        forall|i: int| 0 <= i < uri@.len() ==> #[trigger] uri@[i] != '#',
    ensures
        request.scheme is None,
        forall|i: int| 0 <= i < request.path@.len() ==> #[trigger] request.path@[i] != '?',
        request.path@.is_prefix_of(uri@),
        request.query is None ==> request.path@.len() == uri@.len(),
        request.query matches Some(query) ==> {
            &&& uri@.len() == request.path@.len() + 1 + query@.len()
            &&& uri@[request.path@.len() as int] == '?'
            &&& query@.is_suffix_of(uri@)
        },
{
    assert(!uri@.contains('#'));
    assert forall|i: int| 0 <= i < request.path@.len() implies #[trigger] request.path@[i]
        != '?' by {
        if request.path@[i] == '?' {
            assert(request@.path.contains('?'));
        }
    }
    match request.query {
        Some(query) => {
            assert(uri@ == request.path@ + seq!['?'] + query@);
            assert(uri@.subrange(0, request.path@.len() as int) =~= request.path@);
            assert(uri@.subrange(uri@.len() - query@.len(), uri@.len() as int) =~= query@);
        },
        None => {
            assert(uri@.subrange(0, request.path@.len() as int) =~= request.path@);
        },
    }
}

/// A request that is read off parsed parts holds those parts. Its scheme is theirs, and `http`
/// where they have none.
pub proof fn server_request_holds_its_parts(
    method: &str,
    parts: UriParts,
    version: HttpVersion,
    extensions: &Extensions,
    request: ServerRequest,
    scheme: &str,
)
    requires
        call_ensures(ServerRequest::of_parts, (method, parts, version, extensions), request),
        call_ensures(ServerRequest::scheme_or_http, (&request,), scheme),
    ensures
        request.method@ == method@,
        request.scheme.deep_view() == parts.scheme.deep_view(),
        request.path@ == parts.path@,
        request.query.deep_view() == parts.query.deep_view(),
        request.version == version,
        request.route is Some <==> matched_paths(*extensions).len() > 0,
        request.route matches Some(route) ==> route@ == matched_paths(*extensions)[0],
        scheme@ == match parts.scheme {
            Some(scheme) => scheme@,
            None => "http"@,
        },
{
    assert(request@.scheme == request.scheme.deep_view());
}

/// Whether a character is one of those that tokens are made of: letters, digits and some signs.
pub open spec fn is_token_char(c: char) -> bool {
    ||| 'a' as u32 <= c as u32 <= 'z' as u32
    ||| 'A' as u32 <= c as u32 <= 'Z' as u32
    ||| '0' as u32 <= c as u32 <= '9' as u32
    ||| "!#$%&'*+-.^_`|~"@.contains(c)
}

/// Whether a text is the name of a method: a token, which is not empty.
pub open spec fn is_method(text: Seq<char>) -> bool {
    text.len() > 0 && forall|i: int| 0 <= i < text.len() ==> is_token_char(#[trigger] text[i])
}

/// What a URL says.
#[derive(Debug, PartialEq, Eq)]
pub struct UrlParts {
    pub text: String,
    pub host: Option<String>,
    pub port: Option<u16>,
}

/// Why a request cannot be sent.
#[derive(Clone, Copy, Debug, PartialEq, Eq, Structural)]
pub enum ClientRequestError {
    InvalidMethod,
    InvalidUrl,
    MissingHost,
}

/// What the client middleware reads of a request.
#[derive(Debug, PartialEq, Eq)]
pub struct ClientRequest {
    pub method: String,
    pub url: String,
    pub host: String,
    /// The port, where the URL names one that is not its scheme's own.
    pub port: Option<u16>,
}

/// What a [`ClientRequest`] means.
pub struct ClientRequestView {
    pub method: Seq<char>,
    pub url: Seq<char>,
    pub host: Seq<char>,
    pub port: Option<u16>,
}

impl View for ClientRequest {
    type V = ClientRequestView;

    open spec fn view(&self) -> ClientRequestView {
        ClientRequestView {
            method: self.method@,
            url: self.url@,
            host: self.host@,
            port: self.port,
        }
    }
}

/// The request with the given method and URL, or why there is none.
pub open spec fn client_request(method: Seq<char>, url: Seq<char>) -> Result<
    ClientRequestView,
    ClientRequestError,
> {
    if !url_is_valid(url) {
        Err(ClientRequestError::InvalidUrl)
    } else {
        match url_host(url) {
            Some(host) => Ok(
                ClientRequestView { method, url: url_text(url), host, port: url_port(url) },
            ),
            None => Err(ClientRequestError::MissingHost),
        }
    }
}

impl ClientRequest {
    /// Reads a request off its method and its URL.
    pub fn new(method: &str, url: &str) -> (request: Result<ClientRequest, ClientRequestError>)
        ensures
            match request {
                Ok(request) => client_request(method@, url@) == Ok::<
                    ClientRequestView,
                    ClientRequestError,
                >(request@),
                Err(error) => client_request(method@, url@) == Err::<
                    ClientRequestView,
                    ClientRequestError,
                >(error),
            },
    {
        match outside::parse_url(url) {
            Some(parts) => Self::of_parts(method, parts),
            None => Err(ClientRequestError::InvalidUrl),
        }
    }

    /// Reads a request whose URL has been parsed. One without a host cannot be sent.
    pub fn of_parts(method: &str, parts: UrlParts) -> (request: Result<
        ClientRequest,
        ClientRequestError,
    >)
        ensures
            match (request, parts.host) {
                (Ok(request), Some(host)) => request@ == (ClientRequestView {
                    method: method@,
                    url: parts.text@,
                    host: host@,
                    port: parts.port,
                }),
                (Err(error), None) => error == ClientRequestError::MissingHost,
                _ => false,
            },
    {
        match parts.host {
            Some(host) => Ok(
                ClientRequest {
                    method: method.to_owned(),
                    url: parts.text,
                    host,
                    port: parts.port,
                },
            ),
            None => Err(ClientRequestError::MissingHost),
        }
    }
}

/// A client's request is made of what it is read off: its method is the one given, and the rest is
/// what its URL says. One whose URL has no host cannot be sent.
pub proof fn client_request_is_what_it_is_read_off(
    method: &str,
    url: &str,
    request: Result<ClientRequest, ClientRequestError>,
)
    requires
        call_ensures(ClientRequest::new, (method, url), request),
    ensures
        match request {
            Ok(request) => {
                &&& url_is_valid(url@)
                &&& request.method@ == method@
                &&& request.url@ == url_text(url@)
                &&& url_host(url@) == Some(request.host@)
                &&& request.port == url_port(url@)
            },
            Err(ClientRequestError::InvalidUrl) => !url_is_valid(url@),
            Err(ClientRequestError::MissingHost) => url_is_valid(url@) && url_host(url@) is None,
            Err(ClientRequestError::InvalidMethod) => false,
        },
{
}

/// A client's request that is read off parsed parts holds those parts.
pub proof fn client_request_holds_its_parts(
    method: &str,
    parts: UrlParts,
    request: Result<ClientRequest, ClientRequestError>,
)
    requires
        call_ensures(ClientRequest::of_parts, (method, parts), request),
    ensures
        request is Ok <==> parts.host is Some,
        request matches Ok(request) ==> {
            &&& request.method@ == method@
            &&& request.url@ == parts.text@
            &&& parts.host matches Some(host) && request.host@ == host@
            &&& request.port == parts.port
        },
        request matches Err(error) ==> error == ClientRequestError::MissingHost,
{
}

} // verus!
