//! What the library takes from outside crates: every contract here is believed, not proved.
use crate::attribute::{key_name, Key};
use crate::http::{
    is_client_error_code, is_method, is_origin_form, is_server_error_code, is_status_code,
    path_and_query, protocol_version, status_text, HttpVersion, UriParts, UrlParts,
};
use crate::instrument::{instrument_name, Instrument};
use axum::extract::MatchedPath;
use axum::http::{Extensions, StatusCode, Uri, Version};
use opentelemetry::global::GlobalTracerProvider;
use opentelemetry_semantic_conventions::{attribute, metric};
use reqwest::{Method, Request, Url};
use vstd::prelude::*;
use vstd::string::to_string_from_display_ensures;

verus! {

/// The attribute keys of `opentelemetry_semantic_conventions::attribute`: each constant is the
/// name that [`key_name`] gives.
#[verifier::external_body]
pub(crate) fn semantic_key(key: Key) -> (name: &'static str)
    ensures
        name@ == key_name(key),
{
    match key {
        Key::HttpRequestMethod => attribute::HTTP_REQUEST_METHOD,
        Key::HttpResponseStatusCode => attribute::HTTP_RESPONSE_STATUS_CODE,
        Key::HttpRoute => attribute::HTTP_ROUTE,
        Key::NetworkProtocolVersion => attribute::NETWORK_PROTOCOL_VERSION,
        Key::UrlScheme => attribute::URL_SCHEME,
        Key::UrlPath => attribute::URL_PATH,
        Key::UrlQuery => attribute::URL_QUERY,
        Key::UrlFull => attribute::URL_FULL,
        Key::ServerAddress => attribute::SERVER_ADDRESS,
        Key::ServerPort => attribute::SERVER_PORT,
        Key::ErrorType => attribute::ERROR_TYPE,
        Key::ExceptionMessage => attribute::EXCEPTION_MESSAGE,
        Key::ExceptionStacktrace => attribute::EXCEPTION_STACKTRACE,
    }
}

/// The metric names of `opentelemetry_semantic_conventions::metric`: each constant is the name that
/// [`instrument_name`] gives.
#[verifier::external_body]
pub(crate) fn semantic_metric(instrument: Instrument) -> (name: &'static str)
    ensures
        name@ == instrument_name(instrument),
{
    match instrument {
        Instrument::ServerRequestDuration => metric::HTTP_SERVER_REQUEST_DURATION,
        Instrument::ServerActiveRequests => metric::HTTP_SERVER_ACTIVE_REQUESTS,
        Instrument::ClientRequestDuration => metric::HTTP_CLIENT_REQUEST_DURATION,
    }
}

/// The `Debug` text of `http::Version`: the protocol and the number of the version.
#[verifier::external_body]
pub(crate) fn version_text(version: HttpVersion) -> (text: String)
    ensures
        text@ == protocol_version(version),
{
    let version = match version {
        HttpVersion::Http09 => Version::HTTP_09,
        HttpVersion::Http10 => Version::HTTP_10,
        HttpVersion::Http11 => Version::HTTP_11,
        HttpVersion::Http2 => Version::HTTP_2,
        HttpVersion::Http3 => Version::HTTP_3,
    };
    format!("{:?}", version)
}

/// `http::StatusCode::from_u16`: it accepts the numbers of three digits, and no others.
#[verifier::external_body]
pub(crate) fn status_is_valid(code: u16) -> (valid: bool)
    ensures
        valid == is_status_code(code),
{
    StatusCode::from_u16(code).is_ok()
}

/// `http::StatusCode::is_client_error`: true of 400 to 499.
#[verifier::external_body]
pub(crate) fn status_is_client_error(code: u16) -> (error: bool)
    requires
        is_status_code(code),
    ensures
        error == is_client_error_code(code),
{
    StatusCode::from_u16(code).unwrap().is_client_error()
}

/// `http::StatusCode::is_server_error`: true of 500 to 599.
#[verifier::external_body]
pub(crate) fn status_is_server_error(code: u16) -> (error: bool)
    requires
        is_status_code(code),
    ensures
        error == is_server_error_code(code),
{
    StatusCode::from_u16(code).unwrap().is_server_error()
}

/// `http::StatusCode::as_str`: the three decimal digits of the code.
#[verifier::external_body]
pub(crate) fn status_as_str(code: u16) -> (text: String)
    requires
        is_status_code(code),
    ensures
        text@ == status_text(code),
{
    StatusCode::from_u16(code).unwrap().as_str().to_string()
}

/// Whether `http::Uri` parses the text.
pub uninterp spec fn uri_is_valid(text: Seq<char>) -> bool;

/// What `http::Uri::scheme_str` returns of the URI that the text is.
pub uninterp spec fn uri_scheme(text: Seq<char>) -> Option<Seq<char>>;

/// What `http::Uri::path` returns of the URI that the text is.
pub uninterp spec fn uri_path(text: Seq<char>) -> Seq<char>;

/// What `http::Uri::query` returns of the URI that the text is.
pub uninterp spec fn uri_query(text: Seq<char>) -> Option<Seq<char>>;

/// The `FromStr` of `http::Uri`, and its `scheme_str`, `path` and `query`. They depend on the text
/// alone. Of a URI that begins with a slash and has no fragment, the path is what stands before the
/// first question mark and the query what stands behind it; such a URI has no scheme.
#[verifier::external_body]
pub(crate) fn parse_uri(text: &str) -> (parts: Option<UriParts>)
    ensures
        parts is Some <==> uri_is_valid(text@),
        parts matches Some(parts) ==> parts.scheme.deep_view() == uri_scheme(text@),
        parts matches Some(parts) ==> parts.path@ == uri_path(text@),
        parts matches Some(parts) ==> parts.query.deep_view() == uri_query(text@),
        parts matches Some(parts) ==> is_origin_form(text@) ==> {
            &&& parts.scheme is None
            &&& !parts.path@.contains('?')
            &&& text@ == path_and_query(parts.path@, parts.query.deep_view())
        },
{
    match text.parse::<Uri>() {
        Ok(uri) => Some(
            UriParts {
                scheme: uri.scheme_str().map(|scheme| scheme.to_string()),
                path: uri.path().to_string(),
                query: uri.query().map(|query| query.to_string()),
            },
        ),
        Err(_) => None,
    }
}

/// `http::Extensions`, a collection that holds at most one value of each type.
#[verifier::external_type_specification]
#[verifier::external_body]
pub struct ExExtensions(Extensions);

/// The texts of the `axum::extract::MatchedPath` that the extensions hold: none or one.
pub uninterp spec fn matched_paths(extensions: Extensions) -> Seq<Seq<char>>;

/// `http::Extensions::get` of an `axum::extract::MatchedPath`, and its `as_str`: the text of the
/// one that the extensions hold, where they hold one.
#[verifier::external_body]
pub(crate) fn matched_path(extensions: &Extensions) -> (path: Option<String>)
    ensures
        path is Some <==> matched_paths(*extensions).len() > 0,
        path matches Some(path) ==> path@ == matched_paths(*extensions)[0],
{
    extensions.get::<MatchedPath>().map(|path| path.as_str().to_string())
}

/// Whether `reqwest::Url::parse` accepts the text.
pub uninterp spec fn url_is_valid(text: Seq<char>) -> bool;

/// What `reqwest::Url::as_str` returns of the URL that the text is.
pub uninterp spec fn url_text(text: Seq<char>) -> Seq<char>;

/// What `reqwest::Url::host_str` returns of the URL that the text is.
pub uninterp spec fn url_host(text: Seq<char>) -> Option<Seq<char>>;

/// What `reqwest::Url::port` returns of the URL that the text is.
pub uninterp spec fn url_port(text: Seq<char>) -> Option<u16>;

/// What `reqwest::Url::path` returns of the URL that the text is.
pub uninterp spec fn url_path(text: Seq<char>) -> Seq<char>;

/// `reqwest::Url::parse`, and the URL's `as_str`, `host_str` and `port`. They depend on the text
/// alone.
#[verifier::external_body]
pub(crate) fn parse_url(text: &str) -> (parts: Option<UrlParts>)
    ensures
        parts is Some <==> url_is_valid(text@),
        parts matches Some(parts) ==> parts.text@ == url_text(text@),
        parts matches Some(parts) ==> parts.host.deep_view() == url_host(text@),
        parts matches Some(parts) ==> parts.port == url_port(text@),
{
    match Url::parse(text) {
        Ok(url) => Some(
            UrlParts {
                text: url.as_str().to_string(),
                host: url.host_str().map(|host| host.to_string()),
                port: url.port(),
            },
        ),
        Err(_) => None,
    }
}

/// The texts of the `reqwest_tracing::OtelName` that the extensions hold: none or one.
pub uninterp spec fn span_names(extensions: Extensions) -> Seq<Seq<char>>;

/// The known paths of the `reqwest_tracing::OtelPathNames` that the extensions hold, in the order
/// in which it was given them: none or one list.
pub uninterp spec fn known_paths(extensions: Extensions) -> Seq<Seq<Seq<char>>>;

/// What `reqwest_tracing::OtelPathNames::find` returns for the path, where it was made of the known
/// paths.
pub uninterp spec fn known_path(known: Seq<Seq<char>>, path: Seq<char>) -> Option<Seq<char>>;

/// The name of a client's span: the name that was asked for; else, where known paths were given,
/// the method and the one that the request's path matches, or `UNKNOWN` where it matches none; else
/// the method.
pub open spec fn span_name(
    method: Seq<char>,
    names: Seq<Seq<char>>,
    paths: Seq<Option<Seq<char>>>,
) -> Seq<char> {
    if names.len() > 0 {
        names[0]
    } else if paths.len() > 0 {
        match paths[0] {
            Some(path) => method + " "@ + path,
            None => method + " UNKNOWN"@,
        }
    } else {
        method
    }
}

/// Whether a path has no parameters, and so matches itself alone.
pub open spec fn is_literal_path(path: Seq<char>) -> bool {
    path.len() > 0 && path[0] == '/' && !path.contains('{') && !path.contains('}')
}

/// Whether a span's name tells of no path but the known ones: it is the method and a known path, or
/// the method and `UNKNOWN`. A path that is itself known, and has no parameters, is the one told of.
pub open spec fn tells_of_known_path(
    name: Seq<char>,
    method: Seq<char>,
    path: Seq<char>,
    known: Seq<Seq<char>>,
) -> bool {
    &&& name == method + " UNKNOWN"@ || exists|i: int|
        0 <= i < known.len() && name == method + " "@ + #[trigger] known[i]
    &&& known.contains(path) && is_literal_path(path) ==> name == method + " "@ + path
}

/// `reqwest_tracing::default_span_name` of a request with the method and the URL: what
/// [`span_name`] makes of the method, of the name that the extensions hold and of the known path
/// that they hold for the URL's path. Where they hold known paths and no name, it tells of no path
/// but those. `http::Method::from_bytes` accepts the tokens, and no other text.
#[verifier::external_body]
pub(crate) fn default_span_name(method: &str, url: &str, extensions: &Extensions) -> (span: Option<
    String,
>)
    ensures
        span is Some <==> (is_method(method@) && url_is_valid(url@)),
        span matches Some(text) ==> text@ == span_name(
            method@,
            span_names(*extensions),
            known_paths(*extensions).map_values(
                |known: Seq<Seq<char>>| known_path(known, url_path(url@)),
            ),
        ),
        span matches Some(text) ==> span_names(*extensions).len() == 0 && known_paths(
            *extensions,
        ).len() > 0 ==> tells_of_known_path(
            text@,
            method@,
            url_path(url@),
            known_paths(*extensions)[0],
        ),
{
    let method = Method::from_bytes(method.as_bytes()).ok()?;
    let request = Request::new(method, Url::parse(url).ok()?);
    Some(reqwest_tracing::default_span_name(&request, extensions).to_string())
}

/// `anyhow::Error`, carried as it is.
#[verifier::external_type_specification]
#[verifier::external_body]
pub struct ExAnyhowError(anyhow::Error);

/// `From` of a type for itself, in std: it returns its argument unchanged.
pub assume_specification<Any>[ <Any as core::convert::From<Any>>::from ](value: Any) -> (same: Any)
    ensures
        same == value,
;

/// The `From` of `anyhow::Error` for the errors of std: the text of what it gives is the text of the
/// error that it is given.
pub assume_specification<Std>[ <anyhow::Error as core::convert::From<Std>>::from ](error: Std) -> (kept:
    anyhow::Error) where Std: core::error::Error + Send + Sync + 'static
    ensures
        forall|text: String| #[trigger]
            to_string_from_display_ensures::<anyhow::Error>(&kept, text)
                <==> to_string_from_display_ensures::<Std>(&error, text),
;

/// The `Debug` text of `anyhow::Error`. It is what the wrapped error's own impls write, so nothing
/// is said of it but that it came of this call.
#[verifier::external_body]
pub(crate) fn anyhow_debug(error: &anyhow::Error) -> (text: String) {
    format!("{:?}", error)
}

/// The indented `Debug` text that std's formatting gives of a value. It is what the value's own impl
/// writes, so nothing is said of it but that it came of this call.
#[verifier::external_body]
pub(crate) fn indented_debug<E: core::fmt::Debug + ?Sized>(value: &E) -> (text: String) {
    format!("{:#?}", value)
}

/// `opentelemetry::global::GlobalTracerProvider`, carried as it is.
#[verifier::external_type_specification]
#[verifier::external_body]
pub struct ExGlobalTracerProvider(GlobalTracerProvider);

/// `opentelemetry::global::tracer_provider`: whichever provider the process has set by now, so
/// nothing is said of it.
pub assume_specification[ opentelemetry::global::tracer_provider ]() -> (provider:
    GlobalTracerProvider)
;

} // verus!
