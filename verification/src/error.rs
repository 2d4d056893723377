//! The error of a request handler, and the response that it turns into.
use crate::attribute::{attributes_view, has_text, Key};
use crate::http::Status;
use crate::span::{
    exception_event, is_anyhow_debug, ErrorReport, SpanAction, SpanActionView, SpanActions, SpanExt,
};
use vstd::prelude::*;
use vstd::std_specs::convert::{FromSpec, FromSpecImpl, IntoSpec};
use vstd::string::to_string_from_display_ensures;

verus! {

/// Whatever went wrong in a request handler.
pub struct AppError(anyhow::Error);

impl AppError {
    /// The error inside.
    pub closed spec fn source(self) -> anyhow::Error {
        self.0
    }
}

impl<E> From<E> for AppError where E: Into<anyhow::Error> {
    fn from(value: E) -> (error: AppError)
        ensures
            call_ensures(<E as Into<anyhow::Error>>::into, (value,), error.source()),
    {
        AppError(value.into())
    }
}

impl<E> FromSpecImpl<E> for AppError where E: Into<anyhow::Error> {
    open spec fn obeys_from_spec() -> bool {
        E::obeys_into_spec()
    }

    closed spec fn from_spec(value: E) -> AppError {
        AppError(value.into_spec())
    }
}

/// The conversion keeps the error that it converts.
pub proof fn from_keeps_the_error<E: Into<anyhow::Error>>(value: E)
    ensures
        <AppError as FromSpec<E>>::from_spec(value).source() == value.into_spec(),
{
}

/// The response to a request whose handler failed.
#[derive(Debug, PartialEq, Eq)]
pub struct ErrorResponse {
    pub status: Status,
    pub body: String,
}

/// The body that tells of an error.
pub open spec fn error_body(message: Seq<char>) -> Seq<char> {
    "Something went wrong: "@ + message
}

/// The response that tells of an error with the given text.
pub fn error_response(message: &str) -> (response: ErrorResponse)
    ensures
        response.status@ == 500,
        response.body@ == error_body(message@),
{
    let mut body = "Something went wrong: ".to_owned();
    body.append(message);
    ErrorResponse { status: Status::internal_server_error(), body }
}

impl AppError {
    /// What to do to the span of the request, and the response. Both tell of the error: the text
    /// of the error is the message of the event and ends the body of the response.
    pub fn into_response(self) -> (reply: (SpanActions, ErrorResponse))
        ensures
            exists|report: ErrorReport|
                #![trigger exception_event(report.message@, report.stacktrace@)]
                to_string_from_display_ensures::<anyhow::Error>(&self.source(), report.message)
                    && is_anyhow_debug(&self.source(), report.stacktrace)
                    && reply.0@ == seq![
                    SpanActionView::AddEvent(exception_event(report.message@, report.stacktrace@)),
                ],
            reply.1.status@ == 500,
            exists|message: String|
                #[trigger] to_string_from_display_ensures::<anyhow::Error>(&self.source(), message)
                    && reply.1.body@ == error_body(message@),
    {
        let mut actions = SpanActions::new();
        actions.record_error_ext(&self.0);
        let message = self.0.to_string();
        assert(to_string_from_display_ensures::<anyhow::Error>(&self.source(), message));
        (actions, error_response(message.as_str()))
    }
}

/// A response tells of the error that was converted: its body ends in the text of the error that
/// the conversion to `anyhow::Error` gives.
pub proof fn response_tells_of_the_error<E: Into<anyhow::Error>>(
    value: E,
    error: AppError,
    reply: (SpanActions, ErrorResponse),
)
    requires
        call_ensures(<AppError as From<E>>::from, (value,), error),
        call_ensures(AppError::into_response, (error,), reply),
    ensures
        exists|source: anyhow::Error, message: String|
            call_ensures(<E as Into<anyhow::Error>>::into, (value,), source)
                && #[trigger] to_string_from_display_ensures::<anyhow::Error>(&source, message)
                && reply.1.status@ == 500 && reply.1.body@ == error_body(message@),
{
}

/// An `anyhow::Error` is kept as it is, and the response tells of it: the body ends in its own text,
/// and the event holds its own text and its own `Debug` text.
pub proof fn anyhow_error_is_kept(
    value: anyhow::Error,
    error: AppError,
    reply: (SpanActions, ErrorResponse),
)
    requires
        call_ensures(<AppError as From<anyhow::Error>>::from, (value,), error),
        call_ensures(AppError::into_response, (error,), reply),
    ensures
        error.source() == value,
        reply.1.status@ == 500,
        exists|message: String|
            #[trigger] to_string_from_display_ensures::<anyhow::Error>(&value, message)
                && reply.1.body@ == error_body(message@),
        exists|report: ErrorReport|
            #![trigger exception_event(report.message@, report.stacktrace@)]
            to_string_from_display_ensures::<anyhow::Error>(&value, report.message)
                && is_anyhow_debug(&value, report.stacktrace) && reply.0@ == seq![
                SpanActionView::AddEvent(exception_event(report.message@, report.stacktrace@)),
            ],
{
}

/// A response tells of an error of std by the error's own text: it ends the body, and it is the
/// message of the event.
pub proof fn response_tells_of_a_std_error<E: core::error::Error + Send + Sync + 'static>(
    value: E,
    error: AppError,
    reply: (SpanActions, ErrorResponse),
)
    requires
        call_ensures(<AppError as From<E>>::from, (value,), error),
        call_ensures(AppError::into_response, (error,), reply),
    ensures
        reply.1.status@ == 500,
        exists|message: String| #[trigger]
            to_string_from_display_ensures::<E>(&value, message) && reply.1.body@ == error_body(
                message@,
            ),
        exists|report: ErrorReport|
            #![trigger exception_event(report.message@, report.stacktrace@)]
            to_string_from_display_ensures::<E>(&value, report.message)
                && is_anyhow_debug(&error.source(), report.stacktrace) && reply.0@ == seq![
                SpanActionView::AddEvent(exception_event(report.message@, report.stacktrace@)),
            ],
{
}

/// Errors of different texts get different bodies.
pub proof fn error_body_is_injective(a: Seq<char>, b: Seq<char>)
    requires
        error_body(a) == error_body(b),
    ensures
        a == b,
{
    let n: nat = "Something went wrong: "@.len();
    assert(a =~= error_body(a).skip(n as int));
    assert(b =~= error_body(b).skip(n as int));
}

/// The response to an error is a 500 whose body is a fixed text and, behind it, all of the error's
/// text.
pub proof fn error_response_holds_the_message(message: &str, response: ErrorResponse)
    requires
        call_ensures(error_response, (message,), response),
    ensures
        response.status@ == 500,
        "Something went wrong: "@.is_prefix_of(response.body@),
        message@.is_suffix_of(response.body@),
        response.body@.len() == "Something went wrong: "@.len() + message@.len(),
{
    let prefix = "Something went wrong: "@;
    assert(response.body@ == prefix + message@);
    assert(response.body@.subrange(0, prefix.len() as int) =~= prefix);
    assert(response.body@.subrange(prefix.len() as int, response.body@.len() as int) =~= message@);
}

/// A handler's error is answered with a 500, and the message of the one event that its span gets
/// ends the body of the response, where the error has one text.
pub proof fn event_and_response_agree(error: AppError, reply: (SpanActions, ErrorResponse))
    requires
        call_ensures(AppError::into_response, (error,), reply),
        forall|a: String, b: String| #[trigger]
            to_string_from_display_ensures::<anyhow::Error>(&error.source(), a)
                && #[trigger] to_string_from_display_ensures::<anyhow::Error>(&error.source(), b)
                ==> a@ == b@,
    ensures
        reply.1.status@ == 500,
        reply.0.actions@.len() == 1,
        reply.0.actions@[0] matches SpanAction::AddEvent { name, attributes } && name@
            == "exception"@ && exists|message: Seq<char>| #[trigger]
            has_text(attributes@, Key::ExceptionMessage, message) && reply.1.body@
                == "Something went wrong: "@ + message,
{
    let report = choose|report: ErrorReport|
        #![trigger exception_event(report.message@, report.stacktrace@)]
        to_string_from_display_ensures::<anyhow::Error>(&error.source(), report.message)
            && is_anyhow_debug(&error.source(), report.stacktrace) && reply.0@ == seq![
            SpanActionView::AddEvent(exception_event(report.message@, report.stacktrace@)),
        ];
    let event = exception_event(report.message@, report.stacktrace@);
    assert(reply.0@.len() == reply.0.actions@.len());
    assert(reply.0@[0] == reply.0.actions@[0]@);
    let attributes = reply.0.actions@[0]->AddEvent_attributes@;
    assert(attributes_view(attributes) == event.attributes);
    assert(attributes[0]@ == event.attributes[0]);
    assert(has_text(attributes, Key::ExceptionMessage, report.message@));
}

} // verus!
