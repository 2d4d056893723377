//! How a request that a client sent came out.
use crate::http::{decimal, is_error_code, status_text, status_text_reads_as_the_code, Status};
use crate::span::ErrorReport;
use vstd::prelude::*;

verus! {

/// A response came back, or an error did.
#[derive(Debug, PartialEq, Eq)]
pub enum ClientOutcome {
    Response(Status),
    Failure(ErrorReport),
}

/// What a [`ClientOutcome`] means.
pub enum ClientOutcomeView {
    Response(u16),
    Failure { message: Seq<char>, stacktrace: Seq<char> },
}

impl View for ClientOutcome {
    type V = ClientOutcomeView;

    open spec fn view(&self) -> ClientOutcomeView {
        match self {
            ClientOutcome::Response(status) => ClientOutcomeView::Response(status@),
            ClientOutcome::Failure(report) => ClientOutcomeView::Failure {
                message: report.message@,
                stacktrace: report.stacktrace@,
            },
        }
    }
}

/// The kind of error that came back, if any: the digits of an error status, or the text of the
/// error.
pub open spec fn error_type(outcome: ClientOutcomeView) -> Option<Seq<char>> {
    match outcome {
        ClientOutcomeView::Response(code) => if is_error_code(code) {
            Some(status_text(code))
        } else {
            None
        },
        ClientOutcomeView::Failure { message, .. } => Some(message),
    }
}

impl ClientOutcome {
    /// The kind of error that came back, if any.
    pub fn error_type(&self) -> (kind: Option<String>)
        ensures
            kind.deep_view() == error_type(self@),
    {
        match self {
            ClientOutcome::Response(status) => {
                if status.is_client_error() || status.is_server_error() {
                    Some(status.as_str())
                } else {
                    None
                }
            },
            ClientOutcome::Failure(report) => Some(report.message.clone()),
        }
    }
}

/// An outcome means itself: the number of the status, or the message and the stack trace.
pub proof fn outcome_means_itself(outcome: ClientOutcome)
    ensures
        match outcome {
            ClientOutcome::Response(status) => outcome@ matches ClientOutcomeView::Response(code)
                && code == status@,
            ClientOutcome::Failure(report) => outcome@ matches ClientOutcomeView::Failure {
                message,
                stacktrace,
            } && message == report.message@ && stacktrace == report.stacktrace@,
        },
{
}

/// There is a kind of error exactly where no response came back, or one whose first digit is four
/// or five. It is the text of the error that came back, or three digits that read as the number of
/// the status.
pub proof fn error_type_tells_of_the_outcome(outcome: &ClientOutcome, kind: Option<String>)
    requires
        call_ensures(ClientOutcome::error_type, (outcome,), kind),
    ensures
        match *outcome {
            ClientOutcome::Response(status) => {
                &&& kind is Some <==> (status@ as int / 100 == 4 || status@ as int / 100 == 5)
                &&& kind matches Some(text) ==> text@.len() == 3 && decimal(text@) == status@
            },
            ClientOutcome::Failure(report) => kind matches Some(text) && text@ == report.message@,
        },
{
    match *outcome {
        ClientOutcome::Response(status) => {
            status_text_reads_as_the_code(status@);
        },
        ClientOutcome::Failure(report) => {},
    }
    assert(kind.deep_view() == error_type(outcome@));
}

/// Error statuses of one kind are the same status.
pub proof fn error_type_tells_statuses_apart(
    a: Status,
    b: Status,
    kinds: (Option<String>, Option<String>),
)
    requires
        call_ensures(ClientOutcome::error_type, (&ClientOutcome::Response(a),), kinds.0),
        call_ensures(ClientOutcome::error_type, (&ClientOutcome::Response(b),), kinds.1),
        kinds.0 is Some,
        kinds.0.deep_view() == kinds.1.deep_view(),
    ensures
        a@ == b@,
{
    error_type_tells_of_the_outcome(&ClientOutcome::Response(a), kinds.0);
    error_type_tells_of_the_outcome(&ClientOutcome::Response(b), kinds.1);
    assert(kinds.0->0@ == kinds.1->0@);
}

} // verus!
