//! Spans: what one is started with, what is done to it afterwards, and what it then records.
use crate::attribute::{
    attributes_view, has_text, push_attribute, text_attribute, Attribute, AttributeView, Key, Value,
};
use crate::outside;
use vstd::prelude::*;
use vstd::string::to_string_from_display_ensures;

verus! {

/// The side of an exchange that a span covers.
#[derive(Clone, Copy, Debug, PartialEq, Eq, Structural)]
pub enum SpanKind {
    Server,
    Client,
}

/// What a span is started with.
#[derive(Debug, PartialEq, Eq)]
pub struct SpanStart {
    /// The instrumentation scope: the name of the tracer that starts the span.
    pub scope: &'static str,
    pub name: String,
    pub kind: SpanKind,
    pub attributes: Vec<Attribute>,
}

/// What a [`SpanStart`] means.
pub struct SpanStartView {
    pub scope: Seq<char>,
    pub name: Seq<char>,
    pub kind: SpanKind,
    pub attributes: Seq<AttributeView>,
}

impl View for SpanStart {
    type V = SpanStartView;

    open spec fn view(&self) -> SpanStartView {
        SpanStartView {
            scope: self.scope@,
            name: self.name@,
            kind: self.kind,
            attributes: attributes_view(self.attributes@),
        }
    }
}

/// Something to do to a span that was started.
#[derive(Debug, PartialEq, Eq)]
pub enum SpanAction {
    SetAttribute(Attribute),
    /// Give the span the status of an error, with a description.
    SetErrorStatus { description: &'static str },
    AddEvent { name: &'static str, attributes: Vec<Attribute> },
    /// Write a log line on the error status that came back.
    LogErrorStatus,
    /// Write a log line on the error that came back.
    LogError,
    End,
}

/// What a [`SpanAction`] means.
pub enum SpanActionView {
    SetAttribute(AttributeView),
    SetErrorStatus { description: Seq<char> },
    AddEvent(EventView),
    LogErrorStatus,
    LogError,
    End,
}

/// An event of a span.
pub struct EventView {
    pub name: Seq<char>,
    pub attributes: Seq<AttributeView>,
}

impl View for SpanAction {
    type V = SpanActionView;

    open spec fn view(&self) -> SpanActionView {
        match self {
            SpanAction::SetAttribute(attribute) => SpanActionView::SetAttribute(attribute@),
            SpanAction::SetErrorStatus { description } => SpanActionView::SetErrorStatus {
                description: description@,
            },
            SpanAction::AddEvent { name, attributes } => SpanActionView::AddEvent(
                EventView { name: name@, attributes: attributes_view(attributes@) },
            ),
            SpanAction::LogErrorStatus => SpanActionView::LogErrorStatus,
            SpanAction::LogError => SpanActionView::LogError,
            SpanAction::End => SpanActionView::End,
        }
    }
}

/// What to do to a span, in this order.
#[derive(Debug, PartialEq, Eq)]
pub struct SpanActions {
    pub actions: Vec<SpanAction>,
}

impl View for SpanActions {
    type V = Seq<SpanActionView>;

    open spec fn view(&self) -> Seq<SpanActionView> {
        self.actions@.map_values(|action: SpanAction| action@)
    }
}

/// Giving a span the status of an error, without a description.
pub open spec fn error_status() -> SpanActionView {
    SpanActionView::SetErrorStatus { description: ""@ }
}

/// The event that tells of an error.
pub open spec fn exception_event(message: Seq<char>, stacktrace: Seq<char>) -> EventView {
    EventView {
        name: "exception"@,
        attributes: seq![
            text_attribute(Key::ExceptionMessage, message),
            text_attribute(Key::ExceptionStacktrace, stacktrace),
        ],
    }
}

impl SpanActions {
    /// Nothing to do.
    pub fn new() -> (actions: SpanActions)
        ensures
            actions@ == Seq::<SpanActionView>::empty(),
    {
        let actions = SpanActions { actions: Vec::new() };
        assert(actions@ =~= Seq::<SpanActionView>::empty());
        actions
    }

    /// Appends an action.
    pub fn push(&mut self, action: SpanAction)
        ensures
            final(self)@ == old(self)@.push(action@),
    {
        self.actions.push(action);
        assert(self@ =~= old(self)@.push(action@));
    }
}

/// An error, as a span tells of it.
#[derive(Debug, PartialEq, Eq)]
pub struct ErrorReport {
    pub message: String,
    pub stacktrace: String,
}

/// Whether the text is what the `Debug` of the error writes, on one call of it.
pub closed spec fn is_anyhow_debug(err: &anyhow::Error, text: String) -> bool {
    call_ensures(outside::anyhow_debug, (err,), text)
}

/// Whether the text is what the indented `Debug` of the error writes, on one call of it.
pub closed spec fn is_indented_debug<E: core::fmt::Debug + ?Sized>(err: &E, text: String) -> bool {
    call_ensures(outside::indented_debug::<E>, (err,), text)
}

impl ErrorReport {
    /// The text and the `Debug` text of an error.
    pub fn of_anyhow(err: &anyhow::Error) -> (report: ErrorReport)
        ensures
            to_string_from_display_ensures::<anyhow::Error>(err, report.message),
            is_anyhow_debug(err, report.stacktrace),
    {
        ErrorReport { message: err.to_string(), stacktrace: outside::anyhow_debug(err) }
    }

    /// The text and the indented `Debug` text of an error of any other type.
    pub fn of<E: core::fmt::Display + core::fmt::Debug + ?Sized>(err: &E) -> (report: ErrorReport)
        ensures
            to_string_from_display_ensures::<E>(err, report.message),
            is_indented_debug(err, report.stacktrace),
    {
        ErrorReport { message: err.to_string(), stacktrace: outside::indented_debug(err) }
    }
}

/// Recording errors on spans.
pub trait SpanExt<T> {
    /// Records an event that tells of the error.
    fn record_error_ext(&mut self, err: T);
}

impl SpanExt<&ErrorReport> for SpanActions {
    /// Appends the event that holds the message and the stack trace of the report.
    fn record_error_ext(&mut self, err: &ErrorReport)
        ensures
            final(self)@ == old(self)@.push(
                SpanActionView::AddEvent(exception_event(err.message@, err.stacktrace@)),
            ),
    {
        let mut attributes = Vec::new();
        push_attribute(
            &mut attributes,
            Attribute::text(Key::ExceptionMessage, err.message.as_str()),
        );
        push_attribute(
            &mut attributes,
            Attribute::text(Key::ExceptionStacktrace, err.stacktrace.as_str()),
        );
        assert(attributes_view(attributes@) =~= exception_event(
            err.message@,
            err.stacktrace@,
        ).attributes);
        self.push(SpanAction::AddEvent { name: "exception", attributes });
    }
}

impl SpanExt<&anyhow::Error> for SpanActions {
    /// Appends an event whose message is the error's text and whose stack trace is the error's
    /// `Debug` text.
    fn record_error_ext(&mut self, err: &anyhow::Error)
        ensures
            exists|report: ErrorReport|
                #![trigger exception_event(report.message@, report.stacktrace@)]
                to_string_from_display_ensures::<anyhow::Error>(err, report.message)
                    && is_anyhow_debug(err, report.stacktrace)
                    && final(self)@ == old(self)@.push(
                    SpanActionView::AddEvent(exception_event(report.message@, report.stacktrace@)),
                ),
    {
        let report = ErrorReport::of_anyhow(err);
        self.record_error_ext(&report);
    }
}

/// What a span that follows the actions records.
pub struct SpanRecord {
    pub attributes: Seq<AttributeView>,
    /// The description of the error, where the span has the status of one.
    pub error: Option<Seq<char>>,
    pub events: Seq<EventView>,
    pub ended: bool,
}

/// What a span records when it is started.
pub open spec fn started(start: SpanStartView) -> SpanRecord {
    SpanRecord { attributes: start.attributes, error: None, events: Seq::empty(), ended: false }
}

/// What a span records once an action was done to it: attributes and events are appended, and a
/// span that has ended records nothing more.
pub open spec fn acted(record: SpanRecord, action: SpanActionView) -> SpanRecord {
    if record.ended {
        record
    } else {
        match action {
            SpanActionView::SetAttribute(attribute) => SpanRecord {
                attributes: record.attributes.push(attribute),
                ..record
            },
            SpanActionView::SetErrorStatus { description } => SpanRecord {
                error: Some(description),
                ..record
            },
            SpanActionView::AddEvent(event) => SpanRecord {
                events: record.events.push(event),
                ..record
            },
            SpanActionView::LogErrorStatus => record,
            SpanActionView::LogError => record,
            SpanActionView::End => SpanRecord { ended: true, ..record },
        }
    }
}

/// What a span records once all the actions were done to it, in their order.
pub open spec fn recorded(record: SpanRecord, actions: Seq<SpanActionView>) -> SpanRecord
    decreases actions.len(),
{
    if actions.len() == 0 {
        record
    } else {
        recorded(acted(record, actions[0]), actions.drop_first())
    }
}

/// Whether a span is ended by the last of the actions, and by no other.
pub open spec fn ends_once(actions: Seq<SpanActionView>) -> bool {
    &&& actions.len() > 0
    &&& forall|i: int|
        0 <= i < actions.len() ==> ((#[trigger] actions[i] is End) <==> i == actions.len() - 1)
}

/// Whether some action of the list gives `key` the text.
pub open spec fn sets_text(actions: Seq<SpanAction>, key: Key, text: Seq<char>) -> bool {
    exists|i: int|
        0 <= i < actions.len() && (#[trigger] actions[i] matches SpanAction::SetAttribute(attribute)
            && attribute.key == key && (attribute.value matches Value::Str(value) && value@
            == text))
}

/// Whether some action of the list gives `key` the number.
pub open spec fn sets_number(actions: Seq<SpanAction>, key: Key, number: int) -> bool {
    exists|i: int|
        0 <= i < actions.len() && (#[trigger] actions[i] matches SpanAction::SetAttribute(attribute)
            && attribute.key == key && (attribute.value matches Value::I64(value) && value
            == number))
}

/// Whether no action of the list gives `key` a value.
pub open spec fn never_sets(actions: Seq<SpanAction>, key: Key) -> bool {
    forall|i: int|
        0 <= i < actions.len() ==> (#[trigger] actions[i] matches SpanAction::SetAttribute(
            attribute,
        ) ==> attribute.key != key)
}

/// Whether the list gives each key at most one value.
pub open spec fn sets_keys_once(actions: Seq<SpanAction>) -> bool {
    forall|i: int, j: int|
        0 <= i < j < actions.len() ==> match (#[trigger] actions[i], #[trigger] actions[j]) {
            (SpanAction::SetAttribute(a), SpanAction::SetAttribute(b)) => a.key != b.key,
            _ => true,
        }
}

/// Whether some action of the list marks the span as an error.
pub open spec fn marks_error(actions: Seq<SpanAction>) -> bool {
    exists|i: int| 0 <= i < actions.len() && #[trigger] actions[i] is SetErrorStatus
}

/// Whether the list marks a span as an error without a word on it, wherever it does.
pub open spec fn describes_no_error(actions: Seq<SpanAction>) -> bool {
    forall|i: int|
        0 <= i < actions.len() ==> (#[trigger] actions[i] matches SpanAction::SetErrorStatus {
            description,
        } ==> description@.len() == 0)
}

/// Whether some action of the list writes a log line on an error status.
pub open spec fn logs_error_status(actions: Seq<SpanAction>) -> bool {
    exists|i: int| 0 <= i < actions.len() && #[trigger] actions[i] is LogErrorStatus
}

/// Whether some action of the list writes a log line on an error.
pub open spec fn logs_error(actions: Seq<SpanAction>) -> bool {
    exists|i: int| 0 <= i < actions.len() && #[trigger] actions[i] is LogError
}

/// Whether no action of the list adds an event.
pub open spec fn adds_no_event(actions: Seq<SpanAction>) -> bool {
    forall|i: int| 0 <= i < actions.len() ==> !(#[trigger] actions[i] is AddEvent)
}

/// Whether the list adds one event, and it tells of an error with the message and the stack trace.
pub open spec fn adds_exception(
    actions: Seq<SpanAction>,
    message: Seq<char>,
    stacktrace: Seq<char>,
) -> bool {
    exists|i: int|
        0 <= i < actions.len() && (#[trigger] actions[i] matches SpanAction::AddEvent {
            name,
            attributes,
        } && name@ == "exception"@ && attributes@.len() == 2 && has_text(
            attributes@,
            Key::ExceptionMessage,
            message,
        ) && has_text(attributes@, Key::ExceptionStacktrace, stacktrace)) && forall|j: int|
            0 <= j < actions.len() && j != i ==> !(#[trigger] actions[j] is AddEvent)
}

/// Whether the span is ended by the last of the actions, and by no other.
pub open spec fn ends_last(actions: Seq<SpanAction>) -> bool {
    actions.len() > 0 && forall|i: int|
        0 <= i < actions.len() ==> (#[trigger] actions[i] is End <==> i == actions.len() - 1)
}

/// An action means itself, with all that it holds.
pub proof fn action_means_itself(action: SpanAction)
    ensures
        match action {
            SpanAction::SetAttribute(attribute) => action@ == SpanActionView::SetAttribute(
                AttributeView { key: attribute.key, value: attribute.value@ },
            ),
            SpanAction::SetErrorStatus { description } => action@
                matches SpanActionView::SetErrorStatus { description: meant } && meant
                == description@,
            SpanAction::AddEvent { name, attributes } => action@ matches SpanActionView::AddEvent(
                event,
            ) && event.name == name@ && event.attributes == attributes_view(attributes@),
            SpanAction::LogErrorStatus => action@ is LogErrorStatus,
            SpanAction::LogError => action@ is LogError,
            SpanAction::End => action@ is End,
        },
{
}

/// What is started and what is to be done means all that it holds, in its order.
pub proof fn start_and_actions_mean_themselves(start: SpanStart, actions: SpanActions, i: int)
    requires
        0 <= i < actions.actions@.len(),
    ensures
        start@.scope == start.scope@,
        start@.name == start.name@,
        start@.kind == start.kind,
        start@.attributes == attributes_view(start.attributes@),
        actions@.len() == actions.actions@.len(),
        actions@[i] == actions.actions@[i]@,
{
}

/// The event that tells of an error holds its message and its stack trace, each under its own key,
/// and nothing else. So errors of different messages or stack traces get different events.
pub proof fn exception_event_tells_of_the_error(message: Seq<char>, stacktrace: Seq<char>)
    ensures
        exception_event(message, stacktrace).name == "exception"@,
        exception_event(message, stacktrace).attributes.len() == 2,
        exception_event(message, stacktrace).attributes[0].key == Key::ExceptionMessage,
        exception_event(message, stacktrace).attributes[0].value->Str_0 == message,
        exception_event(message, stacktrace).attributes[0].value is Str,
        exception_event(message, stacktrace).attributes[1].key == Key::ExceptionStacktrace,
        exception_event(message, stacktrace).attributes[1].value->Str_0 == stacktrace,
        exception_event(message, stacktrace).attributes[1].value is Str,
{
}

/// A span records the actions of two lists as it does those of one behind the other.
pub proof fn recorded_in_parts(record: SpanRecord, a: Seq<SpanActionView>, b: Seq<SpanActionView>)
    ensures
        recorded(record, a + b) == recorded(recorded(record, a), b),
    decreases a.len(),
{
    if a.len() == 0 {
        assert(a + b =~= b);
    } else {
        assert((a + b).drop_first() =~= a.drop_first() + b);
        recorded_in_parts(acted(record, a[0]), a.drop_first(), b);
    }
}

/// Recording an error appends one event to what is to be done, and changes nothing before it. The
/// event holds the message and the stack trace of the error.
pub proof fn recording_appends_the_error(err: &ErrorReport)
    ensures
        forall|actions: &mut SpanActions| #[trigger]
            call_ensures(
                <SpanActions as SpanExt<&ErrorReport>>::record_error_ext,
                (actions, err),
                (),
            ) ==> {
                let after = (*final(actions)).actions@;
                &&& after.len() == (*actions).actions@.len() + 1
                &&& (*final(actions))@.drop_last() == (*actions)@
                &&& after.last() matches SpanAction::AddEvent { name, attributes } && name@
                    == "exception"@ && attributes@.len() == 2 && has_text(
                    attributes@,
                    Key::ExceptionMessage,
                    err.message@,
                ) && has_text(attributes@, Key::ExceptionStacktrace, err.stacktrace@)
            },
{
    assert forall|actions: &mut SpanActions| #[trigger]
        call_ensures(
            <SpanActions as SpanExt<&ErrorReport>>::record_error_ext,
            (actions, err),
            (),
        ) implies ({
        let after = (*final(actions)).actions@;
        &&& after.len() == (*actions).actions@.len() + 1
        &&& (*final(actions))@.drop_last() == (*actions)@
        &&& after.last() matches SpanAction::AddEvent { name, attributes } && name@ == "exception"@
            && attributes@.len() == 2 && has_text(
            attributes@,
            Key::ExceptionMessage,
            err.message@,
        ) && has_text(attributes@, Key::ExceptionStacktrace, err.stacktrace@)
    }) by {
        let after = (*final(actions)).actions@;
        let event = exception_event(err.message@, err.stacktrace@);
        let meant = (*final(actions))@;
        assert(meant == (*actions)@.push(SpanActionView::AddEvent(event)));
        assert(meant.len() == after.len());
        assert((*actions)@.len() == (*actions).actions@.len());
        assert(meant.drop_last() =~= (*actions)@);
        assert(meant.last() == after.last()@);
        let attributes = after.last()->AddEvent_attributes@;
        assert(attributes_view(attributes) == event.attributes);
        assert(attributes[0]@ == event.attributes[0]);
        assert(attributes[1]@ == event.attributes[1]);
    }
}

/// A report holds the text of the error, and the text of the error's own `Debug`: the indented one,
/// but for an `anyhow::Error`.
pub proof fn report_tells_of_the_error<E: core::fmt::Display + core::fmt::Debug>(
    err: &E,
    anyhow: &anyhow::Error,
    reports: (ErrorReport, ErrorReport),
)
    requires
        call_ensures(ErrorReport::of::<E>, (err,), reports.0),
        call_ensures(ErrorReport::of_anyhow, (anyhow,), reports.1),
    ensures
        to_string_from_display_ensures::<E>(err, reports.0.message),
        is_indented_debug(err, reports.0.stacktrace),
        to_string_from_display_ensures::<anyhow::Error>(anyhow, reports.1.message),
        is_anyhow_debug(anyhow, reports.1.stacktrace),
{
}

/// Recording an `anyhow::Error` appends one event to what is to be done, and changes nothing before
/// it. The event holds the text and the `Debug` text of the error.
pub proof fn recording_appends_the_anyhow_error(err: &anyhow::Error)
    ensures
        forall|actions: &mut SpanActions| #[trigger]
            call_ensures(
                <SpanActions as SpanExt<&anyhow::Error>>::record_error_ext,
                (actions, err),
                (),
            ) ==> (*final(actions))@.len() == (*actions)@.len() + 1 && (
            *final(actions))@.drop_last() == (*actions)@ && exists|report: ErrorReport|
                #![trigger exception_event(report.message@, report.stacktrace@)]
                to_string_from_display_ensures::<anyhow::Error>(err, report.message)
                    && is_anyhow_debug(err, report.stacktrace) && (*final(actions))@.last()
                    == SpanActionView::AddEvent(
                    exception_event(report.message@, report.stacktrace@),
                ),
{
    assert forall|actions: &mut SpanActions| #[trigger]
        call_ensures(
            <SpanActions as SpanExt<&anyhow::Error>>::record_error_ext,
            (actions, err),
            (),
        ) implies (*final(actions))@.drop_last() == (*actions)@ by {
        assert((*final(actions))@.drop_last() =~= (*actions)@);
    }
}

} // verus!
