//! Tracing of the requests that a client sends: one span for each.
use crate::attribute::{
    attributes_view, has_key, has_number, has_text, keys_are_distinct, lacks, number_attribute,
    push_attribute, text_attribute, Attribute, AttributeView, Key,
};
use crate::http::{
    client_request, decimal, is_error_code, is_method, status_text, status_text_reads_as_the_code,
    ClientRequest, ClientRequestError, ClientRequestView,
};
use crate::outcome::{error_type, ClientOutcome, ClientOutcomeView};
use crate::outside;
use crate::outside::{
    known_path, known_paths, span_name, span_names, tells_of_known_path, url_host, url_is_valid,
    url_path, url_port, url_text,
};
use crate::span::{
    adds_exception, adds_no_event, describes_no_error, ends_last, ends_once, error_status,
    exception_event, logs_error, logs_error_status, marks_error, never_sets, recorded,
    sets_keys_once, sets_number, sets_text, started, EventView, SpanAction, SpanActionView,
    SpanActions, SpanExt, SpanKind, SpanRecord, SpanStart, SpanStartView,
};
use crate::PKG_NAME;
use axum::http::Extensions;
use vstd::prelude::*;

verus! {

/// Gives each request that a client sends a span.
#[derive(Clone, Copy, Debug)]
pub struct ReqwestTracingMiddleware;

/// No attribute where the URL names no port, else one with the port.
pub open spec fn port_attribute(port: Option<u16>) -> Seq<AttributeView> {
    match port {
        Some(port) => seq![number_attribute(Key::ServerPort, port as i64)],
        None => Seq::empty(),
    }
}

/// The attributes that a request's span is started with.
pub open spec fn client_span_attributes(request: ClientRequestView) -> Seq<AttributeView> {
    seq![
        text_attribute(Key::HttpRequestMethod, request.method),
        text_attribute(Key::ServerAddress, request.host),
        text_attribute(Key::UrlFull, request.url),
    ] + port_attribute(request.port)
}

/// What a request's span is started with.
pub open spec fn client_span(name: Seq<char>, request: ClientRequestView) -> SpanStartView {
    SpanStartView {
        scope: PKG_NAME@,
        name,
        kind: SpanKind::Client,
        attributes: client_span_attributes(request),
    }
}

/// What the span of a request with the given method, URL and extensions is started with, or why
/// the request cannot be sent. `names` are the span names that the extensions hold, and `paths`
/// what the known paths that they hold have for the URL's path.
pub open spec fn client_span_of(
    method: Seq<char>,
    url: Seq<char>,
    names: Seq<Seq<char>>,
    paths: Seq<Option<Seq<char>>>,
) -> Result<SpanStartView, ClientRequestError> {
    match client_request(method, url) {
        Ok(request) => if is_method(method) {
            Ok(client_span(span_name(method, names, paths), request))
        } else {
            Err(ClientRequestError::InvalidMethod)
        },
        Err(error) => Err(error),
    }
}

/// What is done to a request's span once a response or an error has come back.
pub open spec fn client_span_end(outcome: ClientOutcomeView) -> Seq<SpanActionView> {
    match outcome {
        ClientOutcomeView::Response(code) => {
            let status = SpanActionView::SetAttribute(
                number_attribute(Key::HttpResponseStatusCode, code as i64),
            );
            if is_error_code(code) {
                seq![
                    status,
                    error_status(),
                    SpanActionView::SetAttribute(
                        text_attribute(Key::ErrorType, status_text(code)),
                    ),
                    SpanActionView::LogErrorStatus,
                    SpanActionView::End,
                ]
            } else {
                seq![status, SpanActionView::End]
            }
        },
        ClientOutcomeView::Failure { message, stacktrace } => seq![
            error_status(),
            SpanActionView::SetAttribute(text_attribute(Key::ErrorType, message)),
            SpanActionView::AddEvent(exception_event(message, stacktrace)),
            SpanActionView::LogError,
            SpanActionView::End,
        ],
    }
}

/// Appends an attribute with the port, where there is one.
pub(crate) fn push_port(attributes: &mut Vec<Attribute>, port: Option<u16>)
    ensures
        attributes_view(final(attributes)@) == attributes_view(old(attributes)@) + port_attribute(
            port,
        ),
{
    match port {
        Some(port) => push_attribute(attributes, Attribute::number(Key::ServerPort, port as i64)),
        None => {},
    }
    assert(attributes_view(attributes@) =~= attributes_view(old(attributes)@) + port_attribute(
        port,
    ));
}

impl ReqwestTracingMiddleware {
    /// The middleware. It holds nothing.
    pub fn new() -> (middleware: ReqwestTracingMiddleware)
        ensures
            middleware == ReqwestTracingMiddleware,
    {
        ReqwestTracingMiddleware
    }

    /// The span to start, under the given name, when a request is sent.
    pub fn start_span(&self, name: String, request: &ClientRequest) -> (start: SpanStart)
        ensures
            start@ == client_span(name@, request@),
    {
        let mut attributes = Vec::new();
        push_attribute(
            &mut attributes,
            Attribute::text(Key::HttpRequestMethod, request.method.as_str()),
        );
        push_attribute(&mut attributes, Attribute::text(Key::ServerAddress, request.host.as_str()));
        push_attribute(&mut attributes, Attribute::text(Key::UrlFull, request.url.as_str()));
        push_port(&mut attributes, request.port);
        assert(attributes_view(attributes@) =~= client_span_attributes(request@));
        SpanStart { scope: PKG_NAME, name, kind: SpanKind::Client, attributes }
    }

    /// The span to start when a request with the given method, URL and extensions is sent. Where
    /// known paths were given, and no name, the name of the span tells of no path but those.
    pub fn on_request(&self, method: &str, url: &str, extensions: &Extensions) -> (start: Result<
        SpanStart,
        ClientRequestError,
    >)
        ensures
            ({
                let expected = client_span_of(
                    method@,
                    url@,
                    span_names(*extensions),
                    known_paths(*extensions).map_values(
                        |known: Seq<Seq<char>>| known_path(known, url_path(url@)),
                    ),
                );
                match start {
                    Ok(start) => expected == Ok::<SpanStartView, ClientRequestError>(start@),
                    Err(error) => expected == Err::<SpanStartView, ClientRequestError>(error),
                }
            }),
            start matches Ok(start) ==> span_names(*extensions).len() == 0 && known_paths(
                *extensions,
            ).len() > 0 ==> tells_of_known_path(
                start@.name,
                method@,
                url_path(url@),
                known_paths(*extensions)[0],
            ),
    {
        match ClientRequest::new(method, url) {
            Ok(request) => match outside::default_span_name(method, url, extensions) {
                Some(name) => Ok(self.start_span(name, &request)),
                None => Err(ClientRequestError::InvalidMethod),
            },
            Err(error) => Err(error),
        }
    }

    /// What to do to the span once a response or an error has come back.
    pub fn on_response(outcome: &ClientOutcome) -> (actions: SpanActions)
        ensures
            actions@ == client_span_end(outcome@),
    {
        let mut actions = SpanActions::new();
        match outcome {
            ClientOutcome::Response(status) => {
                actions.push(
                    SpanAction::SetAttribute(
                        Attribute::number(Key::HttpResponseStatusCode, status.as_u16() as i64),
                    ),
                );
                if status.is_client_error() || status.is_server_error() {
                    actions.push(SpanAction::SetErrorStatus { description: "" });
                    let kind = status.as_str();
                    actions.push(
                        SpanAction::SetAttribute(Attribute::text(Key::ErrorType, kind.as_str())),
                    );
                    actions.push(SpanAction::LogErrorStatus);
                }
            },
            ClientOutcome::Failure(report) => {
                actions.push(SpanAction::SetErrorStatus { description: "" });
                actions.push(
                    SpanAction::SetAttribute(
                        Attribute::text(Key::ErrorType, report.message.as_str()),
                    ),
                );
                actions.record_error_ext(report);
                actions.push(SpanAction::LogError);
            },
        }
        actions.push(SpanAction::End);
        assert(actions@ =~= client_span_end(outcome@));
        actions
    }
}

/// The attributes of a request's span once a response or an error has come back: those it was
/// started with, the status and the kind of error, where there are such.
pub open spec fn client_span_final_attributes(
    request: ClientRequestView,
    outcome: ClientOutcomeView,
) -> Seq<AttributeView> {
    client_span_attributes(request) + outcome_attributes(outcome)
}

/// The attributes that tell how a request came out.
pub open spec fn outcome_attributes(outcome: ClientOutcomeView) -> Seq<AttributeView> {
    let status = match outcome {
        ClientOutcomeView::Response(code) => seq![
            number_attribute(Key::HttpResponseStatusCode, code as i64),
        ],
        ClientOutcomeView::Failure { .. } => Seq::empty(),
    };
    match error_type(outcome) {
        Some(kind) => status.push(text_attribute(Key::ErrorType, kind)),
        None => status,
    }
}

/// The events of a request's span: one that tells of the error, where no response came back.
pub open spec fn outcome_events(outcome: ClientOutcomeView) -> Seq<EventView> {
    match outcome {
        ClientOutcomeView::Response(_) => Seq::empty(),
        ClientOutcomeView::Failure { message, stacktrace } => seq![
            exception_event(message, stacktrace),
        ],
    }
}

/// Every span of a request is ended, once, and nothing is done to it afterwards.
pub proof fn client_span_is_ended_once(outcome: ClientOutcomeView)
    ensures
        ends_once(client_span_end(outcome)),
{
}

/// What the span of a request records in the end: how it came out behind the attributes of the
/// request, and an error exactly where there is a kind of error to name.
pub proof fn client_span_record(
    name: Seq<char>,
    request: ClientRequestView,
    outcome: ClientOutcomeView,
)
    ensures
        recorded(started(client_span(name, request)), client_span_end(outcome)) == (SpanRecord {
            attributes: client_span_final_attributes(request, outcome),
            error: if error_type(outcome) is Some {
                Some(""@)
            } else {
                None
            },
            events: outcome_events(outcome),
            ended: true,
        }),
{
    reveal_with_fuel(recorded, 6);
    let record = recorded(started(client_span(name, request)), client_span_end(outcome));
    assert(record.attributes =~= client_span_final_attributes(request, outcome));
    assert(record.events =~= outcome_events(outcome));
}

/// The kind of error stands among the attributes of a span exactly where the span records an
/// error, that is where no response came back or one with an error status.
pub proof fn error_type_is_named_on_errors(request: ClientRequestView, outcome: ClientOutcomeView)
    ensures
        has_key(client_span_final_attributes(request, outcome), Key::ErrorType) <==> error_type(
            outcome,
        ) is Some,
        error_type(outcome) is None <==> (outcome matches ClientOutcomeView::Response(code)
            && !is_error_code(code)),
{
    let attributes = client_span_final_attributes(request, outcome);
    if error_type(outcome) is Some {
        assert(attributes.last().key == Key::ErrorType);
    }
}

/// Whether a list of attributes tells of a port where there is one, and of none where there is
/// none.
pub open spec fn tells_port(attributes: Seq<Attribute>, port: Option<u16>) -> bool {
    match port {
        Some(port) => has_number(attributes, Key::ServerPort, port as int),
        None => lacks(attributes, Key::ServerPort),
    }
}

/// The span of a client's request has the name that it is given, and tells of the request, of all
/// of it and of nothing else: each of its parts stands among the attributes under its own key, the
/// URL with all that it holds.
pub proof fn client_span_tells_of_the_request(
    middleware: &ReqwestTracingMiddleware,
    name: String,
    request: &ClientRequest,
    start: SpanStart,
)
    requires
        call_ensures(ReqwestTracingMiddleware::start_span, (middleware, name, request), start),
    ensures
        start.name@ == name@,
        start.kind == SpanKind::Client,
        start.scope@ == "service-common"@,
        has_text(start.attributes@, Key::HttpRequestMethod, request.method@),
        has_text(start.attributes@, Key::ServerAddress, request.host@),
        has_text(start.attributes@, Key::UrlFull, request.url@),
        tells_port(start.attributes@, request.port),
        keys_are_distinct(start.attributes@),
        forall|key: Key|
            #[trigger] lacks(start.attributes@, key) || key == Key::HttpRequestMethod || key
                == Key::ServerAddress || key == Key::UrlFull || key == Key::ServerPort,
        start.attributes@[0].key == Key::HttpRequestMethod,
        start.attributes@[1].key == Key::ServerAddress,
        start.attributes@[2].key == Key::UrlFull,
{
    let attributes = start.attributes@;
    let meant = attributes_view(attributes);
    assert(meant == client_span_attributes(request@));
    assert(forall|i: int| 0 <= i < attributes.len() ==> meant[i] == (#[trigger] attributes[i])@);
    assert(attributes[0]@ == meant[0]);
    assert(attributes[1]@ == meant[1]);
    assert(attributes[2]@ == meant[2]);
    if request.port is Some {
        assert(attributes[3]@ == meant[3]);
    }
}

/// Requests of different URLs, methods, servers or ports get spans of different attributes.
pub proof fn client_spans_tell_requests_apart(
    middleware: &ReqwestTracingMiddleware,
    names: (String, String),
    a: &ClientRequest,
    b: &ClientRequest,
    starts: (SpanStart, SpanStart),
)
    requires
        call_ensures(ReqwestTracingMiddleware::start_span, (middleware, names.0, a), starts.0),
        call_ensures(ReqwestTracingMiddleware::start_span, (middleware, names.1, b), starts.1),
        attributes_view(starts.0.attributes@) == attributes_view(starts.1.attributes@),
    ensures
        a.url@ == b.url@,
        a.method@ == b.method@,
        a.host@ == b.host@,
        a.port == b.port,
{
    let meant = attributes_view(starts.0.attributes@);
    assert(meant == client_span_attributes(a@));
    assert(meant == client_span_attributes(b@));
    assert(meant[0] == client_span_attributes(b@)[0]);
    assert(meant[1] == client_span_attributes(b@)[1]);
    assert(meant[2] == client_span_attributes(b@)[2]);
    if a.port is Some {
        assert(meant[3] == client_span_attributes(b@)[3]);
    }
}

/// What a request is traced with, from what it is sent with: the span tells of its URL, its host
/// and its port as the URL has them, and of its method. It is named as the extensions ask, else by
/// the method and what the known paths have for the URL's path, else by the method alone. A request
/// whose URL is none, or has no host, or whose method is none, is not sent.
pub proof fn client_span_tells_of_what_is_sent(
    middleware: &ReqwestTracingMiddleware,
    method: &str,
    url: &str,
    extensions: &Extensions,
    start: Result<SpanStart, ClientRequestError>,
)
    requires
        call_ensures(
            ReqwestTracingMiddleware::on_request,
            (middleware, method, url, extensions),
            start,
        ),
    ensures
        match start {
            Ok(start) => {
                &&& url_is_valid(url@) && is_method(method@)
                &&& start.kind == SpanKind::Client
                &&& start.scope@ == "service-common"@
                &&& has_text(start.attributes@, Key::HttpRequestMethod, method@)
                &&& has_text(start.attributes@, Key::UrlFull, url_text(url@))
                &&& url_host(url@) matches Some(host) && has_text(
                    start.attributes@,
                    Key::ServerAddress,
                    host,
                )
                &&& tells_port(start.attributes@, url_port(url@))
                &&& keys_are_distinct(start.attributes@)
                &&& span_names(*extensions).len() > 0 ==> start.name@ == span_names(*extensions)[0]
                &&& span_names(*extensions).len() == 0 && known_paths(*extensions).len() == 0
                    ==> start.name@ == method@
                &&& span_names(*extensions).len() == 0 && known_paths(*extensions).len() > 0 ==> (
                match known_path(known_paths(*extensions)[0], url_path(url@)) {
                    Some(path) => start.name@ == method@ + " "@ + path,
                    None => start.name@ == method@ + " UNKNOWN"@,
                })
            },
            Err(ClientRequestError::InvalidUrl) => !url_is_valid(url@),
            Err(ClientRequestError::MissingHost) => url_is_valid(url@) && url_host(url@) is None,
            Err(ClientRequestError::InvalidMethod) => url_is_valid(url@) && url_host(url@) is Some
                && !is_method(method@),
        },
{
    if start is Ok {
        let attributes = start->Ok_0.attributes@;
        let meant = attributes_view(attributes);
        let request = client_request(method@, url@)->Ok_0;
        assert(meant == client_span_attributes(request));
        assert(forall|i: int|
            0 <= i < attributes.len() ==> meant[i] == (#[trigger] attributes[i])@);
        assert(attributes[0]@ == meant[0]);
        assert(attributes[1]@ == meant[1]);
        assert(attributes[2]@ == meant[2]);
        if request.port is Some {
            assert(attributes[3]@ == meant[3]);
        }
    }
}

/// What is done to the span of a client's request tells how the request came out. A response leaves
/// its number; where its first digit is four or five, the span is marked as an error, the kind of
/// error reads as that number, and a line is logged. An error leaves its message as the kind of
/// error, and one event with its message and its stack trace. Then the span is ended.
pub proof fn client_span_tells_of_the_outcome(outcome: &ClientOutcome, actions: SpanActions)
    requires
        call_ensures(ReqwestTracingMiddleware::on_response, (outcome,), actions),
    ensures
        match *outcome {
            ClientOutcome::Response(status) => {
                let is_error = status@ as int / 100 == 4 || status@ as int / 100 == 5;
                &&& sets_number(actions.actions@, Key::HttpResponseStatusCode, status@ as int)
                &&& actions.actions@[0]->SetAttribute_0.key == Key::HttpResponseStatusCode
                &&& marks_error(actions.actions@) <==> is_error
                &&& logs_error_status(actions.actions@) <==> is_error
                &&& !is_error ==> never_sets(actions.actions@, Key::ErrorType)
                &&& is_error ==> exists|kind: Seq<char>| #[trigger]
                    sets_text(actions.actions@, Key::ErrorType, kind) && kind.len() == 3
                        && decimal(kind) == status@
                &&& !logs_error(actions.actions@)
                &&& adds_no_event(actions.actions@)
            },
            ClientOutcome::Failure(report) => {
                &&& never_sets(actions.actions@, Key::HttpResponseStatusCode)
                &&& marks_error(actions.actions@)
                &&& sets_text(actions.actions@, Key::ErrorType, report.message@)
                &&& adds_exception(actions.actions@, report.message@, report.stacktrace@)
                &&& logs_error(actions.actions@)
                &&& !logs_error_status(actions.actions@)
            },
        },
        sets_keys_once(actions.actions@),
        forall|key: Key| #[trigger]
            never_sets(actions.actions@, key) || key == Key::HttpResponseStatusCode || key
                == Key::ErrorType,
        describes_no_error(actions.actions@),
        ends_last(actions.actions@),
{
    reveal_strlit("");
    let list = actions.actions@;
    assert(actions@ == client_span_end(outcome@));
    assert(forall|i: int| 0 <= i < list.len() ==> actions@[i] == (#[trigger] list[i])@);
    assert(list.len() == actions@.len());
    assert(list[0]@ == actions@[0]);
    assert(list[1]@ == actions@[1]);
    if list.len() == 5 {
        assert(list[2]@ == actions@[2]);
        assert(list[3]@ == actions@[3]);
        assert(list[4]@ == actions@[4]);
    }
    match *outcome {
        ClientOutcome::Response(status) => {
            status_text_reads_as_the_code(status@);
            if is_error_code(status@) {
                assert(sets_text(list, Key::ErrorType, status_text(status@)));
            }
        },
        ClientOutcome::Failure(report) => {
            let event = exception_event(report.message@, report.stacktrace@);
            let attributes = list[2]->AddEvent_attributes@;
            assert(attributes_view(attributes) == event.attributes);
            assert(attributes[0]@ == event.attributes[0]);
            assert(attributes[1]@ == event.attributes[1]);
        },
    }
}

} // verus!
