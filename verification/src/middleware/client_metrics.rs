//! Measurement of the requests that a client sends.
use crate::attribute::{
    attributes_view, has_number, has_text, keys_are_distinct, lacks, push_attribute,
    push_optional_text, text_attribute, Attribute, AttributeView, Key,
};
use crate::http::{
    decimal, is_error_code, status_text, status_text_reads_as_the_code, ClientRequest,
    ClientRequestView,
};
use crate::middleware::client_trace::{
    client_span_attributes, client_span_final_attributes, outcome_attributes, port_attribute,
    push_port, tells_port, ReqwestTracingMiddleware,
};
use crate::outcome::{ClientOutcome, ClientOutcomeView};
use crate::span::SpanStart;
use vstd::prelude::*;

verus! {

/// Measures how long each request that a client sends takes, with a histogram of type `D`.
pub struct ReqwestMetricsMiddleware<D> {
    pub request_duration: D,
}

/// The attributes of a request that was sent.
pub open spec fn client_attributes(request: ClientRequestView) -> Seq<AttributeView> {
    seq![
        text_attribute(Key::HttpRequestMethod, request.method),
        text_attribute(Key::ServerAddress, request.host),
    ] + port_attribute(request.port)
}

/// The attributes under which the duration of a request is recorded.
pub open spec fn client_duration_attributes(
    request: ClientRequestView,
    outcome: ClientOutcomeView,
) -> Seq<AttributeView> {
    client_attributes(request) + outcome_attributes(outcome)
}

/// A request that was sent and that nothing has come back of yet.
pub struct SentRequest {
    attributes: Vec<Attribute>,
}

impl View for SentRequest {
    type V = Seq<AttributeView>;

    /// The attributes of the request.
    closed spec fn view(&self) -> Seq<AttributeView> {
        attributes_view(self.attributes@)
    }
}

impl<D> ReqwestMetricsMiddleware<D> {
    /// A middleware that records durations with the given histogram.
    pub fn with_instrument(request_duration: D) -> (middleware: ReqwestMetricsMiddleware<D>)
        ensures
            middleware.request_duration == request_duration,
    {
        ReqwestMetricsMiddleware { request_duration }
    }

    /// What to keep of a request when it is sent.
    pub fn on_request(&self, request: &ClientRequest) -> (sent: SentRequest)
        ensures
            sent@ == client_attributes(request@),
    {
        let mut attributes = Vec::new();
        push_attribute(
            &mut attributes,
            Attribute::text(Key::HttpRequestMethod, request.method.as_str()),
        );
        push_attribute(&mut attributes, Attribute::text(Key::ServerAddress, request.host.as_str()));
        push_port(&mut attributes, request.port);
        assert(attributes_view(attributes@) =~= client_attributes(request@));
        SentRequest { attributes }
    }
}

impl SentRequest {
    /// The attributes under which to record the duration, once a response or an error has come
    /// back.
    pub fn on_response(self, outcome: &ClientOutcome) -> (attributes: Vec<Attribute>)
        ensures
            attributes_view(attributes@) == self@ + outcome_attributes(outcome@),
    {
        let mut attributes = self.attributes;
        match outcome {
            ClientOutcome::Response(status) => {
                push_attribute(
                    &mut attributes,
                    Attribute::number(Key::HttpResponseStatusCode, status.as_u16() as i64),
                );
            },
            ClientOutcome::Failure(_) => {},
        }
        let kind = outcome.error_type();
        push_optional_text(&mut attributes, Key::ErrorType, &kind);
        assert(attributes_view(attributes@) =~= self@ + outcome_attributes(outcome@));
        attributes
    }
}

/// A duration is recorded under the attributes of the request's span, without the URL: what a
/// metric tells apart is bounded by the servers, not by their resources.
pub proof fn client_metric_omits_only_the_url(request: ClientRequestView, outcome: ClientOutcomeView)
    ensures
        client_span_final_attributes(request, outcome)[2].key == Key::UrlFull,
        client_duration_attributes(request, outcome) == client_span_final_attributes(
            request,
            outcome,
        ).remove(2),
{
    assert(client_duration_attributes(request, outcome) =~= client_span_final_attributes(
        request,
        outcome,
    ).remove(2));
}

/// The duration of a request is recorded under the request's method, host and port and under how it
/// came out, and under nothing else: the number of the status, where a response came back, and the
/// kind of error, where the first digit of the status is four or five, or no response came back.
/// That kind reads as the number of the status, or is the message of the error.
pub proof fn client_metric_tells_of_request_and_outcome<D>(
    middleware: &ReqwestMetricsMiddleware<D>,
    request: &ClientRequest,
    sent: SentRequest,
    outcome: &ClientOutcome,
    attributes: Vec<Attribute>,
)
    requires
        call_ensures(ReqwestMetricsMiddleware::<D>::on_request, (middleware, request), sent),
        call_ensures(SentRequest::on_response, (sent, outcome), attributes),
    ensures
        has_text(attributes@, Key::HttpRequestMethod, request.method@),
        has_text(attributes@, Key::ServerAddress, request.host@),
        tells_port(attributes@, request.port),
        match *outcome {
            ClientOutcome::Response(status) => {
                let is_error = status@ as int / 100 == 4 || status@ as int / 100 == 5;
                &&& has_number(attributes@, Key::HttpResponseStatusCode, status@ as int)
                &&& !is_error ==> lacks(attributes@, Key::ErrorType)
                &&& is_error ==> exists|kind: Seq<char>| #[trigger]
                    has_text(attributes@, Key::ErrorType, kind) && kind.len() == 3 && decimal(kind)
                        == status@
            },
            ClientOutcome::Failure(report) => {
                &&& lacks(attributes@, Key::HttpResponseStatusCode)
                &&& has_text(attributes@, Key::ErrorType, report.message@)
            },
        },
        keys_are_distinct(attributes@),
        forall|key: Key|
            #[trigger] lacks(attributes@, key) || key == Key::HttpRequestMethod || key
                == Key::ServerAddress || key == Key::ServerPort || key
                == Key::HttpResponseStatusCode || key == Key::ErrorType,
        attributes@[0].key == Key::HttpRequestMethod,
        attributes@[1].key == Key::ServerAddress,
        request.port is Some ==> attributes@[2].key == Key::ServerPort,
        !lacks(attributes@, Key::ErrorType) ==> attributes@.last().key == Key::ErrorType,
{
    let list = attributes@;
    let meant = attributes_view(list);
    assert(meant == client_duration_attributes(request@, outcome@));
    assert(forall|i: int| 0 <= i < list.len() ==> meant[i] == (#[trigger] list[i])@);
    assert(list.len() == meant.len());
    assert(list[0]@ == meant[0]);
    assert(list[1]@ == meant[1]);
    assert(list[2]@ == meant[2]);
    if list.len() > 3 {
        assert(list[3]@ == meant[3]);
    }
    if list.len() > 4 {
        assert(list[4]@ == meant[4]);
    }
    match *outcome {
        ClientOutcome::Response(status) => {
            status_text_reads_as_the_code(status@);
            if is_error_code(status@) {
                assert(has_text(list, Key::ErrorType, status_text(status@)));
            }
        },
        ClientOutcome::Failure(_) => {},
    }
}

/// Requests to one server by one method that come out alike are recorded together, whatever their
/// URLs.
pub proof fn client_metric_forgets_the_url<D>(
    middleware: &ReqwestMetricsMiddleware<D>,
    a: &ClientRequest,
    b: &ClientRequest,
    sent: (SentRequest, SentRequest),
    outcome: &ClientOutcome,
    recorded: (Vec<Attribute>, Vec<Attribute>),
)
    requires
        call_ensures(ReqwestMetricsMiddleware::<D>::on_request, (middleware, a), sent.0),
        call_ensures(ReqwestMetricsMiddleware::<D>::on_request, (middleware, b), sent.1),
        call_ensures(SentRequest::on_response, (sent.0, outcome), recorded.0),
        call_ensures(SentRequest::on_response, (sent.1, outcome), recorded.1),
        a.method@ == b.method@,
        a.host@ == b.host@,
        a.port == b.port,
    ensures
        attributes_view(recorded.0@) == attributes_view(recorded.1@),
{
}

/// A request is recorded under what its span is started with, but for the URL, and then under how
/// it came out.
pub proof fn client_metric_follows_the_span<D>(
    middleware: &ReqwestMetricsMiddleware<D>,
    tracing: &ReqwestTracingMiddleware,
    name: String,
    request: &ClientRequest,
    start: SpanStart,
    sent: SentRequest,
    outcome: &ClientOutcome,
    attributes: Vec<Attribute>,
)
    requires
        call_ensures(ReqwestTracingMiddleware::start_span, (tracing, name, request), start),
        call_ensures(ReqwestMetricsMiddleware::<D>::on_request, (middleware, request), sent),
        call_ensures(SentRequest::on_response, (sent, outcome), attributes),
    ensures
        start.attributes@[2].key == Key::UrlFull,
        attributes_view(start.attributes@).remove(2).is_prefix_of(attributes_view(attributes@)),
{
    let span = attributes_view(start.attributes@);
    assert(span == client_span_attributes(request@));
    assert(span.len() == start.attributes@.len());
    assert(span[2] == start.attributes@[2]@);
    let shared = span.remove(2);
    assert(shared =~= client_attributes(request@));
    assert(attributes_view(attributes@).subrange(0, shared.len() as int) =~= shared);
}

} // verus!
