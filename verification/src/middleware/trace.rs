//! Tracing of the requests that a server answers: one span for each.
use crate::attribute::{
    attributes_view, has_key, has_text, keys_are_distinct, lacks, number_attribute,
    optional_text_attribute, push_attribute, push_optional_text, tells_text, text_attribute,
    Attribute, AttributeView, Key,
};
use crate::http::{
    is_server_error_code, protocol_version, ServerRequest, ServerRequestView, Status,
};
use crate::outside;
use crate::span::{
    adds_no_event, describes_no_error, ends_last, ends_once, error_status, logs_error,
    logs_error_status, marks_error, never_sets, recorded, sets_keys_once, sets_number, started,
    SpanAction, SpanActionView, SpanActions, SpanKind, SpanRecord, SpanStart, SpanStartView,
};
use crate::PKG_NAME;
use opentelemetry::global::GlobalTracerProvider;
use vstd::prelude::*;

verus! {

/// Wraps services so that each request gets a span of the provider's tracer.
pub struct RequestTraceLayer<P> {
    pub tracer_provider: P,
}

impl RequestTraceLayer<GlobalTracerProvider> {
    /// A layer with the provider that the process has set: what the global `tracer_provider` returns.
    pub fn new() -> (layer: RequestTraceLayer<GlobalTracerProvider>)
        ensures
            call_ensures(opentelemetry::global::tracer_provider, (), layer.tracer_provider),
    {
        Self::new_with_provider(opentelemetry::global::tracer_provider())
    }
}

impl<P> RequestTraceLayer<P> {
    /// A layer with the given provider.
    pub fn new_with_provider(tracer_provider: P) -> (layer: RequestTraceLayer<P>)
        ensures
            layer.tracer_provider == tracer_provider,
    {
        RequestTraceLayer { tracer_provider }
    }
}

impl<P: Clone> RequestTraceLayer<P> {
    /// Wraps a service.
    pub fn layer<S>(&self, inner: S) -> (service: RequestTraceMiddleware<S, P>)
        ensures
            service.inner == inner,
            cloned(self.tracer_provider, service.tracer_provider),
    {
        RequestTraceMiddleware { inner, tracer_provider: self.tracer_provider.clone() }
    }
}

impl<P: Clone> Clone for RequestTraceLayer<P> {
    fn clone(&self) -> (layer: RequestTraceLayer<P>)
        ensures
            cloned(self.tracer_provider, layer.tracer_provider),
    {
        RequestTraceLayer { tracer_provider: self.tracer_provider.clone() }
    }
}

/// A service whose requests each get a span.
pub struct RequestTraceMiddleware<S, P> {
    pub inner: S,
    pub tracer_provider: P,
}

impl<S: Clone, P: Clone> Clone for RequestTraceMiddleware<S, P> {
    fn clone(&self) -> (service: RequestTraceMiddleware<S, P>)
        ensures
            cloned(self.inner, service.inner),
            cloned(self.tracer_provider, service.tracer_provider),
    {
        RequestTraceMiddleware {
            inner: self.inner.clone(),
            tracer_provider: self.tracer_provider.clone(),
        }
    }
}

/// The name of a request's span: the method and, where one matched, the route.
pub open spec fn server_span_name(request: ServerRequestView) -> Seq<char> {
    match request.route {
        Some(route) => request.method + " "@ + route,
        None => request.method,
    }
}

/// The attributes that a request's span is started with.
pub open spec fn server_span_attributes(request: ServerRequestView) -> Seq<AttributeView> {
    seq![
        text_attribute(Key::HttpRequestMethod, request.method),
        text_attribute(Key::UrlScheme, request.scheme_or_http()),
        text_attribute(Key::NetworkProtocolVersion, protocol_version(request.version)),
    ] + optional_text_attribute(Key::HttpRoute, request.route) + seq![
        text_attribute(Key::UrlPath, request.path),
    ] + optional_text_attribute(Key::UrlQuery, request.query)
}

/// What a request's span is started with.
pub open spec fn server_span(request: ServerRequestView) -> SpanStartView {
    SpanStartView {
        scope: PKG_NAME@,
        name: server_span_name(request),
        kind: SpanKind::Server,
        attributes: server_span_attributes(request),
    }
}

/// What is done to a request's span once the service has answered with a status, or has failed.
pub open spec fn server_span_end(code: Option<u16>) -> Seq<SpanActionView> {
    match code {
        Some(code) => {
            let status = SpanActionView::SetAttribute(
                number_attribute(Key::HttpResponseStatusCode, code as i64),
            );
            if is_server_error_code(code) {
                seq![status, error_status(), SpanActionView::End]
            } else {
                seq![status, SpanActionView::End]
            }
        },
        None => seq![error_status(), SpanActionView::End],
    }
}

/// The number of the status that a service has answered with.
pub open spec fn response_code<E>(response: Result<Status, E>) -> Option<u16> {
    match response {
        Ok(status) => Some(status@),
        Err(_) => None,
    }
}

impl<S, P> RequestTraceMiddleware<S, P> {
    /// The span to start when a request comes in.
    pub fn on_request(&self, request: &ServerRequest) -> (start: SpanStart)
        ensures
            start@ == server_span(request@),
    {
        let mut name = request.method.clone();
        match &request.route {
            Some(route) => {
                name.append(" ");
                name.append(route.as_str());
            },
            None => {},
        }
        let mut attributes = Vec::new();
        push_attribute(
            &mut attributes,
            Attribute::text(Key::HttpRequestMethod, request.method.as_str()),
        );
        push_attribute(&mut attributes, Attribute::text(Key::UrlScheme, request.scheme_or_http()));
        let version = outside::version_text(request.version);
        push_attribute(
            &mut attributes,
            Attribute::text(Key::NetworkProtocolVersion, version.as_str()),
        );
        push_optional_text(&mut attributes, Key::HttpRoute, &request.route);
        push_attribute(&mut attributes, Attribute::text(Key::UrlPath, request.path.as_str()));
        push_optional_text(&mut attributes, Key::UrlQuery, &request.query);
        assert(attributes_view(attributes@) =~= server_span_attributes(request@));
        SpanStart { scope: PKG_NAME, name, kind: SpanKind::Server, attributes }
    }

    /// What to do to the span once the service has answered, or has failed.
    pub fn on_response<E>(response: &Result<Status, E>) -> (actions: SpanActions)
        ensures
            actions@ == server_span_end(response_code(*response)),
    {
        let mut actions = SpanActions::new();
        match response {
            Ok(status) => {
                actions.push(
                    SpanAction::SetAttribute(
                        Attribute::number(Key::HttpResponseStatusCode, status.as_u16() as i64),
                    ),
                );
                if status.is_server_error() {
                    actions.push(SpanAction::SetErrorStatus { description: "" });
                }
            },
            Err(_) => {
                actions.push(SpanAction::SetErrorStatus { description: "" });
            },
        }
        actions.push(SpanAction::End);
        assert(actions@ =~= server_span_end(response_code(*response)));
        actions
    }
}

/// The attributes of a request's span once the service has answered, or has failed: those it was
/// started with and, where there is one, the status.
pub open spec fn server_span_final_attributes(
    request: ServerRequestView,
    code: Option<u16>,
) -> Seq<AttributeView> {
    match code {
        Some(code) => server_span_attributes(request).push(
            number_attribute(Key::HttpResponseStatusCode, code as i64),
        ),
        None => server_span_attributes(request),
    }
}

/// Whether a request failed on the side of the server.
pub open spec fn server_failed(code: Option<u16>) -> bool {
    match code {
        Some(code) => is_server_error_code(code),
        None => true,
    }
}

/// Every span of a request is ended, once, and nothing is done to it afterwards.
pub proof fn server_span_is_ended_once(code: Option<u16>)
    ensures
        ends_once(server_span_end(code)),
{
}

/// What the span of a request records in the end: the status of the response behind the attributes
/// of the request, and an error exactly where the service failed or answered with a server error.
pub proof fn server_span_record(request: ServerRequestView, code: Option<u16>)
    ensures
        recorded(started(server_span(request)), server_span_end(code)) == (SpanRecord {
            attributes: server_span_final_attributes(request, code),
            error: if server_failed(code) {
                Some(""@)
            } else {
                None
            },
            events: Seq::empty(),
            ended: true,
        }),
{
    reveal_with_fuel(recorded, 4);
}

/// The name of a request's span is the method, and behind a space the route, where one matched.
pub proof fn server_span_is_named_by_method_and_route<S, P>(
    service: &RequestTraceMiddleware<S, P>,
    request: &ServerRequest,
    start: SpanStart,
)
    requires
        call_ensures(RequestTraceMiddleware::<S, P>::on_request, (service, request), start),
    ensures
        request.method@.is_prefix_of(start.name@),
        request.route is None ==> start.name@.len() == request.method@.len(),
        request.route matches Some(route) ==> {
            &&& start.name@.len() == request.method@.len() + 1 + route@.len()
            &&& start.name@[request.method@.len() as int] == ' '
            &&& route@.is_suffix_of(start.name@)
        },
{
    reveal_strlit(" ");
    match request.route {
        Some(route) => {
            assert(start.name@ == request.method@ + " "@ + route@);
            assert(start.name@.subrange(0, request.method@.len() as int) =~= request.method@);
            assert(start.name@.subrange(
                start.name@.len() - route@.len(),
                start.name@.len() as int,
            ) =~= route@);
        },
        None => {},
    }
}

/// Requests of one method and one route get spans of one name, whatever else they ask for.
pub proof fn server_span_name_forgets_the_resource<S, P, T, Q>(
    services: (&RequestTraceMiddleware<S, P>, &RequestTraceMiddleware<T, Q>),
    a: &ServerRequest,
    b: &ServerRequest,
    starts: (SpanStart, SpanStart),
)
    requires
        call_ensures(RequestTraceMiddleware::<S, P>::on_request, (services.0, a), starts.0),
        call_ensures(RequestTraceMiddleware::<T, Q>::on_request, (services.1, b), starts.1),
        a.method@ == b.method@,
        a.route.deep_view() == b.route.deep_view(),
    ensures
        starts.0.name@ == starts.1.name@,
{
}

/// The span of a request tells of the request, of all of it and of nothing else: each of its parts
/// stands among the attributes under its own key.
pub proof fn server_span_tells_of_the_request<S, P>(
    service: &RequestTraceMiddleware<S, P>,
    request: &ServerRequest,
    start: SpanStart,
)
    requires
        call_ensures(RequestTraceMiddleware::<S, P>::on_request, (service, request), start),
    ensures
        start.kind == SpanKind::Server,
        start.scope@ == "service-common"@,
        has_text(start.attributes@, Key::HttpRequestMethod, request.method@),
        has_text(
            start.attributes@,
            Key::UrlScheme,
            match request.scheme {
                Some(scheme) => scheme@,
                None => "http"@,
            },
        ),
        has_text(start.attributes@, Key::NetworkProtocolVersion, protocol_version(request.version)),
        tells_text(start.attributes@, Key::HttpRoute, request.route),
        has_text(start.attributes@, Key::UrlPath, request.path@),
        tells_text(start.attributes@, Key::UrlQuery, request.query),
        keys_are_distinct(start.attributes@),
        forall|key: Key|
            #[trigger] lacks(start.attributes@, key) || key == Key::HttpRequestMethod || key
                == Key::UrlScheme || key == Key::NetworkProtocolVersion || key == Key::HttpRoute
                || key == Key::UrlPath || key == Key::UrlQuery,
        start.attributes@[0].key == Key::HttpRequestMethod,
        start.attributes@[1].key == Key::UrlScheme,
        start.attributes@[2].key == Key::NetworkProtocolVersion,
        request.route is Some ==> start.attributes@[3].key == Key::HttpRoute,
        request.query is Some ==> start.attributes@.last().key == Key::UrlQuery,
{
    let attributes = start.attributes@;
    let meant = attributes_view(attributes);
    assert(meant == server_span_attributes(request@));
    assert(forall|i: int| 0 <= i < attributes.len() ==> meant[i] == (#[trigger] attributes[i])@);
    assert(attributes[0]@ == meant[0]);
    assert(attributes[1]@ == meant[1]);
    assert(attributes[2]@ == meant[2]);
    assert(attributes[3]@ == meant[3]);
    if request.route is Some {
        assert(attributes[4]@ == meant[4]);
    }
    if request.query is Some {
        assert(attributes[attributes.len() - 1]@ == meant.last());
    }
}

/// The attributes of a request's span name the route exactly where one matched, and the query
/// exactly where the URI has one.
pub proof fn server_span_optional_attributes(request: ServerRequestView)
    ensures
        has_key(server_span_attributes(request), Key::HttpRoute) <==> request.route is Some,
        has_key(server_span_attributes(request), Key::UrlQuery) <==> request.query is Some,
{
    let attributes = server_span_attributes(request);
    if request.route is Some {
        assert(attributes[3].key == Key::HttpRoute);
    }
    if request.query is Some {
        assert(attributes.last().key == Key::UrlQuery);
    }
}

/// What is done to the span of a request tells how the request came out: the span gets the number
/// of the status, where the service answered, and is marked as an error exactly where the service
/// failed or answered with a status whose first digit is five. Then it is ended.
pub proof fn server_span_tells_of_the_response<S, P, E>(
    response: &Result<Status, E>,
    actions: SpanActions,
)
    requires
        call_ensures(RequestTraceMiddleware::<S, P>::on_response::<E>, (response,), actions),
    ensures
        match response {
            Ok(status) => {
                &&& sets_number(
                    actions.actions@,
                    Key::HttpResponseStatusCode,
                    status@ as int,
                )
                &&& marks_error(actions.actions@) <==> status@ as int / 100 == 5
            },
            Err(_) => {
                &&& never_sets(actions.actions@, Key::HttpResponseStatusCode)
                &&& marks_error(actions.actions@)
            },
        },
        sets_keys_once(actions.actions@),
        forall|key: Key| #[trigger]
            never_sets(actions.actions@, key) || key == Key::HttpResponseStatusCode,
        describes_no_error(actions.actions@),
        adds_no_event(actions.actions@),
        !logs_error_status(actions.actions@),
        !logs_error(actions.actions@),
        ends_last(actions.actions@),
{
    reveal_strlit("");
    let list = actions.actions@;
    assert(actions@ == server_span_end(response_code(*response)));
    assert(forall|i: int| 0 <= i < list.len() ==> actions@[i] == (#[trigger] list[i])@);
    assert(list.len() == actions@.len());
    assert(list[0]@ == actions@[0]);
    assert(list[1]@ == actions@[1]);
    if list.len() == 3 {
        assert(list[2]@ == actions@[2]);
    }
}

/// Answers of different statuses leave different numbers on their spans.
pub proof fn server_spans_tell_statuses_apart<S, P, E>(
    a: Status,
    b: Status,
    actions: (SpanActions, SpanActions),
)
    requires
        call_ensures(
            RequestTraceMiddleware::<S, P>::on_response::<E>,
            (&Ok::<Status, E>(a),),
            actions.0,
        ),
        call_ensures(
            RequestTraceMiddleware::<S, P>::on_response::<E>,
            (&Ok::<Status, E>(b),),
            actions.1,
        ),
        actions.0@ == actions.1@,
    ensures
        a@ == b@,
{
    assert(actions.0@[0] == actions.1@[0]);
}

} // verus!
