//! Measurement of the requests that a server answers.
use crate::attribute::{
    attributes_view, has_number, has_text, keys_are_distinct, lacks, number_attribute,
    push_attribute, tells_text, text_attribute, Attribute, AttributeView, Key, ValueView,
};
use crate::http::{
    protocol_version, HttpVersion, ServerRequest, ServerRequestView, Status,
};
use crate::middleware::trace::{
    response_code, server_span_final_attributes, RequestTraceMiddleware,
};
use crate::outside;
use crate::span::SpanStart;
use vstd::prelude::*;

verus! {

/// Wraps services so that their requests are measured, with a histogram of type `D` for how long
/// they take and a counter of type `A` for how many are being answered.
pub struct RequestMetricsLayer<D, A> {
    pub request_duration: D,
    pub active_requests: A,
}

impl<D, A> RequestMetricsLayer<D, A> {
    /// A layer that measures with the given instruments.
    pub fn with_instruments(request_duration: D, active_requests: A) -> (layer: RequestMetricsLayer<
        D,
        A,
    >)
        ensures
            layer.request_duration == request_duration,
            layer.active_requests == active_requests,
    {
        RequestMetricsLayer { request_duration, active_requests }
    }
}

impl<D: Clone, A: Clone> RequestMetricsLayer<D, A> {
    /// Wraps a service.
    pub fn layer<S>(&self, inner: S) -> (service: RequestMetricsMiddleware<S, D, A>)
        ensures
            service.inner == inner,
            cloned(self.request_duration, service.request_duration),
            cloned(self.active_requests, service.active_requests),
    {
        RequestMetricsMiddleware {
            inner,
            request_duration: self.request_duration.clone(),
            active_requests: self.active_requests.clone(),
        }
    }
}

impl<D: Clone, A: Clone> Clone for RequestMetricsLayer<D, A> {
    fn clone(&self) -> (layer: RequestMetricsLayer<D, A>)
        ensures
            cloned(self.request_duration, layer.request_duration),
            cloned(self.active_requests, layer.active_requests),
    {
        RequestMetricsLayer {
            request_duration: self.request_duration.clone(),
            active_requests: self.active_requests.clone(),
        }
    }
}

/// A service whose requests are measured.
pub struct RequestMetricsMiddleware<S, D, A> {
    pub inner: S,
    pub request_duration: D,
    pub active_requests: A,
}

impl<S: Clone, D: Clone, A: Clone> Clone for RequestMetricsMiddleware<S, D, A> {
    fn clone(&self) -> (service: RequestMetricsMiddleware<S, D, A>)
        ensures
            cloned(self.inner, service.inner),
            cloned(self.request_duration, service.request_duration),
            cloned(self.active_requests, service.active_requests),
    {
        RequestMetricsMiddleware {
            inner: self.inner.clone(),
            request_duration: self.request_duration.clone(),
            active_requests: self.active_requests.clone(),
        }
    }
}

/// Something to do to the instruments.
#[derive(Debug, PartialEq, Eq)]
pub enum MetricAction {
    /// Record the time since the request came in.
    RecordDuration { attributes: Vec<Attribute> },
    /// Change the number of requests that are being answered.
    AddActiveRequests { delta: i64, attributes: Vec<Attribute> },
}

/// What a [`MetricAction`] means.
pub enum MetricActionView {
    RecordDuration { attributes: Seq<AttributeView> },
    AddActiveRequests { delta: int, attributes: Seq<AttributeView> },
}

impl View for MetricAction {
    type V = MetricActionView;

    open spec fn view(&self) -> MetricActionView {
        match self {
            MetricAction::RecordDuration { attributes } => MetricActionView::RecordDuration {
                attributes: attributes_view(attributes@),
            },
            MetricAction::AddActiveRequests { delta, attributes } => {
                MetricActionView::AddActiveRequests {
                    delta: *delta as int,
                    attributes: attributes_view(attributes@),
                }
            },
        }
    }
}

/// What a list of actions means, in its order.
pub open spec fn metric_actions_view(actions: Seq<MetricAction>) -> Seq<MetricActionView> {
    actions.map_values(|action: MetricAction| action@)
}

/// Collects the attributes of a request.
#[derive(Debug)]
pub struct AttributeBuilder {
    method: Option<Attribute>,
    scheme: Option<Attribute>,
    version: Option<Attribute>,
    route: Option<Attribute>,
    status: Option<Attribute>,
}

/// The attributes that an [`AttributeBuilder`] has collected.
pub struct AttributeBuilderView {
    pub method: Option<AttributeView>,
    pub scheme: Option<AttributeView>,
    pub version: Option<AttributeView>,
    pub route: Option<AttributeView>,
    pub status: Option<AttributeView>,
}

spec fn optional_view(attribute: Option<Attribute>) -> Option<AttributeView> {
    match attribute {
        Some(attribute) => Some(attribute@),
        None => None,
    }
}

impl View for AttributeBuilder {
    type V = AttributeBuilderView;

    closed spec fn view(&self) -> AttributeBuilderView {
        AttributeBuilderView {
            method: optional_view(self.method),
            scheme: optional_view(self.scheme),
            version: optional_view(self.version),
            route: optional_view(self.route),
            status: optional_view(self.status),
        }
    }
}

/// No attribute, or the one that is there.
pub open spec fn present(attribute: Option<AttributeView>) -> Seq<AttributeView> {
    match attribute {
        Some(attribute) => seq![attribute],
        None => Seq::empty(),
    }
}

impl AttributeBuilderView {
    /// Nothing collected.
    pub open spec fn empty() -> AttributeBuilderView {
        AttributeBuilderView { method: None, scheme: None, version: None, route: None, status: None }
    }

    pub open spec fn with_method(self, method: Seq<char>) -> AttributeBuilderView {
        AttributeBuilderView {
            method: Some(text_attribute(Key::HttpRequestMethod, method)),
            ..self
        }
    }

    pub open spec fn with_scheme(self, scheme: Seq<char>) -> AttributeBuilderView {
        AttributeBuilderView { scheme: Some(text_attribute(Key::UrlScheme, scheme)), ..self }
    }

    pub open spec fn with_version(self, version: HttpVersion) -> AttributeBuilderView {
        AttributeBuilderView {
            version: Some(text_attribute(Key::NetworkProtocolVersion, protocol_version(version))),
            ..self
        }
    }

    /// Where there is no route, nothing changes.
    pub open spec fn with_route(self, route: Option<Seq<char>>) -> AttributeBuilderView {
        match route {
            Some(route) => AttributeBuilderView {
                route: Some(text_attribute(Key::HttpRoute, route)),
                ..self
            },
            None => self,
        }
    }

    pub open spec fn with_status(self, code: u16) -> AttributeBuilderView {
        AttributeBuilderView {
            status: Some(number_attribute(Key::HttpResponseStatusCode, code as i64)),
            ..self
        }
    }

    /// The attributes that were collected, always in this order.
    pub open spec fn build(self) -> Seq<AttributeView> {
        present(self.method) + present(self.scheme) + present(self.version) + present(self.route)
            + present(self.status)
    }
}

/// Appends the attribute, where there is one.
fn push_present(attributes: &mut Vec<Attribute>, attribute: Option<Attribute>)
    ensures
        attributes_view(final(attributes)@) == attributes_view(old(attributes)@) + present(
            optional_view(attribute),
        ),
{
    match attribute {
        Some(attribute) => push_attribute(attributes, attribute),
        None => {},
    }
    assert(attributes_view(attributes@) =~= attributes_view(old(attributes)@) + present(
        optional_view(attribute),
    ));
}

impl AttributeBuilder {
    /// A builder that has collected nothing.
    pub fn builder() -> (builder: AttributeBuilder)
        ensures
            builder@ == AttributeBuilderView::empty(),
    {
        AttributeBuilder { method: None, scheme: None, version: None, route: None, status: None }
    }

    /// Sets the method of the request.
    pub fn with_method(self, method: &str) -> (builder: AttributeBuilder)
        ensures
            builder@ == self@.with_method(method@),
    {
        AttributeBuilder { method: Some(Attribute::text(Key::HttpRequestMethod, method)), ..self }
    }

    /// Sets the scheme of the request.
    pub fn with_scheme(self, scheme: &str) -> (builder: AttributeBuilder)
        ensures
            builder@ == self@.with_scheme(scheme@),
    {
        AttributeBuilder { scheme: Some(Attribute::text(Key::UrlScheme, scheme)), ..self }
    }

    /// Sets the version of the request.
    pub fn with_version(self, version: HttpVersion) -> (builder: AttributeBuilder)
        ensures
            builder@ == self@.with_version(version),
    {
        let version = outside::version_text(version);
        AttributeBuilder {
            version: Some(Attribute::text(Key::NetworkProtocolVersion, version.as_str())),
            ..self
        }
    }

    /// Sets the route that matched, where one did.
    pub fn with_route(self, route: &Option<String>) -> (builder: AttributeBuilder)
        ensures
            builder@ == self@.with_route(route.deep_view()),
    {
        match route {
            Some(route) => AttributeBuilder {
                route: Some(Attribute::text(Key::HttpRoute, route.as_str())),
                ..self
            },
            None => self,
        }
    }

    /// Sets the status of the response.
    pub fn with_status(self, status: Status) -> (builder: AttributeBuilder)
        ensures
            builder@ == self@.with_status(status@),
    {
        AttributeBuilder {
            status: Some(Attribute::number(Key::HttpResponseStatusCode, status.as_u16() as i64)),
            ..self
        }
    }

    /// The attributes that were set: method, scheme, version, route, status.
    pub fn build(self) -> (attributes: Vec<Attribute>)
        ensures
            attributes_view(attributes@) == self@.build(),
    {
        let mut attributes = Vec::new();
        push_present(&mut attributes, self.method);
        push_present(&mut attributes, self.scheme);
        push_present(&mut attributes, self.version);
        push_present(&mut attributes, self.route);
        push_present(&mut attributes, self.status);
        assert(attributes_view(attributes@) =~= self@.build());
        attributes
    }
}

/// The attributes under which a request is counted while it is being answered.
pub open spec fn active_attributes(request: ServerRequestView) -> Seq<AttributeView> {
    AttributeBuilderView::empty().with_method(request.method).with_scheme(
        request.scheme_or_http(),
    ).build()
}

/// What is collected of a request when it comes in.
pub open spec fn duration_attributes(request: ServerRequestView) -> AttributeBuilderView {
    AttributeBuilderView::empty().with_method(request.method).with_scheme(
        request.scheme_or_http(),
    ).with_version(request.version).with_route(request.route)
}

/// A request that is being answered.
#[derive(Debug)]
pub struct ActiveRequest {
    active_attributes: Vec<Attribute>,
    duration_attributes: AttributeBuilder,
}

/// What is kept of a request that is being answered.
pub struct ActiveRequestView {
    pub active_attributes: Seq<AttributeView>,
    pub duration_attributes: AttributeBuilderView,
}

impl View for ActiveRequest {
    type V = ActiveRequestView;

    closed spec fn view(&self) -> ActiveRequestView {
        ActiveRequestView {
            active_attributes: attributes_view(self.active_attributes@),
            duration_attributes: self.duration_attributes@,
        }
    }
}

/// What is kept of the request while it is being answered.
pub open spec fn active_request(request: ServerRequestView) -> ActiveRequestView {
    ActiveRequestView {
        active_attributes: active_attributes(request),
        duration_attributes: duration_attributes(request),
    }
}

/// What is done to the instruments when a request comes in: it is counted.
pub open spec fn metrics_begin(request: ServerRequestView) -> MetricActionView {
    MetricActionView::AddActiveRequests { delta: 1, attributes: active_attributes(request) }
}

/// What is done to the instruments once the service has answered with a status, or has failed. A
/// request that failed is not measured, and it is not taken off the count.
pub open spec fn metrics_end(active: ActiveRequestView, code: Option<u16>) -> Seq<
    MetricActionView,
> {
    match code {
        Some(code) => seq![
            MetricActionView::RecordDuration {
                attributes: active.duration_attributes.with_status(code).build(),
            },
            MetricActionView::AddActiveRequests {
                delta: -1,
                attributes: active.active_attributes,
            },
        ],
        None => Seq::empty(),
    }
}

/// The attributes under which a request is counted while it is being answered.
fn active_request_attributes(request: &ServerRequest) -> (attributes: Vec<Attribute>)
    ensures
        attributes_view(attributes@) == active_attributes(request@),
{
    AttributeBuilder::builder().with_method(request.method.as_str()).with_scheme(
        request.scheme_or_http(),
    ).build()
}

impl<S, D, A> RequestMetricsMiddleware<S, D, A> {
    /// What to keep of a request when it comes in, and what to do to the instruments.
    pub fn on_request(&self, request: &ServerRequest) -> (begun: (ActiveRequest, MetricAction))
        ensures
            begun.0@ == active_request(request@),
            begun.1@ == metrics_begin(request@),
    {
        let action = MetricAction::AddActiveRequests {
            delta: 1,
            attributes: active_request_attributes(request),
        };
        let duration_attributes = AttributeBuilder::builder().with_method(
            request.method.as_str(),
        ).with_scheme(request.scheme_or_http()).with_version(request.version).with_route(
            &request.route,
        );
        let active = ActiveRequest {
            active_attributes: active_request_attributes(request),
            duration_attributes,
        };
        (active, action)
    }
}

impl ActiveRequest {
    /// What to do to the instruments once the service has answered, or has failed.
    pub fn on_response<E>(self, response: &Result<Status, E>) -> (actions: Vec<MetricAction>)
        ensures
            metric_actions_view(actions@) == metrics_end(self@, response_code(*response)),
    {
        let mut actions = Vec::new();
        match response {
            Ok(status) => {
                actions.push(
                    MetricAction::RecordDuration {
                        attributes: self.duration_attributes.with_status(*status).build(),
                    },
                );
                actions.push(
                    MetricAction::AddActiveRequests {
                        delta: -1,
                        attributes: self.active_attributes,
                    },
                );
            },
            Err(_) => {},
        }
        assert(metric_actions_view(actions@) =~= metrics_end(self@, response_code(*response)));
        actions
    }
}

/// By how much an action changes the number of requests that are counted under the attributes.
pub open spec fn active_delta(action: MetricActionView, attributes: Seq<AttributeView>) -> int {
    match action {
        MetricActionView::AddActiveRequests { delta, attributes: counted } => if counted
            == attributes {
            delta
        } else {
            0
        },
        MetricActionView::RecordDuration { .. } => 0,
    }
}

/// By how much the actions together change the number of requests that are counted under the
/// attributes.
pub open spec fn active_total(
    actions: Seq<MetricActionView>,
    attributes: Seq<AttributeView>,
) -> int
    decreases actions.len(),
{
    if actions.len() == 0 {
        0
    } else {
        active_delta(actions[0], attributes) + active_total(actions.drop_first(), attributes)
    }
}

/// All that is done to the instruments for one request.
pub open spec fn request_actions(request: ServerRequestView, code: Option<u16>) -> Seq<
    MetricActionView,
> {
    seq![metrics_begin(request)] + metrics_end(active_request(request), code)
}

/// A request that was answered leaves the count of active requests as it was, under all
/// attributes. One whose service failed stays counted under its own.
pub proof fn active_requests_balance(
    request: ServerRequestView,
    code: Option<u16>,
    attributes: Seq<AttributeView>,
)
    ensures
        code is Some ==> active_total(request_actions(request, code), attributes) == 0,
        code is None ==> active_total(request_actions(request, code), attributes) == (
        if attributes == active_attributes(request) {
            1int
        } else {
            0int
        }),
{
    reveal_with_fuel(active_total, 4);
}

/// The changes that two lists of actions make add up.
pub proof fn active_total_in_parts(
    a: Seq<MetricActionView>,
    b: Seq<MetricActionView>,
    attributes: Seq<AttributeView>,
)
    ensures
        active_total(a + b, attributes) == active_total(a, attributes) + active_total(b, attributes),
    decreases a.len(),
{
    if a.len() == 0 {
        assert(a + b =~= b);
    } else {
        assert((a + b).drop_first() =~= a.drop_first() + b);
        active_total_in_parts(a.drop_first(), b, attributes);
    }
}

/// A request came in, or its service has answered it with a status or has failed.
pub enum ServerEvent {
    Begun(ServerRequestView),
    Ended(ServerRequestView, Option<u16>),
}

/// All that is done to the instruments while the events happen, in their order.
pub open spec fn history_actions(events: Seq<ServerEvent>) -> Seq<MetricActionView>
    decreases events.len(),
{
    if events.len() == 0 {
        Seq::empty()
    } else {
        (match events[0] {
            ServerEvent::Begun(request) => seq![metrics_begin(request)],
            ServerEvent::Ended(request, code) => metrics_end(active_request(request), code),
        }) + history_actions(events.drop_first())
    }
}

/// How many of the events are requests with the attributes that came in, less those that were
/// answered.
pub open spec fn unanswered(events: Seq<ServerEvent>, attributes: Seq<AttributeView>) -> int
    decreases events.len(),
{
    if events.len() == 0 {
        0
    } else {
        (match events[0] {
            ServerEvent::Begun(request) => if active_attributes(request) == attributes {
                1int
            } else {
                0int
            },
            ServerEvent::Ended(request, Some(_)) => if active_attributes(request) == attributes {
                -1int
            } else {
                0int
            },
            ServerEvent::Ended(_, None) => 0int,
        }) + unanswered(events.drop_first(), attributes)
    }
}

/// However requests overlap, the count of active requests under some attributes is at all times
/// the number of those that came in and were not answered.
pub proof fn active_requests_count_the_unanswered(
    events: Seq<ServerEvent>,
    attributes: Seq<AttributeView>,
)
    ensures
        active_total(history_actions(events), attributes) == unanswered(events, attributes),
    decreases events.len(),
{
    if events.len() > 0 {
        let rest = events.drop_first();
        active_requests_count_the_unanswered(rest, attributes);
        match events[0] {
            ServerEvent::Begun(request) => {
                let first = seq![metrics_begin(request)];
                active_total_in_parts(first, history_actions(rest), attributes);
                reveal_with_fuel(active_total, 2);
            },
            ServerEvent::Ended(request, code) => {
                let first = metrics_end(active_request(request), code);
                active_total_in_parts(first, history_actions(rest), attributes);
                reveal_with_fuel(active_total, 3);
            },
        }
    }
}

/// The duration of a request that was answered is recorded once, and that of one whose service
/// failed is not recorded.
pub proof fn duration_is_recorded_once(request: ServerRequestView, code: Option<u16>, i: int)
    requires
        0 <= i < request_actions(request, code).len(),
    ensures
        request_actions(request, code)[i] is RecordDuration <==> code is Some && i == 1,
        code is Some ==> request_actions(request, code).len() > 1,
{
}

/// The attributes of a duration are those of the request's span, without the path and the query:
/// what a metric tells apart is bounded by the routes, not by the resources.
pub proof fn server_metric_omits_path_and_query(request: ServerRequestView, code: u16)
    ensures
        active_request(request).duration_attributes.with_status(code).build()
            == server_span_final_attributes(request, Some(code)).filter(
            |attribute: AttributeView|
                attribute.key != Key::UrlPath && attribute.key != Key::UrlQuery,
        ),
{
    let keep = |attribute: AttributeView|
        attribute.key != Key::UrlPath && attribute.key != Key::UrlQuery;
    let all = server_span_final_attributes(request, Some(code));
    reveal_with_fuel(Seq::filter, 8);
    assert(active_request(request).duration_attributes.with_status(code).build() =~= all.filter(
        keep,
    ));
}

/// The order in which a builder is told of the parts of a request makes no difference.
pub proof fn builder_calls_commute(
    builder: AttributeBuilderView,
    method: Seq<char>,
    scheme: Seq<char>,
    version: HttpVersion,
    route: Option<Seq<char>>,
    code: u16,
)
    ensures
        builder.with_method(method).with_scheme(scheme) == builder.with_scheme(scheme).with_method(
            method,
        ),
        builder.with_method(method).with_version(version) == builder.with_version(
            version,
        ).with_method(method),
        builder.with_method(method).with_route(route) == builder.with_route(route).with_method(
            method,
        ),
        builder.with_method(method).with_status(code) == builder.with_status(code).with_method(
            method,
        ),
        builder.with_scheme(scheme).with_version(version) == builder.with_version(
            version,
        ).with_scheme(scheme),
        builder.with_scheme(scheme).with_route(route) == builder.with_route(route).with_scheme(
            scheme,
        ),
        builder.with_scheme(scheme).with_status(code) == builder.with_status(code).with_scheme(
            scheme,
        ),
        builder.with_version(version).with_route(route) == builder.with_route(route).with_version(
            version,
        ),
        builder.with_version(version).with_status(code) == builder.with_status(code).with_version(
            version,
        ),
        builder.with_route(route).with_status(code) == builder.with_status(code).with_route(route),
{
}

/// Telling a builder of a part of a request again replaces the part; telling it that there is no
/// route does not take a route away.
pub proof fn builder_keeps_the_last(
    builder: AttributeBuilderView,
    texts: (Seq<char>, Seq<char>),
    versions: (HttpVersion, HttpVersion),
    codes: (u16, u16),
)
    ensures
        builder.with_method(texts.0).with_method(texts.1) == builder.with_method(texts.1),
        builder.with_scheme(texts.0).with_scheme(texts.1) == builder.with_scheme(texts.1),
        builder.with_version(versions.0).with_version(versions.1) == builder.with_version(
            versions.1,
        ),
        builder.with_route(Some(texts.0)).with_route(Some(texts.1)) == builder.with_route(
            Some(texts.1),
        ),
        builder.with_route(None) == builder,
        builder.with_status(codes.0).with_status(codes.1) == builder.with_status(codes.1),
{
}

/// An action means itself, with all that it holds.
pub proof fn metric_action_means_itself(action: MetricAction)
    ensures
        match action {
            MetricAction::RecordDuration { attributes } => action@
                matches MetricActionView::RecordDuration { attributes: meant } && meant
                == attributes_view(attributes@),
            MetricAction::AddActiveRequests { delta, attributes } => action@
                matches MetricActionView::AddActiveRequests { delta: change, attributes: meant }
                && change == delta && meant == attributes_view(attributes@),
        },
{
}

/// Each part that a builder is told of is what it then has of that part, and the other parts stay.
pub proof fn builder_keeps_what_it_is_told(
    builder: AttributeBuilderView,
    text: Seq<char>,
    version: HttpVersion,
    code: u16,
)
    ensures
        builder.with_method(text) == (AttributeBuilderView {
            method: Some(
                AttributeView { key: Key::HttpRequestMethod, value: ValueView::Str(text) },
            ),
            ..builder
        }),
        builder.with_scheme(text) == (AttributeBuilderView {
            scheme: Some(AttributeView { key: Key::UrlScheme, value: ValueView::Str(text) }),
            ..builder
        }),
        builder.with_version(version) == (AttributeBuilderView {
            version: Some(
                AttributeView {
                    key: Key::NetworkProtocolVersion,
                    value: ValueView::Str(protocol_version(version)),
                },
            ),
            ..builder
        }),
        builder.with_route(Some(text)) == (AttributeBuilderView {
            route: Some(AttributeView { key: Key::HttpRoute, value: ValueView::Str(text) }),
            ..builder
        }),
        builder.with_status(code) == (AttributeBuilderView {
            status: Some(
                AttributeView {
                    key: Key::HttpResponseStatusCode,
                    value: ValueView::I64(code as i64),
                },
            ),
            ..builder
        }),
{
}

/// A builder gives out what it has: nothing at first, and the part that it is told of behind all
/// parts that come before it.
pub proof fn builder_gives_out_what_it_has(
    builder: AttributeBuilderView,
    text: Seq<char>,
    version: HttpVersion,
    code: u16,
)
    ensures
        AttributeBuilderView::empty().build().len() == 0,
        builder.status is None ==> builder.with_status(code).build() == builder.build().push(
            builder.with_status(code).status->0,
        ),
        builder.status is None && builder.route is None ==> builder.with_route(Some(text)).build()
            == builder.build().push(builder.with_route(Some(text)).route->0),
        builder.status is None && builder.route is None && builder.version is None
            ==> builder.with_version(version).build() == builder.build().push(
            builder.with_version(version).version->0,
        ),
        builder.status is None && builder.route is None && builder.version is None
            && builder.scheme is None ==> builder.with_scheme(text).build()
            == builder.build().push(builder.with_scheme(text).scheme->0),
        builder.status is None && builder.route is None && builder.version is None
            && builder.scheme is None && builder.method is None ==> builder.with_method(
            text,
        ).build() == builder.build().push(builder.with_method(text).method->0),
{
    assert(AttributeBuilderView::empty().build() =~= Seq::empty());
    assert(builder.status is None ==> builder.with_status(code).build() =~= builder.build().push(
        builder.with_status(code).status->0,
    ));
    assert(builder.status is None && builder.route is None ==> builder.with_route(
        Some(text),
    ).build() =~= builder.build().push(builder.with_route(Some(text)).route->0));
    assert(builder.status is None && builder.route is None && builder.version is None
        ==> builder.with_version(version).build() =~= builder.build().push(
        builder.with_version(version).version->0,
    ));
    assert(builder.status is None && builder.route is None && builder.version is None
        && builder.scheme is None ==> builder.with_scheme(text).build() =~= builder.build().push(
        builder.with_scheme(text).scheme->0,
    ));
    assert(builder.status is None && builder.route is None && builder.version is None
        && builder.scheme is None && builder.method is None ==> builder.with_method(text).build()
        =~= builder.build().push(builder.with_method(text).method->0));
}

/// The text of a request's scheme.
pub open spec fn scheme_text(request: ServerRequest) -> Seq<char> {
    match request.scheme {
        Some(scheme) => scheme@,
        None => "http"@,
    }
}

/// A request is counted up by one when it comes in, under its method and its scheme and nothing
/// else.
pub proof fn request_is_counted_in<S, D, A>(
    service: &RequestMetricsMiddleware<S, D, A>,
    request: &ServerRequest,
    begun: (ActiveRequest, MetricAction),
)
    requires
        call_ensures(RequestMetricsMiddleware::<S, D, A>::on_request, (service, request), begun),
    ensures
        begun.1 matches MetricAction::AddActiveRequests { delta, attributes } && delta == 1
            && has_text(attributes@, Key::HttpRequestMethod, request.method@) && has_text(
            attributes@,
            Key::UrlScheme,
            scheme_text(*request),
        ) && attributes@.len() == 2 && attributes@[0].key == Key::HttpRequestMethod,
{
    let list = begun.1->AddActiveRequests_attributes@;
    let meant = attributes_view(list);
    assert(begun.1@ == metrics_begin(request@));
    assert(meant == active_attributes(request@));
    assert(list[0]@ == meant[0]);
    assert(list[1]@ == meant[1]);
}

/// A request that was answered is counted down by one, under that which it was counted up under.
/// One whose service failed is neither counted down nor measured.
pub proof fn request_is_counted_out<S, D, A, E>(
    service: &RequestMetricsMiddleware<S, D, A>,
    request: &ServerRequest,
    begun: (ActiveRequest, MetricAction),
    response: &Result<Status, E>,
    actions: Vec<MetricAction>,
)
    requires
        call_ensures(RequestMetricsMiddleware::<S, D, A>::on_request, (service, request), begun),
        call_ensures(ActiveRequest::on_response::<E>, (begun.0, response), actions),
    ensures
        response is Err ==> actions@.len() == 0,
        response is Ok ==> {
            &&& actions@.len() == 2
            &&& actions@[0] is RecordDuration
            &&& actions@[1] matches MetricAction::AddActiveRequests { delta, attributes } && delta
                == -1 && (begun.1 matches MetricAction::AddActiveRequests {
                delta: _,
                attributes: counted,
            } && attributes_view(attributes@) == attributes_view(counted@))
        },
{
    assert(metric_actions_view(actions@) == metrics_end(begun.0@, response_code(*response)));
    assert(metric_actions_view(actions@).len() == actions@.len());
    assert(begun.1@ == metrics_begin(request@));
    if response is Ok {
        assert(metric_actions_view(actions@)[0] == actions@[0]@);
        assert(metric_actions_view(actions@)[1] == actions@[1]@);
    }
}

/// The duration of a request that was answered is recorded under the request's method, scheme,
/// version and route, where one matched, under the number of the status that the service answered
/// with, and under nothing else.
pub proof fn duration_tells_of_request_and_status<S, D, A, E>(
    service: &RequestMetricsMiddleware<S, D, A>,
    request: &ServerRequest,
    begun: (ActiveRequest, MetricAction),
    status: Status,
    actions: Vec<MetricAction>,
)
    requires
        call_ensures(RequestMetricsMiddleware::<S, D, A>::on_request, (service, request), begun),
        call_ensures(
            ActiveRequest::on_response::<E>,
            (begun.0, &Ok::<Status, E>(status)),
            actions,
        ),
    ensures
        actions@[0] matches MetricAction::RecordDuration { attributes } && {
            &&& has_number(attributes@, Key::HttpResponseStatusCode, status@ as int)
            &&& has_text(attributes@, Key::HttpRequestMethod, request.method@)
            &&& has_text(attributes@, Key::UrlScheme, scheme_text(*request))
            &&& has_text(attributes@, Key::NetworkProtocolVersion, protocol_version(request.version))
            &&& tells_text(attributes@, Key::HttpRoute, request.route)
            &&& keys_are_distinct(attributes@)
            &&& forall|key: Key|
                #[trigger] lacks(attributes@, key) || key == Key::HttpRequestMethod || key
                    == Key::UrlScheme || key == Key::NetworkProtocolVersion || key
                    == Key::HttpRoute || key == Key::HttpResponseStatusCode
            &&& attributes@[0].key == Key::HttpRequestMethod
            &&& attributes@[1].key == Key::UrlScheme
            &&& attributes@[2].key == Key::NetworkProtocolVersion
            &&& attributes@.last().key == Key::HttpResponseStatusCode
        },
{
    let ended = metrics_end(begun.0@, Some(status@));
    assert(metric_actions_view(actions@) == ended);
    assert(ended.len() == 2);
    assert(metric_actions_view(actions@)[0] == actions@[0]@);
    let list = actions@[0]->RecordDuration_attributes@;
    let meant = attributes_view(list);
    assert(meant == duration_attributes(request@).with_status(status@).build());
    assert(list.len() == meant.len());
    assert(forall|i: int| 0 <= i < list.len() ==> meant[i] == (#[trigger] list[i])@);
    assert(list[0]@ == meant[0]);
    assert(list[1]@ == meant[1]);
    assert(list[2]@ == meant[2]);
    assert(list[3]@ == meant[3]);
    if request.route is Some {
        assert(list[4]@ == meant[4]);
    }
}

/// The duration of a request is recorded under what the request's span is started with, without the
/// path and the query, and behind that under the number of the status.
pub proof fn duration_follows_the_span<S, D, A, T, P, E>(
    service: &RequestMetricsMiddleware<S, D, A>,
    traced: &RequestTraceMiddleware<T, P>,
    request: &ServerRequest,
    start: SpanStart,
    begun: (ActiveRequest, MetricAction),
    status: Status,
    actions: Vec<MetricAction>,
)
    requires
        call_ensures(RequestTraceMiddleware::<T, P>::on_request, (traced, request), start),
        call_ensures(RequestMetricsMiddleware::<S, D, A>::on_request, (service, request), begun),
        call_ensures(
            ActiveRequest::on_response::<E>,
            (begun.0, &Ok::<Status, E>(status)),
            actions,
        ),
    ensures
        actions@[0] matches MetricAction::RecordDuration { attributes } && attributes_view(
            attributes@,
        ) == attributes_view(start.attributes@).filter(
            |attribute: AttributeView|
                attribute.key != Key::UrlPath && attribute.key != Key::UrlQuery,
        ).push(
            AttributeView {
                key: Key::HttpResponseStatusCode,
                value: ValueView::I64(status@ as i64),
            },
        ),
{
    let keep = |attribute: AttributeView|
        attribute.key != Key::UrlPath && attribute.key != Key::UrlQuery;
    let ended = metrics_end(begun.0@, Some(status@));
    assert(metric_actions_view(actions@) == ended);
    assert(ended.len() == 2);
    assert(metric_actions_view(actions@)[0] == actions@[0]@);
    let span = attributes_view(start.attributes@);
    let last = AttributeView {
        key: Key::HttpResponseStatusCode,
        value: ValueView::I64(status@ as i64),
    };
    server_metric_omits_path_and_query(request@, status@);
    reveal(Seq::filter);
    assert(span.push(last).drop_last() =~= span);
    assert(span.push(last) =~= server_span_final_attributes(request@, Some(status@)));
    assert(span.push(last).filter(keep) =~= span.filter(keep).push(last));
}

/// Requests of one method, scheme, version and route that are answered with one status are recorded
/// together, whatever their paths and queries.
pub proof fn duration_forgets_the_resource<S, D, A, E>(
    service: &RequestMetricsMiddleware<S, D, A>,
    a: &ServerRequest,
    b: &ServerRequest,
    begun: ((ActiveRequest, MetricAction), (ActiveRequest, MetricAction)),
    response: &Result<Status, E>,
    actions: (Vec<MetricAction>, Vec<MetricAction>),
)
    requires
        call_ensures(RequestMetricsMiddleware::<S, D, A>::on_request, (service, a), begun.0),
        call_ensures(RequestMetricsMiddleware::<S, D, A>::on_request, (service, b), begun.1),
        call_ensures(ActiveRequest::on_response::<E>, (begun.0.0, response), actions.0),
        call_ensures(ActiveRequest::on_response::<E>, (begun.1.0, response), actions.1),
        a.method@ == b.method@,
        a.scheme.deep_view() == b.scheme.deep_view(),
        a.version == b.version,
        a.route.deep_view() == b.route.deep_view(),
    ensures
        metric_actions_view(actions.0@) == metric_actions_view(actions.1@),
        begun.0.1@ == begun.1.1@,
{
}

} // verus!
