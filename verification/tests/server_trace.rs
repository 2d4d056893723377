use axum::body::Body;
use axum::extract::Request;
use axum::http::{StatusCode, Version};
use axum::routing::get;
use axum::Router;
use opentelemetry::trace::{
    get_active_span, Span, SpanBuilder, SpanId, SpanKind, Status, TraceContextExt, Tracer,
    TracerProvider,
};
use opentelemetry::{global, Context, KeyValue};
use opentelemetry_sdk::trace::{InMemorySpanExporter, SdkTracerProvider, SpanData};
use opentelemetry_semantic_conventions::attribute::{
    HTTP_REQUEST_METHOD, HTTP_RESPONSE_STATUS_CODE, HTTP_ROUTE, NETWORK_PROTOCOL_VERSION, URL_PATH,
    URL_QUERY, URL_SCHEME,
};
use service_common::attribute::{Attribute, Value};
use service_common::http::{HttpVersion, ServerRequest};
use service_common::middleware::trace::{RequestTraceLayer, RequestTraceMiddleware};
use service_common::span::{SpanAction, SpanActions};
use service_common::PKG_NAME;
use std::sync::Arc;
use tower::ServiceExt;

fn key_value(attribute: Attribute) -> KeyValue {
    match attribute.value {
        Value::I64(number) => KeyValue::new(attribute.key.name(), number),
        Value::Str(text) => KeyValue::new(attribute.key.name(), text),
    }
}

fn key_values(attributes: Vec<Attribute>) -> Vec<KeyValue> {
    attributes.into_iter().map(key_value).collect()
}

fn perform(cx: &Context, actions: SpanActions) {
    let span = cx.span();
    for action in actions.actions {
        match action {
            SpanAction::SetAttribute(attribute) => span.set_attribute(key_value(attribute)),
            SpanAction::SetErrorStatus { description } => {
                span.set_status(Status::error(description))
            }
            SpanAction::AddEvent { name, attributes } => {
                span.add_event(name, key_values(attributes))
            }
            SpanAction::LogErrorStatus | SpanAction::LogError => {}
            SpanAction::End => span.end(),
        }
    }
}

fn version(version: Version) -> HttpVersion {
    match version {
        Version::HTTP_09 => HttpVersion::Http09,
        Version::HTTP_10 => HttpVersion::Http10,
        Version::HTTP_11 => HttpVersion::Http11,
        Version::HTTP_2 => HttpVersion::Http2,
        Version::HTTP_3 => HttpVersion::Http3,
        _ => unreachable!(),
    }
}

type Handler = Arc<dyn Fn() -> StatusCode + Send + Sync>;

/// The kind of a span, as the exporter has it.
fn span_kind(kind: service_common::span::SpanKind) -> SpanKind {
    match kind {
        service_common::span::SpanKind::Server => SpanKind::Server,
        service_common::span::SpanKind::Client => SpanKind::Client,
    }
}

/// Answers a request under the span that the middleware asks for.
fn traced<P>(
    middleware: &RequestTraceMiddleware<Handler, P>,
    request: Request,
) -> StatusCode
where
    P: TracerProvider,
    <P::Tracer as Tracer>::Span: Send + Sync + 'static,
{
    let request = ServerRequest::new(
        request.method().as_str(),
        &request.uri().to_string(),
        version(request.version()),
        request.extensions(),
    )
    .unwrap();
    let start = middleware.on_request(&request);
    let tracer = middleware.tracer_provider.tracer(start.scope);
    let span = tracer.build(
        SpanBuilder::from_name(start.name)
            .with_kind(span_kind(start.kind))
            .with_attributes(key_values(start.attributes)),
    );
    let cx = Context::current_with_span(span);
    let status = {
        let _guard = cx.clone().attach();
        (middleware.inner)()
    };
    let answered: Result<_, ()> =
        Ok(service_common::http::Status::from_u16(status.as_u16()).unwrap());
    perform(&cx, RequestTraceMiddleware::<Handler, P>::on_response(&answered));
    status
}

/// Sends requests for the URIs to a router with the routes.
fn serve<P>(layer: RequestTraceLayer<P>, routes: &[&str], uris: &[&str], handler: Handler)
where
    P: TracerProvider + Clone + Send + Sync + 'static,
    <P::Tracer as Tracer>::Span: Send + Sync + 'static,
{
    let mut router = Router::new();
    for route in routes {
        let middleware = layer.layer(handler.clone());
        router = router.route(
            route,
            get(move |request: Request| async move { traced(&middleware, request) }),
        );
    }
    let runtime = tokio::runtime::Builder::new_current_thread().build().unwrap();
    for uri in uris {
        let request = Request::builder().uri(*uri).body(Body::empty()).unwrap();
        let _ = runtime.block_on(router.clone().oneshot(request)).unwrap();
    }
}

fn exporting() -> (InMemorySpanExporter, SdkTracerProvider) {
    let exporter = InMemorySpanExporter::default();
    let provider = SdkTracerProvider::builder()
        .with_simple_exporter(exporter.clone())
        .build();
    (exporter, provider)
}

fn finished(exporter: &InMemorySpanExporter, provider: &SdkTracerProvider) -> Vec<SpanData> {
    provider.force_flush().unwrap();
    exporter.get_finished_spans().unwrap()
}

fn ok() -> Handler {
    Arc::new(|| StatusCode::OK)
}

#[test]
fn root_span_single_request() {
    let (exporter, provider) = exporting();
    let layer = RequestTraceLayer::new_with_provider(provider.clone());
    serve(layer, &["/"], &["/"], ok());

    let spans = finished(&exporter, &provider);
    assert_eq!(spans.len(), 1);

    let span = &spans[0];
    assert_eq!(span.name, "GET /");
    assert_eq!(span.parent_span_id, SpanId::INVALID);
    assert_eq!(span.span_kind, SpanKind::Server);
    assert_eq!(span.instrumentation_scope.name(), PKG_NAME);
    assert_eq!(span.status, Status::Unset);

    let attributes = vec![
        KeyValue::new(HTTP_REQUEST_METHOD, "GET"),
        KeyValue::new(URL_SCHEME, "http"),
        KeyValue::new(NETWORK_PROTOCOL_VERSION, "HTTP/1.1"),
        KeyValue::new(HTTP_ROUTE, "/"),
        KeyValue::new(URL_PATH, "/"),
        KeyValue::new(HTTP_RESPONSE_STATUS_CODE, 200),
    ];
    assert_eq!(span.attributes, attributes);
}

#[test]
fn root_span_single_request_global_tracer() {
    let (exporter, provider) = exporting();
    global::set_tracer_provider(provider.clone());
    serve(RequestTraceLayer::new(), &["/"], &["/"], ok());

    let spans = finished(&exporter, &provider);
    assert_eq!(spans.len(), 1);

    let span = &spans[0];
    assert_eq!(span.name, "GET /");
    assert_eq!(span.parent_span_id, SpanId::INVALID);
    assert_eq!(span.span_kind, SpanKind::Server);
    assert_eq!(span.instrumentation_scope.name(), PKG_NAME);
    assert_eq!(span.status, Status::Unset);

    let attributes = vec![
        KeyValue::new(HTTP_REQUEST_METHOD, "GET"),
        KeyValue::new(URL_SCHEME, "http"),
        KeyValue::new(NETWORK_PROTOCOL_VERSION, "HTTP/1.1"),
        KeyValue::new(HTTP_ROUTE, "/"),
        KeyValue::new(URL_PATH, "/"),
        KeyValue::new(HTTP_RESPONSE_STATUS_CODE, 200),
    ];
    assert_eq!(span.attributes, attributes);
}

#[test]
fn root_spans_multiple_requests() {
    let (exporter, provider) = exporting();
    let layer = RequestTraceLayer::new_with_provider(provider.clone());
    serve(layer, &["/foo", "/bar"], &["/foo", "/bar"], ok());

    let spans = finished(&exporter, &provider);
    assert_eq!(spans.len(), 2);

    let span = &spans[0];
    assert_eq!(span.name, "GET /foo");
    assert_eq!(span.parent_span_id, SpanId::INVALID);

    let span = &spans[1];
    assert_eq!(span.name, "GET /bar");
    assert_eq!(span.parent_span_id, SpanId::INVALID);
}

#[test]
fn root_span_parameterized_path() {
    let (exporter, provider) = exporting();
    let layer = RequestTraceLayer::new_with_provider(provider.clone());
    serve(layer, &["/foo/{id}"], &["/foo/1"], ok());

    let spans = finished(&exporter, &provider);
    assert_eq!(spans.len(), 1);

    let span = &spans[0];
    assert_eq!(span.name, "GET /foo/{id}");
    assert_eq!(span.parent_span_id, SpanId::INVALID);
    assert_eq!(span.span_kind, SpanKind::Server);
    assert_eq!(span.instrumentation_scope.name(), PKG_NAME);

    let attributes = vec![
        KeyValue::new(HTTP_REQUEST_METHOD, "GET"),
        KeyValue::new(URL_SCHEME, "http"),
        KeyValue::new(NETWORK_PROTOCOL_VERSION, "HTTP/1.1"),
        KeyValue::new(HTTP_ROUTE, "/foo/{id}"),
        KeyValue::new(URL_PATH, "/foo/1"),
        KeyValue::new(HTTP_RESPONSE_STATUS_CODE, 200),
    ];
    assert_eq!(span.attributes, attributes);
}

#[test]
fn root_span_url_query() {
    let (exporter, provider) = exporting();
    let layer = RequestTraceLayer::new_with_provider(provider.clone());
    serve(layer, &["/foo"], &["/foo?query=value"], ok());

    let spans = finished(&exporter, &provider);
    assert_eq!(spans.len(), 1);

    let span = &spans[0];
    assert_eq!(span.name, "GET /foo");
    assert_eq!(span.parent_span_id, SpanId::INVALID);
    assert_eq!(span.span_kind, SpanKind::Server);
    assert_eq!(span.instrumentation_scope.name(), PKG_NAME);

    let attributes = vec![
        KeyValue::new(HTTP_REQUEST_METHOD, "GET"),
        KeyValue::new(URL_SCHEME, "http"),
        KeyValue::new(NETWORK_PROTOCOL_VERSION, "HTTP/1.1"),
        KeyValue::new(HTTP_ROUTE, "/foo"),
        KeyValue::new(URL_PATH, "/foo"),
        KeyValue::new(URL_QUERY, "query=value"),
        KeyValue::new(HTTP_RESPONSE_STATUS_CODE, 200),
    ];
    assert_eq!(span.attributes, attributes);
}

#[test]
fn root_span_server_error() {
    let (exporter, provider) = exporting();
    let layer = RequestTraceLayer::new_with_provider(provider.clone());
    let handler: Handler = Arc::new(|| StatusCode::INTERNAL_SERVER_ERROR);
    serve(layer, &["/"], &["/"], handler);

    let spans = finished(&exporter, &provider);
    assert_eq!(spans.len(), 1);

    let span = &spans[0];
    assert_eq!(span.name, "GET /");
    assert_eq!(span.parent_span_id, SpanId::INVALID);
    assert_eq!(span.span_kind, SpanKind::Server);
    assert_eq!(span.instrumentation_scope.name(), PKG_NAME);
    assert_eq!(span.status, Status::error(""));

    let attributes = vec![
        KeyValue::new(HTTP_REQUEST_METHOD, "GET"),
        KeyValue::new(URL_SCHEME, "http"),
        KeyValue::new(NETWORK_PROTOCOL_VERSION, "HTTP/1.1"),
        KeyValue::new(HTTP_ROUTE, "/"),
        KeyValue::new(URL_PATH, "/"),
        KeyValue::new(HTTP_RESPONSE_STATUS_CODE, 500),
    ];
    assert_eq!(span.attributes, attributes);
}

#[test]
fn root_span_from_async_thread() {
    let (exporter, provider) = exporting();
    let layer = RequestTraceLayer::new_with_provider(provider.clone());
    let handler: Handler = Arc::new(|| {
        get_active_span(|span| {
            span.add_event("hello", Vec::new());
        });
        StatusCode::OK
    });
    serve(layer, &["/"], &["/"], handler);

    let spans = finished(&exporter, &provider);
    assert_eq!(spans.len(), 1);

    let span = &spans[0];
    assert_eq!(span.name, "GET /");
    assert_eq!(span.parent_span_id, SpanId::INVALID);
    assert_eq!(span.events.events[0].name, "hello");
}

#[test]
fn child_spans() {
    let (exporter, provider) = exporting();
    let layer = RequestTraceLayer::new_with_provider(provider.clone());
    let provider2 = provider.clone();
    let handler: Handler = Arc::new(move || {
        let tracer = provider2.tracer("test");
        tracer.in_span("child span 1", |cx| {
            let span = cx.span();
            span.add_event("from child span 1", Vec::new());
        });

        let mut span = tracer.start("child span 2");
        span.add_event("from child span 2", Vec::new());
        StatusCode::OK
    });
    serve(layer, &["/"], &["/"], handler);

    let spans = finished(&exporter, &provider);
    assert_eq!(spans.len(), 3);

    let child1 = &spans[0];
    let child2 = &spans[1];
    let parent = &spans[2];

    // verify parent span
    assert_eq!(parent.name, "GET /");
    assert_eq!(parent.parent_span_id, SpanId::INVALID);
    assert_eq!(parent.instrumentation_scope.name(), PKG_NAME);

    let attributes = vec![
        KeyValue::new(HTTP_REQUEST_METHOD, "GET"),
        KeyValue::new(URL_SCHEME, "http"),
        KeyValue::new(NETWORK_PROTOCOL_VERSION, "HTTP/1.1"),
        KeyValue::new(HTTP_ROUTE, "/"),
        KeyValue::new(URL_PATH, "/"),
        KeyValue::new(HTTP_RESPONSE_STATUS_CODE, 200),
    ];
    assert_eq!(parent.attributes, attributes);

    // verify child span 1
    assert_eq!(child1.name, "child span 1");
    assert_eq!(child1.parent_span_id, parent.span_context.span_id());
    assert_eq!(child1.instrumentation_scope.name(), "test");
    assert_eq!(
        child1.span_context.trace_id(),
        parent.span_context.trace_id()
    );
    assert_eq!(child1.events.events[0].name, "from child span 1");

    // verify child span 2
    assert_eq!(child2.name, "child span 2");
    assert_eq!(child2.parent_span_id, parent.span_context.span_id());
    assert_eq!(child2.instrumentation_scope.name(), "test");
    assert_eq!(
        child2.span_context.trace_id(),
        parent.span_context.trace_id()
    );
    assert_eq!(child2.events.events[0].name, "from child span 2");
    assert_ne!(child2.span_context.span_id(), child1.span_context.span_id());
}

#[test]
fn absolute_uri_names_its_scheme() {
    let (exporter, provider) = exporting();
    let layer = RequestTraceLayer::new_with_provider(provider.clone());
    serve(layer, &["/foo"], &["https://example.org/foo?a=b"], ok());

    let spans = finished(&exporter, &provider);
    let attributes = vec![
        KeyValue::new(HTTP_REQUEST_METHOD, "GET"),
        KeyValue::new(URL_SCHEME, "https"),
        KeyValue::new(NETWORK_PROTOCOL_VERSION, "HTTP/1.1"),
        KeyValue::new(HTTP_ROUTE, "/foo"),
        KeyValue::new(URL_PATH, "/foo"),
        KeyValue::new(URL_QUERY, "a=b"),
        KeyValue::new(HTTP_RESPONSE_STATUS_CODE, 200),
    ];
    assert_eq!(spans[0].attributes, attributes);
}
