use axum::http::Extensions;
use opentelemetry::metrics::{Histogram, MeterProvider};
use opentelemetry::trace::{
    SpanBuilder, SpanKind, Status, TraceContextExt, Tracer, TracerProvider,
};
use opentelemetry::{Context, KeyValue};
use opentelemetry_sdk::metrics::data::{AggregatedMetrics, MetricData};
use opentelemetry_sdk::metrics::{InMemoryMetricExporter, SdkMeterProvider};
use opentelemetry_sdk::trace::{InMemorySpanExporter, SdkTracerProvider};
use opentelemetry_semantic_conventions::attribute::{
    ERROR_TYPE, EXCEPTION_MESSAGE, EXCEPTION_STACKTRACE, HTTP_REQUEST_METHOD,
    HTTP_RESPONSE_STATUS_CODE, SERVER_ADDRESS, SERVER_PORT, URL_FULL,
};
use opentelemetry_semantic_conventions::metric::{
    HTTP_CLIENT_REQUEST_DURATION, HTTP_SERVER_ACTIVE_REQUESTS, HTTP_SERVER_REQUEST_DURATION,
};
use reqwest_tracing::{OtelName, OtelPathNames};
use service_common::attribute::{Attribute, Value};
use service_common::http::{ClientRequest, HttpVersion, ServerRequest};
use service_common::instrument::Instrument;
use service_common::middleware::client_metrics::ReqwestMetricsMiddleware;
use service_common::middleware::client_trace::ReqwestTracingMiddleware;
use service_common::middleware::metrics::{MetricAction, RequestMetricsLayer};
use service_common::middleware::trace::{RequestTraceLayer, RequestTraceMiddleware};
use service_common::outcome::ClientOutcome;
use service_common::span::{ErrorReport, SpanAction, SpanActions, SpanStart};
use service_common::PKG_NAME;
use std::collections::{HashMap, HashSet};
use std::error::Error;

const URL: &str = "http://127.0.0.1:4321/hello";

fn key_value(attribute: Attribute) -> KeyValue {
    match attribute.value {
        Value::I64(number) => KeyValue::new(attribute.key.name(), number),
        Value::Str(text) => KeyValue::new(attribute.key.name(), text),
    }
}

fn key_values(attributes: Vec<Attribute>) -> Vec<KeyValue> {
    attributes.into_iter().map(key_value).collect()
}

fn response(code: u16) -> ClientOutcome {
    ClientOutcome::Response(service_common::http::Status::from_u16(code).unwrap())
}

#[derive(Debug)]
struct FailingMiddlewareError;

impl std::fmt::Display for FailingMiddlewareError {
    fn fmt(&self, f: &mut std::fmt::Formatter<'_>) -> std::fmt::Result {
        f.write_str("FailingMiddlewareErrorDisplay")
    }
}

impl Error for FailingMiddlewareError {}

fn failure() -> ClientOutcome {
    let error = reqwest_middleware::Error::middleware(FailingMiddlewareError);
    ClientOutcome::Failure(ErrorReport::of(&error))
}

fn histogram(provider: &SdkMeterProvider) -> Histogram<f64> {
    let instrument = Instrument::ClientRequestDuration;
    provider
        .meter(PKG_NAME)
        .f64_histogram(instrument.name())
        .with_description(instrument.description())
        .with_unit(instrument.unit())
        .build()
}

/// The attributes under which the duration of a request is exported.
fn exported(url: &str, outcome: ClientOutcome) -> HashSet<KeyValue> {
    let exporter = InMemoryMetricExporter::default();
    let provider = SdkMeterProvider::builder()
        .with_periodic_exporter(exporter.clone())
        .build();
    let middleware = ReqwestMetricsMiddleware::with_instrument(histogram(&provider));
    let sent = middleware.on_request(&ClientRequest::new("GET", url).unwrap());
    let attributes = key_values(sent.on_response(&outcome));
    middleware.request_duration.record(0.02, &attributes);

    provider.force_flush().unwrap();
    let resource_metrics = exporter.get_finished_metrics().unwrap();
    assert_eq!(resource_metrics.len(), 1);

    let scope_metrics = resource_metrics[0].scope_metrics().next().unwrap();
    assert_eq!(scope_metrics.scope().name(), PKG_NAME);

    let metrics: HashMap<_, _> = scope_metrics.metrics().map(|m| (m.name(), m)).collect();
    let metric = metrics[HTTP_CLIENT_REQUEST_DURATION];

    let AggregatedMetrics::F64(MetricData::Histogram(metric_data)) = metric.data() else {
        panic!("wrong metric data type");
    };
    let data_point = metric_data.data_points().next().unwrap();
    assert_eq!(data_point.count(), 1);
    data_point.attributes().cloned().collect()
}

#[test]
fn client_metrics_request_duration() {
    let expected_attributes = HashSet::from([
        KeyValue::new(HTTP_REQUEST_METHOD, "GET"),
        KeyValue::new(HTTP_RESPONSE_STATUS_CODE, 200),
        KeyValue::new(SERVER_ADDRESS, "127.0.0.1"),
        KeyValue::new(SERVER_PORT, 4321),
    ]);
    assert_eq!(exported(URL, response(200)), expected_attributes);
}

#[test]
fn request_duration_status_400() {
    let expected_attributes = HashSet::from([
        KeyValue::new(HTTP_REQUEST_METHOD, "GET"),
        KeyValue::new(HTTP_RESPONSE_STATUS_CODE, 400),
        KeyValue::new(SERVER_ADDRESS, "127.0.0.1"),
        KeyValue::new(SERVER_PORT, 4321),
        KeyValue::new(ERROR_TYPE, "400"),
    ]);
    assert_eq!(exported(URL, response(400)), expected_attributes);
}

#[test]
fn request_duration_status_500() {
    let expected_attributes = HashSet::from([
        KeyValue::new(HTTP_REQUEST_METHOD, "GET"),
        KeyValue::new(HTTP_RESPONSE_STATUS_CODE, 500),
        KeyValue::new(SERVER_ADDRESS, "127.0.0.1"),
        KeyValue::new(SERVER_PORT, 4321),
        KeyValue::new(ERROR_TYPE, "500"),
    ]);
    assert_eq!(exported(URL, response(500)), expected_attributes);
}

#[test]
fn request_duration_middleware_failure() {
    let expected_attributes = HashSet::from([
        KeyValue::new(HTTP_REQUEST_METHOD, "GET"),
        KeyValue::new(SERVER_ADDRESS, "127.0.0.1"),
        KeyValue::new(SERVER_PORT, 4321),
        KeyValue::new(ERROR_TYPE, "FailingMiddlewareErrorDisplay"),
    ]);
    assert_eq!(exported(URL, failure()), expected_attributes);
}

#[test]
fn own_port_of_the_scheme_is_not_exported() {
    let expected_attributes = HashSet::from([
        KeyValue::new(HTTP_REQUEST_METHOD, "GET"),
        KeyValue::new(HTTP_RESPONSE_STATUS_CODE, 204),
        KeyValue::new(SERVER_ADDRESS, "example.org"),
    ]);
    assert_eq!(exported("https://EXAMPLE.org:443/a", response(204)), expected_attributes);
}

/// The kind of a span, as the exporter has it.
fn span_kind(kind: service_common::span::SpanKind) -> SpanKind {
    match kind {
        service_common::span::SpanKind::Server => SpanKind::Server,
        service_common::span::SpanKind::Client => SpanKind::Client,
    }
}

/// Starts a span as a child of the current one.
fn start(provider: &SdkTracerProvider, start: SpanStart) -> Context {
    let tracer = provider.tracer(start.scope);
    let span = tracer.build(
        SpanBuilder::from_name(start.name)
            .with_kind(span_kind(start.kind))
            .with_attributes(key_values(start.attributes)),
    );
    Context::current_with_span(span)
}

fn perform(cx: &Context, actions: SpanActions) {
    let span = cx.span();
    for action in actions.actions {
        match action {
            SpanAction::SetAttribute(attribute) => span.set_attribute(key_value(attribute)),
            SpanAction::SetErrorStatus { description } => {
                span.set_status(Status::error(description))
            }
            SpanAction::AddEvent { name, attributes } => {
                span.add_event(name, key_values(attributes))
            }
            SpanAction::LogErrorStatus | SpanAction::LogError => {}
            SpanAction::End => span.end(),
        }
    }
}

fn exporting() -> (InMemorySpanExporter, SdkTracerProvider) {
    let exporter = InMemorySpanExporter::default();
    let provider = SdkTracerProvider::builder()
        .with_simple_exporter(exporter.clone())
        .build();
    (exporter, provider)
}

#[test]
fn request_succeeded_no_known_path() {
    let (exporter, provider) = exporting();
    let root_span = provider.tracer("tracer").start("test root");
    let cx = Context::current_with_span(root_span);
    {
        let _guard = cx.clone().attach();
        let middleware = ReqwestTracingMiddleware::new();
        let begun = middleware.on_request("GET", URL, &Extensions::new()).unwrap();
        let client_cx = start(&provider, begun);
        perform(&client_cx, ReqwestTracingMiddleware::on_response(&response(200)));
    }

    provider.force_flush().unwrap();
    let spans = exporter.get_finished_spans().unwrap();
    let span = &spans[0];

    assert_eq!(
        span.span_context.trace_id(),
        cx.span().span_context().trace_id()
    );
    assert_eq!(span.parent_span_id, cx.span().span_context().span_id());
    assert_eq!(span.span_kind, SpanKind::Client);
    assert_eq!(span.name, "GET");
    assert_eq!(span.status, Status::Unset);
    assert_eq!(span.instrumentation_scope.name(), PKG_NAME);

    let attributes = vec![
        KeyValue::new(HTTP_REQUEST_METHOD, "GET"),
        KeyValue::new(SERVER_ADDRESS, "127.0.0.1"),
        KeyValue::new(URL_FULL, URL),
        KeyValue::new(SERVER_PORT, 4321),
        KeyValue::new(HTTP_RESPONSE_STATUS_CODE, 200),
    ];
    assert_eq!(span.attributes, attributes);
}

#[test]
fn request_with_error_status_is_traced_as_an_error() {
    let (exporter, provider) = exporting();
    let middleware = ReqwestTracingMiddleware;
    let begun = middleware.on_request("PUT", "http://example.org/", &Extensions::new()).unwrap();
    let cx = start(&provider, begun);
    let actions = ReqwestTracingMiddleware::on_response(&response(404));
    assert!(actions.actions.contains(&SpanAction::LogErrorStatus));
    perform(&cx, actions);

    let spans = exporter.get_finished_spans().unwrap();
    let span = &spans[0];
    assert_eq!(span.name, "PUT");
    assert_eq!(span.status, Status::error(""));
    let attributes = vec![
        KeyValue::new(HTTP_REQUEST_METHOD, "PUT"),
        KeyValue::new(SERVER_ADDRESS, "example.org"),
        KeyValue::new(URL_FULL, "http://example.org/"),
        KeyValue::new(HTTP_RESPONSE_STATUS_CODE, 404),
        KeyValue::new(ERROR_TYPE, "404"),
    ];
    assert_eq!(span.attributes, attributes);
    assert!(span.events.events.is_empty());
}

#[test]
fn request_without_response_is_traced_with_its_error() {
    let (exporter, provider) = exporting();
    let middleware = ReqwestTracingMiddleware::new();
    let begun = middleware.on_request("GET", URL, &Extensions::new()).unwrap();
    let cx = start(&provider, begun);
    let actions = ReqwestTracingMiddleware::on_response(&failure());
    assert!(actions.actions.contains(&SpanAction::LogError));
    perform(&cx, actions);

    let spans = exporter.get_finished_spans().unwrap();
    let span = &spans[0];
    assert_eq!(span.status, Status::error(""));
    let attributes = vec![
        KeyValue::new(HTTP_REQUEST_METHOD, "GET"),
        KeyValue::new(SERVER_ADDRESS, "127.0.0.1"),
        KeyValue::new(URL_FULL, URL),
        KeyValue::new(SERVER_PORT, 4321),
        KeyValue::new(ERROR_TYPE, "FailingMiddlewareErrorDisplay"),
    ];
    assert_eq!(span.attributes, attributes);
    assert_eq!(span.events.events.len(), 1);
    let event = &span.events.events[0];
    assert_eq!(event.name, "exception");
    let error = reqwest_middleware::Error::middleware(FailingMiddlewareError);
    assert_eq!(
        event.attributes,
        vec![
            KeyValue::new(EXCEPTION_MESSAGE, "FailingMiddlewareErrorDisplay"),
            KeyValue::new(EXCEPTION_STACKTRACE, format!("{:#?}", error)),
        ]
    );
}

/// The name of the span of a request with the extensions.
fn name(method: &str, url: &str, extensions: &Extensions) -> String {
    ReqwestTracingMiddleware::new()
        .on_request(method, url, extensions)
        .unwrap()
        .name
}

#[test]
fn span_is_named_by_the_known_path() {
    let mut extensions = Extensions::new();
    extensions.insert(OtelPathNames::known_paths(["/foo", "/pay/{id}"]).unwrap());
    assert_eq!(name("GET", "http://h/foo?a=b", &extensions), "GET /foo");
    assert_eq!(name("POST", "http://h/pay/7", &extensions), "POST /pay/{id}");
    assert_eq!(name("GET", "http://h/bar", &extensions), "GET UNKNOWN");
    extensions.insert(OtelPathNames::known_paths(["/{any}", "/foo", "/foo/{*rest}"]).unwrap());
    assert_eq!(name("GET", "http://h/foo", &extensions), "GET /foo");
    assert_eq!(name("GET", "http://h/bar", &extensions), "GET /{any}");
    extensions.insert(OtelName("my-client".into()));
    assert_eq!(name("GET", "http://h/foo", &extensions), "my-client");
}

#[test]
fn combine_everything() {
    let (span_exporter, tracer_provider) = exporting();
    let metric_exporter = InMemoryMetricExporter::default();
    let meter_provider = SdkMeterProvider::builder()
        .with_periodic_exporter(metric_exporter.clone())
        .build();

    let client_root = tracer_provider.tracer("client-tracer").start("client-root");
    let root_cx = Context::current_with_span(client_root);

    // the client sends
    let mut extensions = Extensions::new();
    extensions.insert(OtelPathNames::known_paths(["/foo"]).unwrap());
    let tracing = ReqwestTracingMiddleware::new();
    let metrics = ReqwestMetricsMiddleware::with_instrument(histogram(&meter_provider));
    let url = "http://127.0.0.1:4321/foo";
    let guard = root_cx.clone().attach();
    let begun = tracing.on_request("GET", url, &extensions).unwrap();
    let client_cx = start(&tracer_provider, begun);
    drop(guard);
    let sent = metrics.on_request(&ClientRequest::new("GET", url).unwrap());

    // the server answers
    let request = ServerRequest {
        method: "GET".to_string(),
        scheme: None,
        path: "/foo".to_string(),
        query: None,
        version: HttpVersion::Http11,
        route: Some("/foo".to_string()),
    };
    let meter = meter_provider.meter(PKG_NAME);
    let duration = Instrument::ServerRequestDuration;
    let active = Instrument::ServerActiveRequests;
    let service = RequestTraceLayer::new_with_provider(tracer_provider.clone()).layer(
        RequestMetricsLayer::with_instruments(
            meter.f64_histogram(duration.name()).build(),
            meter.i64_up_down_counter(active.name()).build(),
        )
        .layer(()),
    );
    let begun = service.on_request(&request);
    let server_cx = start(&service.tracer_provider, begun);
    let (active_request, action) = service.inner.on_request(&request);
    let MetricAction::AddActiveRequests { delta, attributes } = action else {
        panic!("a request that comes in is counted");
    };
    service.inner.active_requests.add(delta, &key_values(attributes));
    {
        let _guard = server_cx.clone().attach();
        tracer_provider
            .tracer("server-tracer")
            .in_span("server-child", |cx| cx.span().add_event("hello", Vec::new()));
    }
    let answered: Result<_, ()> = Ok(service_common::http::Status::ok());
    for action in active_request.on_response(&answered) {
        match action {
            MetricAction::RecordDuration { attributes } => {
                service.inner.request_duration.record(0.01, &key_values(attributes))
            }
            MetricAction::AddActiveRequests { delta, attributes } => service.inner.active_requests.add(delta, &key_values(attributes)),
        }
    }
    perform(&server_cx, RequestTraceMiddleware::<(), ()>::on_response(&answered));

    // the client gets the answer
    let attributes = key_values(sent.on_response(&response(200)));
    metrics.request_duration.record(0.02, &attributes);
    perform(&client_cx, ReqwestTracingMiddleware::on_response(&response(200)));
    root_cx.span().end();

    tracer_provider.force_flush().unwrap();
    meter_provider.force_flush().unwrap();

    let spans = span_exporter.get_finished_spans().unwrap();
    assert_eq!(spans.len(), 4);

    let client_root = spans
        .iter()
        .find(|s| s.instrumentation_scope.name() == "client-tracer")
        .unwrap();
    assert_eq!(client_root.name, "client-root");
    assert_eq!(client_root.span_kind, SpanKind::Internal);

    let client_child = spans
        .iter()
        .find(|s| {
            s.instrumentation_scope.name() == "service-common" && s.span_kind == SpanKind::Client
        })
        .unwrap();
    assert_eq!(client_child.name, "GET /foo");

    let server_root = spans
        .iter()
        .find(|s| {
            s.instrumentation_scope.name() == "service-common" && s.span_kind == SpanKind::Server
        })
        .unwrap();
    assert_eq!(server_root.name, "GET /foo");

    let server_child = spans
        .iter()
        .find(|s| s.instrumentation_scope.name() == "server-tracer")
        .unwrap();
    assert_eq!(server_child.name, "server-child");
    assert_eq!(server_child.span_kind, SpanKind::Internal);

    let resource_metrics = metric_exporter.get_finished_metrics().unwrap();
    let metric_names: HashSet<_> = resource_metrics[0]
        .scope_metrics()
        .next()
        .unwrap()
        .metrics()
        .map(|m| m.name())
        .collect();
    assert_eq!(
        metric_names,
        HashSet::from([
            HTTP_SERVER_REQUEST_DURATION,
            HTTP_SERVER_ACTIVE_REQUESTS,
            HTTP_CLIENT_REQUEST_DURATION
        ])
    );
}
