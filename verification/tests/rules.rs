use axum::http::Extensions;
use opentelemetry_semantic_conventions::{attribute, metric};
use service_common::attribute::{Attribute, Key, Value};
use service_common::error::{error_response, AppError};
use service_common::http::{
    http_version, ClientRequest, ClientRequestError, HttpVersion, InvalidStatus, InvalidUri,
    ServerRequest, Status, UriParts, UrlParts,
};
use service_common::instrument::Instrument;
use service_common::middleware::client_metrics::ReqwestMetricsMiddleware;
use service_common::middleware::client_trace::ReqwestTracingMiddleware;
use service_common::middleware::metrics::{
    AttributeBuilder, MetricAction, RequestMetricsLayer, RequestMetricsMiddleware,
};
use service_common::middleware::trace::{RequestTraceLayer, RequestTraceMiddleware};
use service_common::outcome::ClientOutcome;
use service_common::services::api::{pong, BackendResponse, API_ADDRESS, BACKEND_PATH, BACKEND_URL};
use service_common::services::backend::{delayed, BACKEND_ADDRESS};
use service_common::services::logs::log_directives;
use service_common::services::players::{
    PlayerUpdate, SleeperPlayer, SqlValue, UpdateStep, UPSERT_PLAYER,
};
use service_common::span::{ErrorReport, SpanAction, SpanActions, SpanKind};
use service_common::{SpanExt, PKG_NAME};

fn text(key: Key, value: &str) -> Attribute {
    Attribute { key, value: Value::Str(value.to_string()) }
}

fn number(key: Key, value: i64) -> Attribute {
    Attribute { key, value: Value::I64(value) }
}

fn request(route: Option<&str>, query: Option<&str>) -> ServerRequest {
    ServerRequest {
        method: "GET".to_string(),
        scheme: None,
        path: "/foo/1".to_string(),
        query: query.map(|query| query.to_string()),
        version: HttpVersion::Http2,
        route: route.map(|route| route.to_string()),
    }
}

#[test]
fn keys_have_the_names_of_the_conventions() {
    let names = [
        (Key::HttpRequestMethod, attribute::HTTP_REQUEST_METHOD, "http.request.method"),
        (
            Key::HttpResponseStatusCode,
            attribute::HTTP_RESPONSE_STATUS_CODE,
            "http.response.status_code",
        ),
        (Key::HttpRoute, attribute::HTTP_ROUTE, "http.route"),
        (
            Key::NetworkProtocolVersion,
            attribute::NETWORK_PROTOCOL_VERSION,
            "network.protocol.version",
        ),
        (Key::UrlScheme, attribute::URL_SCHEME, "url.scheme"),
        (Key::UrlPath, attribute::URL_PATH, "url.path"),
        (Key::UrlQuery, attribute::URL_QUERY, "url.query"),
        (Key::UrlFull, attribute::URL_FULL, "url.full"),
        (Key::ServerAddress, attribute::SERVER_ADDRESS, "server.address"),
        (Key::ServerPort, attribute::SERVER_PORT, "server.port"),
        (Key::ErrorType, attribute::ERROR_TYPE, "error.type"),
        (Key::ExceptionMessage, attribute::EXCEPTION_MESSAGE, "exception.message"),
        (Key::ExceptionStacktrace, attribute::EXCEPTION_STACKTRACE, "exception.stacktrace"),
    ];
    for (key, constant, name) in names {
        assert_eq!(key.name(), constant);
        assert_eq!(key.name(), name);
    }
}

#[test]
fn instruments_have_the_names_of_the_conventions() {
    let server = Instrument::ServerRequestDuration;
    assert_eq!(server.name(), metric::HTTP_SERVER_REQUEST_DURATION);
    assert_eq!(server.name(), "http.server.request.duration");
    assert_eq!(server.description(), "Duration of HTTP server requests.");
    assert_eq!(server.unit(), "s");
    let active = Instrument::ServerActiveRequests;
    assert_eq!(active.name(), metric::HTTP_SERVER_ACTIVE_REQUESTS);
    assert_eq!(active.name(), "http.server.active_requests");
    assert_eq!(active.description(), "Number of active HTTP server requests.");
    assert_eq!(active.unit(), "{request}");
    assert!(active.bounds().is_empty());
    let client = Instrument::ClientRequestDuration;
    assert_eq!(client.name(), metric::HTTP_CLIENT_REQUEST_DURATION);
    assert_eq!(client.name(), "http.client.request.duration");
    assert_eq!(client.description(), "Duration of HTTP client requests.");
    assert_eq!(client.unit(), "s");
    let seconds: Vec<f64> = client.bounds().into_iter().map(|b| b as f64 / 1000.0).collect();
    assert_eq!(
        seconds,
        vec![0.005, 0.01, 0.025, 0.05, 0.075, 0.1, 0.25, 0.5, 0.75, 1.0, 2.5, 5.0, 7.5, 10.0]
    );
    assert_eq!(client.bounds(), server.bounds());
}

#[test]
fn versions_have_numbers_and_names() {
    let versions = [
        (HttpVersion::Http09, "0.9"),
        (HttpVersion::Http10, "1.0"),
        (HttpVersion::Http11, "1.1"),
        (HttpVersion::Http2, "2.0"),
        (HttpVersion::Http3, "3.0"),
    ];
    for (version, expected) in versions {
        assert_eq!(http_version(version), expected);
        let attributes = AttributeBuilder::builder().with_version(version).build();
        let name = format!("HTTP/{}", expected);
        assert_eq!(attributes, vec![text(Key::NetworkProtocolVersion, &name)]);
    }
}

#[test]
fn statuses_have_three_digits() {
    for code in 0..=u16::MAX {
        match Status::from_u16(code) {
            Ok(status) => {
                assert!((100..=999).contains(&code));
                assert_eq!(status.as_u16(), code);
                assert_eq!(status.as_str(), code.to_string());
                assert_eq!(status.is_client_error(), code / 100 == 4);
                assert_eq!(status.is_server_error(), code / 100 == 5);
            }
            Err(error) => {
                assert_eq!(error, InvalidStatus);
                assert!(!(100..=999).contains(&code));
            }
        }
    }
    assert_eq!(Status::ok().as_u16(), 200);
    assert_eq!(Status::internal_server_error().as_str(), "500");
}

#[test]
fn server_request_is_read_off_its_uri() {
    let extensions = Extensions::new();
    let read = |uri: &str| ServerRequest::new("GET", uri, HttpVersion::Http11, &extensions);

    let request = read("/foo?a=b?c").unwrap();
    assert_eq!(request.method, "GET");
    assert_eq!(request.scheme, None);
    assert_eq!(request.scheme_or_http(), "http");
    assert_eq!(request.path, "/foo");
    assert_eq!(request.query, Some("a=b?c".to_string()));
    assert_eq!(request.route, None);

    let request = read("https://example.org").unwrap();
    assert_eq!(request.scheme_or_http(), "https");
    assert_eq!(request.path, "/");
    assert_eq!(request.query, None);

    assert_eq!(read("/foo?").unwrap().query, Some("".to_string()));
    assert_eq!(read("*").unwrap().path, "*");
    assert_eq!(read("/foo#bar").unwrap().path, "/foo");
    assert_eq!(read(""), Err(InvalidUri));
    assert_eq!(read("/a b"), Err(InvalidUri));
}

#[test]
fn client_request_is_read_off_its_url() {
    let request = ClientRequest::new("POST", "HTTP://User@Example.org:8080/a b").unwrap();
    assert_eq!(request.method, "POST");
    assert_eq!(request.url, "http://User@example.org:8080/a%20b");
    assert_eq!(request.host, "example.org");
    assert_eq!(request.port, Some(8080));

    let request = ClientRequest::new("GET", "http://localhost:80").unwrap();
    assert_eq!(request.url, "http://localhost/");
    assert_eq!(request.port, None);

    let invalid = ClientRequest::new("GET", "/relative");
    assert_eq!(invalid, Err(ClientRequestError::InvalidUrl));
    let hostless = ClientRequest::new("GET", "mailto:someone@example.org");
    assert_eq!(hostless, Err(ClientRequestError::MissingHost));
}

#[test]
fn client_span_needs_a_method_and_a_host() {
    let middleware = ReqwestTracingMiddleware::new();
    let extensions = Extensions::new();
    let start = |method: &str, url: &str| middleware.on_request(method, url, &extensions);
    assert_eq!(start("G ET", "http://h/"), Err(ClientRequestError::InvalidMethod));
    assert_eq!(start("", "http://h/"), Err(ClientRequestError::InvalidMethod));
    for code in 0..=0x7ffu32 {
        let c = char::from_u32(code).unwrap();
        let is_token = c.is_ascii_alphanumeric() || "!#$%&'*+-.^_`|~".contains(c);
        assert_eq!(start(&format!("GET{}", c), "http://h/").is_ok(), is_token);
    }
    assert_eq!(start("GET", "nowhere"), Err(ClientRequestError::InvalidUrl));
    assert_eq!(start("GET", "data:,x"), Err(ClientRequestError::MissingHost));
    let start = start("brew", "http://h:1/").unwrap();
    assert_eq!(start.name, "brew");
    assert_eq!(start.scope, PKG_NAME);
    assert_eq!(start.kind, SpanKind::Client);
    assert_eq!(
        start.attributes,
        vec![
            text(Key::HttpRequestMethod, "brew"),
            text(Key::ServerAddress, "h"),
            text(Key::UrlFull, "http://h:1/"),
            number(Key::ServerPort, 1),
        ]
    );
}

#[test]
fn server_span_without_route_is_named_by_the_method() {
    let middleware = RequestTraceLayer::new_with_provider(()).layer(());
    let start = middleware.on_request(&request(None, Some("a=b")));
    assert_eq!(start.name, "GET");
    assert_eq!(start.scope, "service-common");
    assert_eq!(start.kind, SpanKind::Server);
    assert_eq!(
        start.attributes,
        vec![
            text(Key::HttpRequestMethod, "GET"),
            text(Key::UrlScheme, "http"),
            text(Key::NetworkProtocolVersion, "HTTP/2.0"),
            text(Key::UrlPath, "/foo/1"),
            text(Key::UrlQuery, "a=b"),
        ]
    );
}

#[test]
fn server_span_is_an_error_on_server_errors_alone() {
    let middleware = RequestTraceLayer::new_with_provider(1).layer(2).clone();
    assert_eq!((middleware.tracer_provider, middleware.inner), (1, 2));
    let error = SpanAction::SetErrorStatus { description: "" };
    for (code, is_error) in [(200, false), (404, false), (499, false), (500, true), (599, true)] {
        let answered: Result<_, ()> = Ok(Status::from_u16(code).unwrap());
        let actions = RequestTraceMiddleware::<(), ()>::on_response(&answered).actions;
        assert_eq!(
            actions[0],
            SpanAction::SetAttribute(number(Key::HttpResponseStatusCode, code as i64))
        );
        assert_eq!(actions.contains(&error), is_error);
        assert_eq!(actions.last(), Some(&SpanAction::End));
    }
    let failed: Result<Status, _> = Err("no answer");
    assert_eq!(RequestTraceMiddleware::<(), ()>::on_response(&failed).actions, vec![error, SpanAction::End]);
}

#[test]
fn client_span_and_metric_agree() {
    let tracing = ReqwestTracingMiddleware::new();
    let metrics = ReqwestMetricsMiddleware::with_instrument(());
    let request = ClientRequest::new("GET", "http://h:1/a").unwrap();
    let report = |message: &str| ErrorReport {
        message: message.to_string(),
        stacktrace: "trace".to_string(),
    };
    let status = |code: u16| ClientOutcome::Response(Status::from_u16(code).unwrap());
    for outcome in [
        status(200),
        status(302),
        status(400),
        status(503),
        ClientOutcome::Failure(report("reset")),
    ] {
        let mut of_span = tracing.start_span("name".to_string(), &request).attributes;
        assert_eq!(of_span.remove(2).key, Key::UrlFull);
        for action in ReqwestTracingMiddleware::on_response(&outcome).actions {
            if let SpanAction::SetAttribute(attribute) = action {
                of_span.push(attribute);
            }
        }
        assert_eq!(metrics.on_request(&request).on_response(&outcome), of_span);
        let named = of_span.iter().any(|attribute| attribute.key == Key::ErrorType);
        assert_eq!(named, outcome.error_type().is_some());
    }
}

#[test]
fn active_request_is_counted_until_it_is_answered() {
    let layer = RequestMetricsLayer::with_instruments(1, 2);
    let middleware: RequestMetricsMiddleware<i32, i32, i32> = layer.clone().layer(3);
    assert_eq!(middleware.clone().inner, 3);
    assert_eq!((middleware.request_duration, middleware.active_requests), (1, 2));

    let counted = || vec![text(Key::HttpRequestMethod, "GET"), text(Key::UrlScheme, "http")];
    let request = request(Some("/foo/{id}"), Some("a=b"));
    let (active, action) = middleware.on_request(&request);
    assert_eq!(action, MetricAction::AddActiveRequests { delta: 1, attributes: counted() });
    let answered: Result<_, ()> = Ok(Status::ok());
    assert_eq!(
        active.on_response(&answered),
        vec![
            MetricAction::RecordDuration {
                attributes: vec![
                    text(Key::HttpRequestMethod, "GET"),
                    text(Key::UrlScheme, "http"),
                    text(Key::NetworkProtocolVersion, "HTTP/2.0"),
                    text(Key::HttpRoute, "/foo/{id}"),
                    number(Key::HttpResponseStatusCode, 200),
                ]
            },
            MetricAction::AddActiveRequests { delta: -1, attributes: counted() },
        ]
    );

    let (active, _) = middleware.on_request(&request);
    let failed: Result<Status, _> = Err(());
    assert_eq!(active.on_response(&failed), vec![]);
}

#[test]
fn builder_orders_its_attributes() {
    let attributes = AttributeBuilder::builder()
        .with_status(Status::ok())
        .with_route(&Some("/old".to_string()))
        .with_route(&Some("/a".to_string()))
        .with_route(&None)
        .with_scheme("https")
        .with_method("PUT")
        .build();
    assert_eq!(
        attributes,
        vec![
            text(Key::HttpRequestMethod, "PUT"),
            text(Key::UrlScheme, "https"),
            text(Key::HttpRoute, "/a"),
            number(Key::HttpResponseStatusCode, 200),
        ]
    );
    assert_eq!(AttributeBuilder::builder().build(), vec![]);
}

fn parse(number: &str) -> Result<i32, AppError> {
    Ok(number.parse::<i32>()?)
}

#[test]
fn handler_error_becomes_a_response() {
    assert_eq!(parse("7").ok(), Some(7));
    let error = parse("x").err().unwrap();
    let (actions, response) = error.into_response();
    assert_eq!(response.status.as_u16(), 500);
    assert_eq!(response.body, "Something went wrong: invalid digit found in string");
    let source = anyhow::Error::from("x".parse::<i32>().unwrap_err());
    assert_eq!(
        actions.actions,
        vec![SpanAction::AddEvent {
            name: "exception",
            attributes: vec![
                text(Key::ExceptionMessage, "invalid digit found in string"),
                text(Key::ExceptionStacktrace, &format!("{:?}", source)),
            ]
        }]
    );
    assert_eq!(error_response("").body, "Something went wrong: ");
}

#[test]
fn recorded_error_is_an_event() {
    let event = |message: &str, stacktrace: &str| SpanAction::AddEvent {
        name: "exception",
        attributes: vec![
            text(Key::ExceptionMessage, message),
            text(Key::ExceptionStacktrace, stacktrace),
        ],
    };
    let mut actions = SpanActions::new();
    actions.push(SpanAction::LogError);
    let report = ErrorReport { message: "m".to_string(), stacktrace: "s".to_string() };
    actions.record_error_ext(&report);
    let error = anyhow::Error::msg("outer");
    actions.record_error_ext(&error);
    assert_eq!(
        actions.actions,
        vec![SpanAction::LogError, event("m", "s"), event("outer", &format!("{:?}", error))]
    );
    assert_eq!(ErrorReport::of_anyhow(&error).message, "outer");
}

#[test]
fn any_error_is_reported() {
    let error = "x".parse::<i32>().unwrap_err();
    let report = ErrorReport::of(&error);
    assert_eq!(report.message, "invalid digit found in string");
    assert_eq!(report.stacktrace, "ParseIntError {\n    kind: InvalidDigit,\n}");

    let error: &dyn std::error::Error = &error;
    assert_eq!(ErrorReport::of(error), report);

    let (actions, response) = AppError::from("x".parse::<i32>().unwrap_err()).into_response();
    assert_eq!(response.body, format!("Something went wrong: {}", error));
    assert_eq!(actions.actions.len(), 1);
}

#[test]
fn requests_are_read_off_parsed_parts() {
    let uri = || UriParts {
        scheme: Some("https".to_string()),
        path: "/a".to_string(),
        query: Some("b".to_string()),
    };
    let extensions = Extensions::new();
    assert_eq!(
        ServerRequest::of_parts("GET", uri(), HttpVersion::Http11, &extensions),
        ServerRequest::new("GET", "https://h/a?b", HttpVersion::Http11, &extensions).unwrap()
    );

    let url = |host: Option<&str>| UrlParts {
        text: "http://h:81/a".to_string(),
        host: host.map(|host| host.to_string()),
        port: Some(81),
    };
    assert_eq!(
        ClientRequest::of_parts("GET", url(Some("h"))),
        ClientRequest::new("GET", "http://h:81/a")
    );
    assert_eq!(ClientRequest::of_parts("GET", url(None)), Err(ClientRequestError::MissingHost));
}

#[test]
fn recorded_error_keeps_its_causes() {
    let error = anyhow::Error::msg("root").context("outer");
    let report = ErrorReport::of_anyhow(&error);
    assert_eq!(report.message, "outer");
    assert!(report.stacktrace.starts_with("outer\n\nCaused by:\n    root"));
    assert_eq!(report.stacktrace, format!("{:?}", error));

    let mut recorded = SpanActions::new();
    recorded.record_error_ext(&error);
    let event = vec![SpanAction::AddEvent {
        name: "exception",
        attributes: vec![
            text(Key::ExceptionMessage, "outer"),
            text(Key::ExceptionStacktrace, &report.stacktrace),
        ],
    }];
    assert_eq!(recorded.actions, event);

    let (actions, response) = AppError::from(error).into_response();
    assert_eq!(response.body, "Something went wrong: outer");
    assert_eq!(actions.actions, event);
}

fn player(id: &str, position: Option<&str>) -> SleeperPlayer {
    SleeperPlayer {
        player_id: id.to_string(),
        first_name: "First".to_string(),
        last_name: "Last".to_string(),
        active: true,
        position: position.map(|position| position.to_string()),
        team: Some("KC".to_string()),
        status: None,
        injury_status: Some("Out".to_string()),
    }
}

#[test]
fn players_of_the_kept_positions_are_written() {
    let positions = ["QB", "LB", "RB", "WR", "qb", "TE", "K", "DEF", "P", "", "DE"];
    let mut players: Vec<_> = positions.iter().map(|p| player(p, Some(*p))).collect();
    players.insert(3, player("none", None));
    let mut update = PlayerUpdate::new(players);
    for position in ["QB", "RB", "WR", "TE", "K", "DEF"] {
        assert_eq!(
            update.step(Ok::<(), ()>(())),
            UpdateStep::Execute(vec![
                SqlValue::Text(position.to_string()),
                SqlValue::Text("First".to_string()),
                SqlValue::Text("Last".to_string()),
                SqlValue::Flag(true),
                SqlValue::OptionalText(Some(position.to_string())),
                SqlValue::OptionalText(Some("KC".to_string())),
                SqlValue::OptionalText(None),
                SqlValue::OptionalText(Some("Out".to_string())),
            ])
        );
    }
    assert_eq!(update.step(Ok::<(), ()>(())), UpdateStep::Done(Ok(())));
    assert_eq!(update.step(Ok::<(), ()>(())), UpdateStep::Done(Ok(())));
}

#[test]
fn update_stops_where_a_statement_fails() {
    let mut update = PlayerUpdate::new(vec![
        player("a", Some("QB")),
        player("b", Some("LB")),
        player("c", Some("K")),
        player("d", Some("TE")),
    ]);
    let written = |step: UpdateStep<&str>| match step {
        UpdateStep::Execute(values) => format!("{:?}", values[0]),
        UpdateStep::Done(result) => format!("{:?}", result),
    };
    assert_eq!(written(update.step(Ok(()))), "Text(\"a\")");
    assert_eq!(written(update.step(Ok(()))), "Text(\"c\")");
    assert_eq!(written(update.step(Err("no connection"))), "Err(\"no connection\")");
    // the player behind the failure is still pending
    assert_eq!(written(update.step(Ok(()))), "Text(\"d\")");
}

#[test]
fn statement_has_a_place_for_each_value() {
    let values = player("1", None).into_values();
    assert_eq!(UPSERT_PLAYER.matches('$').count(), values.len());
    let columns = "players(id, first_name, last_name, active, position, team, status, injury_status)";
    assert!(UPSERT_PLAYER.contains(columns));
    assert!(UPSERT_PLAYER.contains("($1, $2, $3, $4, $5, $6, $7, $8)"));
}

#[test]
fn order_of_the_list_does_not_change_what_is_written() {
    let list = |ids: [&str; 3]| ids.map(|id| player(id, Some(if id == "b" { "C" } else { "K" })));
    let written = |players: [SleeperPlayer; 3]| {
        let mut update = PlayerUpdate::new(players.into());
        let mut written = Vec::new();
        while let UpdateStep::Execute(values) = update.step(Ok::<(), ()>(())) {
            written.push(format!("{:?}", values));
        }
        written.sort();
        written
    };
    assert_eq!(written(list(["a", "b", "c"])), written(list(["c", "a", "b"])));
    assert_eq!(written(list(["a", "b", "c"])).len(), 2);
}

#[test]
fn ping_reports_the_delay_of_the_backend() {
    let (status, delay) = delayed(0.25);
    assert_eq!(status.as_u16(), 200);
    let (status, ping) = pong(BackendResponse { seconds: delay.seconds });
    assert_eq!(status.as_u16(), 200);
    assert_eq!(ping.ping, "Pong");
    assert_eq!(ping.delay_seconds, 0.25);
    assert_eq!(API_ADDRESS, "127.0.0.1:3000");
    assert_eq!(BACKEND_ADDRESS, "127.0.0.1:3001");
    assert_eq!(BACKEND_URL, format!("http://localhost:3001{}", BACKEND_PATH));
}

#[test]
fn logs_of_the_service_are_exported() {
    assert_eq!(
        log_directives("api_service"),
        vec![
            "api_service=trace",
            "service_common=trace",
            "hyper=off",
            "tonic=off",
            "h2=off",
            "reqwest=off",
            "tower=off",
            "tower_http=trace",
            "axum=trace",
        ]
    );
}
