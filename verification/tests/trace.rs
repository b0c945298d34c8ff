use std::io::Write;
use std::sync::{Arc, Mutex};

use axum::body::Body;
use axum::http::{Method, Request, StatusCode};
use backend::routes::assemble;
use tower::ServiceExt;

struct Sink(Arc<Mutex<Vec<u8>>>);

impl Write for Sink {
    fn write(&mut self, bytes: &[u8]) -> std::io::Result<usize> {
        self.0.lock().unwrap().extend_from_slice(bytes);
        Ok(bytes.len())
    }

    fn flush(&mut self) -> std::io::Result<()> {
        Ok(())
    }
}

/// Sends the requests one after another and returns the lines that were
/// logged at `max_level` or above.
fn logged(max_level: tracing::Level, requests: Vec<(Method, String)>) -> Vec<String> {
    let written = Arc::new(Mutex::new(Vec::new()));
    let sink = written.clone();
    let subscriber = tracing_subscriber::fmt()
        .with_target(false)
        .with_ansi(false)
        .compact()
        .with_max_level(max_level)
        .with_writer(move || Sink(sink.clone()))
        .finish();
    tracing::subscriber::with_default(subscriber, || {
        let runtime = tokio::runtime::Builder::new_current_thread()
            .enable_all()
            .build()
            .unwrap();
        let app = assemble();
        for (method, path) in requests {
            let request = Request::builder()
                .method(method)
                .uri(path.as_str())
                .body(Body::empty())
                .unwrap();
            let response = runtime.block_on(app.clone().oneshot(request)).unwrap();
            let status = response.status();
            runtime
                .block_on(axum::body::to_bytes(response.into_body(), 1 << 20))
                .unwrap();
            assert!(status == StatusCode::OK || status == StatusCode::NOT_FOUND);
        }
    });
    let bytes = written.lock().unwrap().clone();
    String::from_utf8(bytes)
        .unwrap()
        .lines()
        .map(String::from)
        .collect()
}

#[test]
fn request_is_logged_once_at_info_level_inside_its_span() {
    let lines = logged(
        tracing::Level::INFO,
        vec![(Method::GET, String::from("/api/hello"))],
    );
    assert_eq!(lines.len(), 1);
    assert!(lines[0].contains("INFO"));
    assert!(lines[0].contains("request"));
    assert!(lines[0].contains("method=GET"));
    assert!(lines[0].contains("uri=/api/hello"));
    assert!(lines[0].contains("finished processing request"));
    assert!(lines[0].contains("status=200"));
}

#[test]
fn every_request_gets_a_line_of_its_own_in_the_order_served() {
    let lines = logged(
        tracing::Level::INFO,
        vec![
            (Method::GET, String::from("/api/hello")),
            (Method::GET, String::from("/api/missing")),
            (Method::GET, String::from("/api/hello?again")),
        ],
    );
    assert_eq!(lines.len(), 3);
    assert!(lines[0].contains("uri=/api/hello") && lines[0].contains("status=200"));
    assert!(lines[1].contains("uri=/api/missing") && lines[1].contains("status=404"));
    assert!(lines[2].contains("uri=/api/hello?again") && lines[2].contains("status=200"));
}

#[test]
fn span_and_response_are_silent_above_info_level() {
    let lines = logged(
        tracing::Level::WARN,
        vec![(Method::GET, String::from("/api/hello"))],
    );
    assert_eq!(lines, Vec::<String>::new());
}

#[test]
fn at_debug_level_the_response_line_stands_between_start_and_end() {
    let lines = logged(
        tracing::Level::DEBUG,
        vec![(Method::GET, String::from("/api/hello"))],
    );
    let info: Vec<&String> = lines.iter().filter(|line| line.contains("INFO")).collect();
    assert_eq!(info.len(), 1);
    assert!(info[0].contains("finished processing request"));
    assert_eq!(lines.len(), 3);
    assert!(lines[0].contains("DEBUG") && lines[0].contains("started processing request"));
    assert!(lines[1].contains("INFO") && lines[1].contains("finished processing request"));
    assert!(lines[2].contains("DEBUG") && lines[2].contains("end of stream"));
    for line in lines.iter() {
        assert!(line.contains("request") && line.contains("uri=/api/hello"));
    }
}
