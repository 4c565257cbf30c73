use web_scaffold::assets::AssetStore;
use web_scaffold::http::{Body, HttpResponse};
use web_scaffold::pipeline::{App, AssetMode, Dispatch};
use web_scaffold::readiness::ReadinessFlag;
use web_scaffold::templates::TemplateSet;

const FULL_PAGE: &str = "<html><head><title>{{ title }}</title></head><body><h1>{{ title }}</h1><div id=\"content\">welcome</div></body></html>";
const FRAGMENT: &str = "<div id=\"content\">welcome</div>";

fn sample_app(mode: AssetMode) -> App {
    let templates = TemplateSet::new(
        Vec::new(),
        vec![
            ("index.html".to_owned(), FULL_PAGE.to_owned()),
            ("_index.html".to_owned(), FRAGMENT.to_owned()),
        ],
    );
    let embedded = AssetStore::from_entries(vec![
        ("site.css".to_owned(), b"body { margin: 0; }".to_vec()),
        ("favicon.ico".to_owned(), vec![0u8, 1, 2, 3]),
    ]);
    App { templates, embedded, mode }
}

fn done(d: Dispatch) -> HttpResponse {
    match d {
        Dispatch::Done(r) => r,
        _ => panic!("expected a finished response"),
    }
}

fn text_body(r: &HttpResponse) -> &str {
    match &r.body {
        Body::Text(t) => t.as_str(),
        Body::Bytes(_) => panic!("expected a text body"),
    }
}

#[test]
fn home_without_the_header_serves_the_full_shell() {
    let app = sample_app(AssetMode::Embedded);
    let flag = ReadinessFlag::new();
    let r = done(app.handle_request(&flag, "GET", "/", false));
    assert_eq!(r.status, 200);
    assert_eq!(r.content_type, Some("text/html; charset=utf-8".to_owned()));
    let body = text_body(&r).to_owned();
    assert!(body.contains("<html>"));
    assert!(body.contains("<title>Home</title>"));
    assert!(body.contains("welcome"));
}

#[test]
fn home_with_the_partial_header_serves_only_the_fragment() {
    let app = sample_app(AssetMode::Embedded);
    let flag = ReadinessFlag::new();
    let r = done(app.handle_request(&flag, "GET", "/", true));
    assert_eq!(r.status, 200);
    let body = text_body(&r).to_owned();
    assert!(!body.contains("<html>"));
    assert!(!body.contains("<title>"));
    assert!(body.contains("welcome"));
}

#[test]
fn readiness_flips_from_unavailable_to_ok() {
    let app = sample_app(AssetMode::Embedded);
    let mut flag = ReadinessFlag::new();
    let before = done(app.handle_request(&flag, "GET", "/health/ready", false));
    assert_eq!(before.status, 503);
    flag.mark_ready();
    let after = done(app.handle_request(&flag, "GET", "/health/ready", false));
    assert_eq!(after.status, 200);
    let still = done(app.handle_request(&flag, "GET", "/health/ready", false));
    assert_eq!(still.status, 200);
}

#[test]
fn liveness_is_ok_before_readiness() {
    let app = sample_app(AssetMode::Embedded);
    let flag = ReadinessFlag::new();
    let r = done(app.handle_request(&flag, "GET", "/health/live", false));
    assert_eq!(r.status, 200);
}

#[test]
fn missing_asset_is_not_found_under_the_embedded_strategy() {
    let app = sample_app(AssetMode::Embedded);
    let flag = ReadinessFlag::new();
    let r = done(app.handle_request(&flag, "GET", "/assets/missing.txt", false));
    assert_eq!(r.status, 404);
}

#[test]
fn missing_asset_is_not_found_under_the_filesystem_strategy() {
    let app = sample_app(AssetMode::Filesystem);
    let flag = ReadinessFlag::new();
    match app.handle_request(&flag, "GET", "/assets/missing.txt", false) {
        Dispatch::ReadAsset(path) => {
            assert_eq!(path, "missing.txt");
            let r = web_scaffold::pipeline::asset_response(web_scaffold::assets::resolve_fs(
                &path, None,
            ));
            assert_eq!(r.status, 404);
        }
        _ => panic!("expected a storage read plan"),
    }
}

#[test]
fn present_asset_is_served_with_its_content_type() {
    let app = sample_app(AssetMode::Embedded);
    let flag = ReadinessFlag::new();
    let r = done(app.handle_request(&flag, "GET", "/assets/site.css", false));
    assert_eq!(r.status, 200);
    assert_eq!(r.content_type, Some("text/css".to_owned()));
    match &r.body {
        Body::Bytes(b) => assert_eq!(b, &b"body { margin: 0; }".to_vec()),
        Body::Text(_) => panic!("expected asset bytes"),
    }
}

#[test]
fn traversal_under_the_asset_namespace_is_not_found() {
    let app = sample_app(AssetMode::Embedded);
    let flag = ReadinessFlag::new();
    let r = done(app.handle_request(&flag, "GET", "/assets/../site.css", false));
    assert_eq!(r.status, 404);
    let fs_app = sample_app(AssetMode::Filesystem);
    let fs = fs_app.handle_request(&flag, "GET", "/assets/../site.css", false);
    match fs {
        Dispatch::Done(r) => assert_eq!(r.status, 404),
        _ => panic!("a traversal path must never reach storage"),
    }
}

#[test]
fn favicon_comes_from_the_embedded_store_in_both_modes() {
    let flag = ReadinessFlag::new();
    for mode in [AssetMode::Embedded, AssetMode::Filesystem] {
        let app = sample_app(mode);
        let r = done(app.handle_request(&flag, "GET", "/favicon.ico", false));
        assert_eq!(r.status, 200);
        match &r.body {
            Body::Bytes(b) => assert_eq!(b, &vec![0u8, 1, 2, 3]),
            Body::Text(_) => panic!("expected favicon bytes"),
        }
    }
}

#[test]
fn unknown_route_is_not_found_never_an_error() {
    let app = sample_app(AssetMode::Embedded);
    let flag = ReadinessFlag::new();
    for path in ["/nope", "/health", "/assets", "/index.html"] {
        let r = done(app.handle_request(&flag, "GET", path, false));
        assert_eq!(r.status, 404);
    }
}

#[test]
fn metrics_route_dispatches_to_a_scrape() {
    let app = sample_app(AssetMode::Embedded);
    let flag = ReadinessFlag::new();
    assert!(matches!(
        app.handle_request(&flag, "GET", "/metrics", false),
        Dispatch::Scrape
    ));
}

#[test]
fn metrics_scrape_counts_the_home_route_after_one_hit() {
    let runtime = tokio::runtime::Runtime::new().unwrap();
    runtime.block_on(async {
        let collector = metrics_process::Collector::default();
        collector.describe();
        let (layer, handle) = axum_prometheus::PrometheusMetricLayer::pair();
        let app = std::sync::Arc::new(sample_app(AssetMode::Embedded));
        let handler = {
            let app = app.clone();
            move || {
                let app = app.clone();
                async move {
                    let r = web_scaffold::pipeline::home_response(&app.templates, false);
                    let body = match r.body {
                        Body::Text(t) => t,
                        Body::Bytes(_) => String::new(),
                    };
                    axum::response::Html(body)
                }
            }
        };
        let router = axum::Router::new()
            .route("/", axum::routing::get(handler))
            .layer(layer);
        let request = axum::http::Request::builder()
            .uri("/")
            .body(axum::body::Body::empty())
            .unwrap();
        let response = tower::ServiceExt::oneshot(router, request).await.unwrap();
        assert_eq!(response.status(), 200);

        let r = web_scaffold::metrics::metrics_response(&collector, &handle);
        assert_eq!(r.status, 200);
        let text = match r.body {
            Body::Text(t) => t,
            Body::Bytes(_) => panic!("the exposition format is text"),
        };
        assert!(text.contains("axum_http_requests_total"));
        assert!(text.contains("endpoint=\"/\""));
    });
}

#[test]
fn missing_favicon_is_not_found() {
    let app = App {
        templates: TemplateSet::new(Vec::new(), Vec::new()),
        embedded: AssetStore::from_entries(Vec::new()),
        mode: AssetMode::Embedded,
    };
    let flag = ReadinessFlag::new();
    let r = done(app.handle_request(&flag, "GET", "/favicon.ico", false));
    assert_eq!(r.status, 404);
}
