use web_scaffold::templates::{CtxValue, RenderError, TemplateSet};

const FULL_PAGE: &str = "<html><head><title>{{ title }}</title></head><body><h1>{{ title }}</h1><div id=\"content\">welcome</div></body></html>";
const FRAGMENT: &str = "<div id=\"content\">welcome</div>";

fn embedded_defaults() -> Vec<(String, String)> {
    vec![
        ("index.html".to_owned(), FULL_PAGE.to_owned()),
        ("_index.html".to_owned(), FRAGMENT.to_owned()),
    ]
}

fn title_ctx() -> Vec<(String, CtxValue)> {
    vec![("title".to_owned(), CtxValue::Text("Home".to_owned()))]
}

#[test]
fn render_substitutes_the_context() {
    let ts = TemplateSet::new(Vec::new(), embedded_defaults());
    let out = ts.render("index.html", &title_ctx()).unwrap();
    assert!(out.contains("<title>Home</title>"));
    assert!(out.contains("<h1>Home</h1>"));
    assert!(!out.contains("{{"));
}

#[test]
fn render_is_deterministic_across_calls() {
    let ts = TemplateSet::new(Vec::new(), embedded_defaults());
    let first = ts.render("index.html", &title_ctx()).unwrap();
    for _ in 0..8 {
        let again = ts.render("index.html", &title_ctx()).unwrap();
        assert_eq!(first, again);
    }
}

#[test]
fn disk_template_overrides_embedded_default() {
    let disk = vec![("index.html".to_owned(), "custom {{ title }}".to_owned())];
    let ts = TemplateSet::new(disk, embedded_defaults());
    assert_eq!(ts.lookup("index.html"), Some("custom {{ title }}".to_owned()));
    let out = ts.render("index.html", &title_ctx()).unwrap();
    assert_eq!(out, "custom Home");
}

#[test]
fn removing_the_disk_entry_restores_the_default() {
    let ts = TemplateSet::new(Vec::new(), embedded_defaults());
    assert_eq!(ts.lookup("index.html"), Some(FULL_PAGE.to_owned()));
}

#[test]
fn unresolved_name_is_an_error_not_an_empty_page() {
    let ts = TemplateSet::new(Vec::new(), embedded_defaults());
    assert!(matches!(
        ts.render("absent.html", &title_ctx()),
        Err(RenderError::UnknownTemplate)
    ));
}

#[test]
fn engine_refusal_is_reported() {
    let disk = vec![("bad.html".to_owned(), "{% if %}".to_owned())];
    let ts = TemplateSet::new(disk, embedded_defaults());
    assert!(matches!(
        ts.render("bad.html", &title_ctx()),
        Err(RenderError::RenderFailed(_))
    ));
}

#[test]
fn boolean_and_numeric_context_values_render() {
    let disk = vec![(
        "cond.html".to_owned(),
        "{% if flag %}on{% endif %}:{{ n }}".to_owned(),
    )];
    let ts = TemplateSet::new(disk, Vec::new());
    let ctx = vec![
        ("flag".to_owned(), CtxValue::Flag(true)),
        ("n".to_owned(), CtxValue::Number(7)),
    ];
    assert_eq!(ts.render("cond.html", &ctx).unwrap(), "on:7");
}
