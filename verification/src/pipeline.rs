use vstd::prelude::*;
use crate::assets::{
    fs_read_plan, resolution_of, AssetStore, Resolution,
};
use crate::http::{
    is_plain_status, plain_status, Body, HttpResponse, STATUS_INTERNAL_ERROR, STATUS_NOT_FOUND,
    STATUS_OK, STATUS_UNAVAILABLE,
};
use crate::readiness::ReadinessFlag;
use crate::routes::{match_route, route_of, Route, RouteV};
use crate::templates::{ctx_view, render_of, CtxVal, CtxValue, TemplateSet, TemplateSetV};

verus! {

impl View for Resolution {
    type V = Option<(Seq<u8>, Seq<char>)>;

    open spec fn view(&self) -> Option<(Seq<u8>, Seq<char>)> {
        match self {
            Resolution::Found { body, content_type } => Some((body@, content_type@)),
            Resolution::NotFound => None,
        }
    }
}

/// The response owed for an asset resolution: the bytes under their content
/// type on a hit, an empty not-found response on a miss.
pub open spec fn asset_response_spec(res: Option<(Seq<u8>, Seq<char>)>, r: HttpResponse) -> bool {
    match res {
        Some(found) => {
            &&& r.status == STATUS_OK
            &&& r.content_type matches Some(c) && c@ == found.1
            &&& r.body matches Body::Bytes(b) && b@ == found.0
        },
        None => is_plain_status(r, STATUS_NOT_FOUND),
    }
}

/// Turn an asset resolution into the response served for it.
pub fn asset_response(res: Resolution) -> (r: HttpResponse)
    ensures
        asset_response_spec(res@, r),
{
    match res {
        Resolution::Found { body, content_type } => HttpResponse {
            status: STATUS_OK,
            content_type: Some(content_type),
            body: Body::Bytes(body),
        },
        Resolution::NotFound => plain_status(STATUS_NOT_FOUND),
    }
}

/// Serve the liveness probe: healthy whenever the process answers at all.
pub fn live_response() -> (r: HttpResponse)
    ensures
        is_plain_status(r, STATUS_OK),
{
    plain_status(STATUS_OK)
}

/// The response owed for the readiness probe.
pub open spec fn ready_response_spec(ready: bool, r: HttpResponse) -> bool {
    is_plain_status(
        r,
        if ready {
            STATUS_OK
        } else {
            STATUS_UNAVAILABLE
        },
    )
}

/// Serve the readiness probe: available once the startup-complete signal
/// has fired, unavailable before.
pub fn ready_response(flag: &ReadinessFlag) -> (r: HttpResponse)
    ensures
        ready_response_spec(flag@, r),
{
    if flag.is_ready() {
        plain_status(STATUS_OK)
    } else {
        plain_status(STATUS_UNAVAILABLE)
    }
}

/// Serve the favicon route from the embedded store, whatever strategy the
/// asset namespace uses.
pub fn favicon_response(store: &AssetStore) -> (r: HttpResponse)
    ensures
        asset_response_spec(resolution_of(store@, "favicon.ico"@), r),
{
    asset_response(store.resolve("favicon.ico"))
}

/// The home page context: the page title.
pub open spec fn home_ctx() -> Seq<(Seq<char>, CtxVal)> {
    seq![("title"@, CtxVal::Text("Home"@))]
}

/// The template of the home route: the partial variant when the request
/// signals it already holds the page shell.
pub open spec fn home_template(partial: bool) -> Seq<char> {
    if partial {
        "_index.html"@
    } else {
        "index.html"@
    }
}

/// The response owed for the home route: the rendered page on success, an
/// internal error — never an aborted request — when the template is absent
/// or refuses to render.
pub open spec fn home_response_spec(ts: TemplateSetV, partial: bool, r: HttpResponse) -> bool {
    match render_of(ts, home_template(partial), home_ctx()) {
        Some(out) => {
            &&& r.status == STATUS_OK
            &&& r.content_type matches Some(c) && c@ == "text/html; charset=utf-8"@
            &&& r.body matches Body::Text(t) && t@ == out
        },
        None => is_plain_status(r, STATUS_INTERNAL_ERROR),
    }
}

/// Serve the home route: pick the full or the partial template, render it
/// under the page title, and answer with the markup.
pub fn home_response(ts: &TemplateSet, partial: bool) -> (r: HttpResponse)
    ensures
        home_response_spec(ts@, partial, r),
{
    let name = if partial {
        "_index.html"
    } else {
        "index.html"
    };
    let mut ctx: Vec<(String, CtxValue)> = Vec::new();
    ctx.push(("title".to_owned(), CtxValue::Text("Home".to_owned())));
    proof {
        assert(ctx_view(ctx@) =~= home_ctx());
    }
    match ts.render(name, &ctx) {
        Ok(out) => HttpResponse {
            status: STATUS_OK,
            content_type: Some("text/html; charset=utf-8".to_owned()),
            body: Body::Text(out),
        },
        Err(_) => plain_status(STATUS_INTERNAL_ERROR),
    }
}

/// Which strategy serves the asset namespace, chosen once at startup: bytes
/// embedded in the deployed binary, or live reads from a directory.
pub enum AssetMode {
    Embedded,
    Filesystem,
}

/// Process-wide state shared by every request handler: constructed once
/// before the server accepts connections and read-only afterwards.
pub struct App {
    pub templates: TemplateSet,
    pub embedded: AssetStore,
    pub mode: AssetMode,
}

/// What serving one request needs next: a finished response; a scrape of
/// the metrics registry (served by `metrics_response`); or a storage read
/// of the planned asset path, which the caller performs and hands to
/// `resolve_fs`.
pub enum Dispatch {
    Done(HttpResponse),
    Scrape,
    ReadAsset(String),
}

/// The full request pipeline's obligation: what each bound route must
/// answer, and not-found for everything else.
pub open spec fn handle_spec(
    app: &App,
    ready: bool,
    m: Seq<char>,
    p: Seq<char>,
    partial: bool,
    r: Dispatch,
) -> bool {
    match route_of(m, p) {
        RouteV::Home => r matches Dispatch::Done(resp) && home_response_spec(
            app.templates@,
            partial,
            resp,
        ),
        RouteV::HealthLive => r matches Dispatch::Done(resp) && is_plain_status(resp, STATUS_OK),
        RouteV::HealthReady => r matches Dispatch::Done(resp) && ready_response_spec(ready, resp),
        RouteV::Favicon => r matches Dispatch::Done(resp) && asset_response_spec(
            resolution_of(app.embedded@, "favicon.ico"@),
            resp,
        ),
        RouteV::Metrics => r matches Dispatch::Scrape,
        RouteV::Asset(sub) => match app.mode {
            AssetMode::Embedded => r matches Dispatch::Done(resp) && asset_response_spec(
                resolution_of(app.embedded@, sub),
                resp,
            ),
            AssetMode::Filesystem => match fs_read_plan(sub) {
                Some(n) => r matches Dispatch::ReadAsset(q) && q@ == n,
                None => r matches Dispatch::Done(resp) && is_plain_status(resp, STATUS_NOT_FOUND),
            },
        },
        RouteV::NotFound => r matches Dispatch::Done(resp) && is_plain_status(
            resp,
            STATUS_NOT_FOUND,
        ),
    }
}

impl App {
    /// Dispatch one request through the pipeline: route the method and
    /// path, serve the route's handler, and answer not-found — never an
    /// abort — for unknown routes and unknown assets.
    pub fn handle_request(&self, flag: &ReadinessFlag, method: &str, path: &str, partial: bool) -> (r:
        Dispatch)
        ensures
            handle_spec(self, flag@, method@, path@, partial, r),
    {
        match match_route(method, path) {
            Route::Home => Dispatch::Done(home_response(&self.templates, partial)),
            Route::HealthLive => Dispatch::Done(live_response()),
            Route::HealthReady => Dispatch::Done(ready_response(flag)),
            Route::Favicon => Dispatch::Done(favicon_response(&self.embedded)),
            Route::Metrics => Dispatch::Scrape,
            Route::Asset(sub) => match self.mode {
                AssetMode::Embedded => Dispatch::Done(
                    asset_response(self.embedded.resolve(sub.as_str())),
                ),
                AssetMode::Filesystem => match crate::assets::plan_fs_read(sub.as_str()) {
                    Some(n) => Dispatch::ReadAsset(n),
                    None => Dispatch::Done(plain_status(STATUS_NOT_FOUND)),
                },
            },
            Route::NotFound => Dispatch::Done(plain_status(STATUS_NOT_FOUND)),
        }
    }
}

/// An unknown route is answered not found — an empty response with that
/// status, never an internal error and never an abort.
pub proof fn lemma_unknown_route_not_found(
    app: &App,
    ready: bool,
    m: Seq<char>,
    p: Seq<char>,
    partial: bool,
    r: Dispatch,
)
    requires
        handle_spec(app, ready, m, p, partial, r),
        route_of(m, p) is NotFound,
    ensures
        r matches Dispatch::Done(resp) && is_plain_status(resp, STATUS_NOT_FOUND),
{
}

/// An unknown asset path under the embedded strategy is answered not found
/// — an empty response with that status, never an internal error.
pub proof fn lemma_unknown_asset_not_found(
    app: &App,
    ready: bool,
    m: Seq<char>,
    p: Seq<char>,
    sub: Seq<char>,
    partial: bool,
    r: Dispatch,
)
    requires
        handle_spec(app, ready, m, p, partial, r),
        route_of(m, p) == RouteV::Asset(sub),
        app.mode is Embedded,
        resolution_of(app.embedded@, sub) is None,
    ensures
        r matches Dispatch::Done(resp) && is_plain_status(resp, STATUS_NOT_FOUND),
{
}

} // verus!
