use vstd::prelude::*;
use vstd::string::StrSliceExecFns;
use crate::text::{is_prefix, str_eq, str_starts_with, str_suffix};

verus! {

/// The routes the server binds: one page route, two health probes, a favicon
/// route, a metrics scrape route, and one static-asset namespace. `Asset`
/// carries the path below the asset namespace.
pub enum Route {
    Home,
    HealthLive,
    HealthReady,
    Favicon,
    Metrics,
    Asset(String),
    NotFound,
}

/// Mathematical counterpart of `Route`, with the asset path as a character
/// sequence.
pub enum RouteV {
    Home,
    HealthLive,
    HealthReady,
    Favicon,
    Metrics,
    Asset(Seq<char>),
    NotFound,
}

impl View for Route {
    type V = RouteV;

    open spec fn view(&self) -> RouteV {
        match self {
            Route::Home => RouteV::Home,
            Route::HealthLive => RouteV::HealthLive,
            Route::HealthReady => RouteV::HealthReady,
            Route::Favicon => RouteV::Favicon,
            Route::Metrics => RouteV::Metrics,
            Route::Asset(s) => RouteV::Asset(s@),
            Route::NotFound => RouteV::NotFound,
        }
    }
}

/// The route bound to a method and path. Binding is static: exactly the
/// listed path/method pairs dispatch to a handler, everything else is not
/// found.
pub open spec fn route_of(m: Seq<char>, p: Seq<char>) -> RouteV {
    if m != "GET"@ {
        RouteV::NotFound
    } else if p == "/"@ {
        RouteV::Home
    } else if p == "/health/live"@ {
        RouteV::HealthLive
    } else if p == "/health/ready"@ {
        RouteV::HealthReady
    } else if p == "/favicon.ico"@ {
        RouteV::Favicon
    } else if p == "/metrics"@ {
        RouteV::Metrics
    } else if is_prefix("/assets/"@, p) {
        RouteV::Asset(p.subrange("/assets/"@.len() as int, p.len() as int))
    } else {
        RouteV::NotFound
    }
}

/// Dispatch a method and path to the route bound to it.
pub fn match_route(method: &str, path: &str) -> (r: Route)
    ensures
        r@ == route_of(method@, path@),
{
    if !str_eq(method, "GET") {
        Route::NotFound
    } else if str_eq(path, "/") {
        Route::Home
    } else if str_eq(path, "/health/live") {
        Route::HealthLive
    } else if str_eq(path, "/health/ready") {
        Route::HealthReady
    } else if str_eq(path, "/favicon.ico") {
        Route::Favicon
    } else if str_eq(path, "/metrics") {
        Route::Metrics
    } else if str_starts_with(path, "/assets/") {
        let pre = "/assets/";
        Route::Asset(str_suffix(path, pre.unicode_len()))
    } else {
        Route::NotFound
    }
}

} // verus!
