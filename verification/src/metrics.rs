use vstd::prelude::*;
use crate::http::{Body, HttpResponse, STATUS_OK};

verus! {

#[verifier::external_type_specification]
#[verifier::external_body]
pub struct ExCollector(metrics_process::Collector);

#[verifier::external_type_specification]
#[verifier::external_body]
pub struct ExPrometheusHandle(axum_prometheus::metrics_exporter_prometheus::PrometheusHandle);

/// Relies on metrics_process::Collector::collect: one collection pass that
/// samples the process's resources into the metrics registry.
#[verifier::external_body]
fn collect_process_metrics(collector: &metrics_process::Collector) {
    collector.collect();
}

/// Relies on PrometheusHandle::render (metrics-exporter-prometheus): a
/// snapshot of the registry in the metrics exposition format. The registry
/// accumulates concurrently, so nothing is said of the text.
#[verifier::external_body]
fn render_registry(handle: &axum_prometheus::metrics_exporter_prometheus::PrometheusHandle) -> (r:
    String)
{
    handle.render()
}

/// Serve the metrics scrape route: run one process-resource collection
/// pass, then serialize the whole registry. The scrape succeeds whatever
/// the registry holds.
pub fn metrics_response(
    collector: &metrics_process::Collector,
    handle: &axum_prometheus::metrics_exporter_prometheus::PrometheusHandle,
) -> (r: HttpResponse)
    ensures
        r.status == STATUS_OK,
        r.content_type is None,
        r.body is Text,
{
    collect_process_metrics(collector);
    let text = render_registry(handle);
    HttpResponse { status: STATUS_OK, content_type: None, body: Body::Text(text) }
}

} // verus!
