//! The parameters of a layer that records span latencies into Prometheus
//! histograms.
use vstd::prelude::*;

verus! {

/// `prometheus::Error`, carried opaquely.
#[verifier::external_type_specification]
#[verifier::external_body]
pub struct ExPrometheusError(prometheus::Error);

/// Why a span latency layer could not be made.
pub enum PrometheusSpanError {
    /// num_buckets must be positive >= 1
    ZeroOrNegativeNumBuckets,
    PromError(prometheus::Error),
}

impl From<prometheus::Error> for PrometheusSpanError {
    fn from(err: prometheus::Error) -> (r: Self) {
        PrometheusSpanError::PromError(err)
    }
}

impl vstd::std_specs::convert::FromSpecImpl<prometheus::Error> for PrometheusSpanError {
    open spec fn obeys_from_spec() -> bool {
        true
    }

    open spec fn from_spec(err: prometheus::Error) -> Self {
        PrometheusSpanError::PromError(err)
    }
}

/// The number of histogram buckets of a new layer: the requested number, which
/// must be at least one.
pub fn checked_num_buckets(num_buckets: usize) -> (r: Result<usize, PrometheusSpanError>)
    ensures
        match r {
            Ok(n) => num_buckets >= 1 && n == num_buckets,
            Err(e) => num_buckets == 0 && e is ZeroOrNegativeNumBuckets,
        },
{
    if num_buckets < 1 {
        return Err(PrometheusSpanError::ZeroOrNegativeNumBuckets);
    }
    Ok(num_buckets)
}

} // verus!
