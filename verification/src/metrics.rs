//! Server metrics.

use vstd::prelude::*;

verus! {

/// Metric format types.
#[derive(Debug, Copy, Clone, PartialEq, Eq, Structural, Hash)]
pub enum Format {
    /// A single multiline text representation of the metrics in
    /// Prometheus format.
    Prometheus,
}

/// A metrics report of the server, held as the bytes the engine rendered.
pub struct Metrics {
    pub data: Vec<u8>,
}

impl Metrics {
    /// Wrap a rendered metrics report.
    pub fn new(data: Vec<u8>) -> (r: Metrics)
        ensures
            r.data@ == data@,
    {
        Metrics { data }
    }

    /// Get a buffer holding the metrics in the given format; Prometheus
    /// text is the only format there is.
    pub fn formatted(&self, format: Format) -> (r: &Vec<u8>)
        ensures
            r@ == self.data@,
    {
        let _ = format;
        &self.data
    }
}

} // verus!
