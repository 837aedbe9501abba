//! Kinds of performance measurement, and why a measurement is refused.
use vstd::prelude::*;

verus! {

/// What a performance metric measures.
#[derive(Debug, Clone, Copy, PartialEq, Eq, Structural)]
pub enum MetricType {
    StartupTime,
    FrameRate,
    MemoryUsage,
    BundleSize,
}

/// The label under which a metric kind is shown.
pub open spec fn metric_label(m: MetricType) -> Seq<char> {
    match m {
        MetricType::StartupTime => "Startup Time"@,
        MetricType::FrameRate => "Frame Rate"@,
        MetricType::MemoryUsage => "Memory Usage"@,
        MetricType::BundleSize => "Bundle Size"@,
    }
}

impl MetricType {
    /// The label under which this kind is shown.
    pub fn to_string(&self) -> (r: String)
        ensures
            r@ == metric_label(*self),
    {
        match self {
            MetricType::StartupTime => "Startup Time".to_string(),
            MetricType::FrameRate => "Frame Rate".to_string(),
            MetricType::MemoryUsage => "Memory Usage".to_string(),
            MetricType::BundleSize => "Bundle Size".to_string(),
        }
    }
}

/// Why a performance metric is not well formed.
#[derive(Debug, Clone, Copy, PartialEq, Eq)]
pub enum MetricValidationError {
    EmptyId,
    IdTooLong,
    EmptyName,
    InvalidValue,
    EmptyUnit,
    IncompleteComparison,
}

} // verus!
