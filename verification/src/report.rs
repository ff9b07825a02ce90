use vstd::prelude::*;

verus! {

/// Whether a report was explicitly triggered by a user (`Manual`) or generated
/// without user action (`Automatic`). Only automatic reports are deduplicated.
#[derive(Clone, Copy, PartialEq, Eq, Structural, Debug)]
pub enum ReportType {
    Manual,
    Automatic,
}

/// A report submission as decoded by the ingress layer. Immutable once received.
#[derive(Debug)]
pub struct ReportBody {
    pub report_type: ReportType,
    pub message: String,
    pub ext_version: String,
}

/// Startup configuration: loaded once before serving begins, never mutated.
#[derive(Debug)]
pub struct AppConfig {
    pub port: i64,
    pub webhook_url: String,
    pub webhook_avatar_url: String,
}

} // verus!
