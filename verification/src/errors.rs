//! The failure taxonomy of the report pipeline. A metadata-query failure is
//! fatal for the path it concerns: the path gets an error instead of a
//! report, and no partial report. An unrepresentable timestamp is likewise
//! surfaced rather than silently wrapped. Identity-lookup failures are not
//! errors at all: they fall back to the numeric id.

use vstd::prelude::*;

verus! {

/// The kinds of failure a metadata query can report.
#[derive(Clone, Copy, Debug, PartialEq, Eq, Structural)]
pub enum QueryError {
    /// The path does not exist.
    NotFound,
    /// The path exists but may not be inspected.
    PermissionDenied,
    /// Any other operating-system level failure.
    OtherIo,
}

/// Errors of the report-building pipeline.
#[derive(Clone, Copy, Debug, PartialEq, Eq, Structural)]
pub enum ReportError {
    /// The path's status record could not be obtained.
    Query(QueryError),
    /// A timestamp lies outside the representable calendar range.
    TimestampOutOfRange,
}

} // verus!
