//! Capability reports for compute accelerators: the query sequence that
//! gathers a device's static limits, and the grouped-digit rendering of the
//! numbers in the report.

pub mod device;
pub mod magnitude;
pub mod recording;
pub mod reporter;
