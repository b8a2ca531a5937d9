//! A registry of remote devices' self-reported status, merged from sparse
//! update patches, with onboard-transition detection, staleness and
//! temperature classification, and a textual status report.

pub mod band;
pub mod device;
pub mod dispatch;
pub mod laws;
pub mod paint;
pub mod registry;
pub mod report;
