//! Version status reporting.
//!
//! The library composes a snapshot of version state — the running version,
//! the daemon's version metadata, and the user's display settings — into a
//! fixed-format, line-oriented report. Fetching the snapshot over RPC is the
//! caller's business; the shape of the report, the conditional inclusion of
//! its lines, and the all-or-nothing failure behaviour are specified and
//! proved here.

pub mod error;
pub mod report;
