//! A small Prometheus exposition-format exporter.
//!
//! An [`Exporter`] holds an ordered list of process-wide ("global") labels.
//! An [`ExporterSession`] borrows an exporter and accumulates one formatted
//! metric line per `export` call; the buffer is read out as the scrape
//! response body. The exact text of every line is specified in [`text`] and
//! proved of the session's operations.

pub mod text;
pub mod exporter;
pub mod laws;

pub use exporter::Exporter;
pub use exporter::ExporterSession;
