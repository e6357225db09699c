//! A tracer for TDS (Tabular Data Stream) traffic.
//!
//! The library decodes TDS and MARS packet headers, renders them and the
//! packet bytes as text, and keeps the state that joins a MARS header with
//! the TDS packet that follows it. Writing the text to a log file and to the
//! console is left to the caller.
pub mod headers;
pub mod text;
pub mod tracer;
pub mod simple_tracer;
