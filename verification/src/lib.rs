//! Core logic of a concurrent content-discovery probe: given a base URL and a
//! wordlist of path segments, a scan issues one HTTP GET per entry, classifies
//! each response, and reports or persists the relevant hits.
//!
//! This crate holds the verified core: the response classifier, URL joining,
//! result-line formatting, the emission policy, the result collector, the
//! progress counter, and the dispatch engine's per-entry step. The surrounding
//! program supplies the I/O: argument parsing, the wordlist file, the HTTP
//! client, the live terminal display, and the output file.

pub mod classify;
pub mod collector;
pub mod engine;
pub mod line;
pub mod numeral;
pub mod outcome;
pub mod progress;
pub mod url;
