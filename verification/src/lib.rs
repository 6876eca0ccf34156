//! Analysis of Bitcoin addresses: parsing, network detection, script and
//! witness details, and the text, Markdown and JSON reports built from them.

/// The parsed address and the calls into the `bitcoin` crate that read it.
pub mod address;
/// Analysis logic (parsing, network detection, script/witness extraction).
pub mod analyzer;
/// Hexadecimal and decimal text of numbers.
pub mod encoding;
/// Human-readable formatting of an analysis.
pub mod formatter;
/// JSON output for machine consumption.
pub mod json;
/// What the labels and encodings mean.
pub mod label_laws;
/// Properties that span the library's functions.
pub mod laws;
/// The witness and legacy sections of the text report exclude each other.
pub mod marker_laws;
/// Every field of an analysis appears in the reports.
pub mod report_laws;
/// Domain types shared across the library.
pub mod types;

pub use address::ParsedAddress;
pub use analyzer::analyze;
pub use formatter::format_readme;
pub use json::{format_json, JsonError, JsonValue};
pub use types::{AddressAnalysis, AddressType, AnalysisView, ChecksumType, Network};
