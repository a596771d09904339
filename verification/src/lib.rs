//! A typed data model and verified (de)serializer for the CTRF
//! test-result report format: entities for a test run (tool, tests,
//! summary, environment), a results builder that derives the summary
//! from the raw outcomes, per-entity extension slots for vendor data,
//! and a JSON wire codec with a format/version gate on every decode.

pub mod json;
pub mod num;
pub mod extra;
pub mod tool;
pub mod environment;
pub mod test;
pub mod summary;
pub mod results;
pub mod codec;
pub mod report;
pub mod text;
pub mod parse;
