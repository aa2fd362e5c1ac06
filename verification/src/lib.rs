//! Batch bibliographic lookup: parse two-column (author, title) input files,
//! resolve each record against a scholarly registry, and derive the output
//! file for each resolved citation.

pub mod record;
pub mod text;
pub mod csv;
pub mod crossref;
pub mod driver;
pub mod xlsx;
