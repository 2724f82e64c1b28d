//! Documents: CSV export, file-type detection, metadata and text extraction.

pub mod csv;
pub mod error;
pub mod metadata;
pub mod processors;
pub mod xlsx;

pub use csv::CsvExporter;
pub use error::DocsError;
pub use metadata::DocumentMetadata;
pub use processors::{get_exporter, get_processor, CsvProcessor, ProcessorChoice, TextProcessor, XlsxProcessor};
