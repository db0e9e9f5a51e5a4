//! Ingestion library for a public library catalog: typed library and book
//! records recovered from a JSON API, a scraped HTML page and a legacy-encoded
//! CSV download, loaded into date-partitioned search indices with an
//! idempotency gate, fixed-size chunking and bounded exponential retry.
pub mod num_text;
pub mod retry;
pub mod loader;
pub mod libraries;
pub mod books;
pub mod index_templates;
pub mod orchestrator;
