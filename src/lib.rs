//! Lead scoring and upload ingestion for dealer vehicle files.
pub mod auth;
pub mod date;
pub mod ingest;
pub mod leads;
pub mod migrations;
pub mod models;
pub mod parser;
pub mod scoring;
pub mod text;
