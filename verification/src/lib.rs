//! Client-side logic of the lending indexer: query building for the offer
//! listing endpoints, request paths, response classification and the mapping
//! of failures into `IndexerClientError`.

pub mod models;
pub mod text;
pub mod client;
