//! Client-side logic for a remote document-search service: building HTTP
//! calls, classifying responses and waiting for background tasks.

pub mod client;
pub mod document;
pub mod documents;
pub mod errors;
pub mod index_config;
pub mod indexes;
pub mod json;
pub mod request;
pub mod settings;
pub mod tasks;
pub mod text;
