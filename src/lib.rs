//! Esports data pull: the retry rules of the HTTP fetcher and the decoding of
//! upstream JSON documents into domain records.
pub mod config;
pub mod decode;
pub mod json;
pub mod model;
pub mod retry;
