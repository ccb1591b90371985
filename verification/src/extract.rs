//! What is known of the types that are extracted from a request.

pub mod metadata;
