//! Choosing the handlers of a request.

pub mod filters;
