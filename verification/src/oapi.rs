//! Describing an API: the parameters and bodies that handlers take, and the
//! objects of the description that is published.

pub mod extract;
pub mod openapi;
pub mod swagger;
