//! A small blog library: an immutable in-memory post collection, lookup of a
//! post by its exact title, and rendering of the home and post pages to HTML.

pub mod escape;
pub mod http;
pub mod lookup;
pub mod numfmt;
pub mod post;
pub mod render;
