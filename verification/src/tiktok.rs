//! The platform's pages: the documents embedded in them and the entities
//! resolved from those.

pub mod client;
pub mod extract;
pub mod json;
pub mod parser;
pub mod types;
