//! What the server's handlers decide: which route a search leads to, which
//! entity a path asks for, and which media may be proxied.

pub mod home;
pub mod proxy;
pub mod tag;
pub mod user;
