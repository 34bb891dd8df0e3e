//! Keeps a versioned server artifact installed: validates the version, orders and filters
//! the repositories, finds a cached copy, and drives fetching, caching and installing as a
//! verified state machine whose outside work is done by the caller.
pub mod version;
pub mod retry;
pub mod link;
pub mod repos;
pub mod pipeline;
pub mod laws;
