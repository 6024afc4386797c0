//! Matrix-side building blocks: the client cache and identifier checks.

pub mod cache;
pub mod client;
pub mod ids;

pub use cache::ClientCache;
