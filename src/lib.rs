pub mod api;
pub mod clock;
pub mod keyspace;
pub mod laws;
pub mod progress;
pub mod store;
pub mod validate;
