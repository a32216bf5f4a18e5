//! Transaction submission and query logic for driving a local sandbox node.
//!
//! Everything here works on plain values: the network round trips, the
//! filesystem and the node's own types live with the caller, which hands the
//! library what it read and performs what the library decides.
pub mod text;
pub mod endpoint;
pub mod credentials;
pub mod query;
pub mod submit;
pub mod transaction;
