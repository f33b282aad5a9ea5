//! Safe, verified core for issuing and narrowing storage capability tokens.
//!
//! The crate models the value-like pieces of an access-grant delegation
//! scheme: permissions with optional validity windows, bucket/prefix
//! restrictions, the text-marshalling gate that every string must pass
//! before crossing a foreign-call boundary, and the guard that validates
//! dual-outcome values coming back from that boundary.

pub mod access;
pub mod bucket;
pub mod config;
pub mod error;
pub mod outcome;
pub mod text;
pub mod time;

pub use access::Permission;
pub use access::SharePrefix;
pub use bucket::Bucket;
pub use config::Config;
pub use error::Error;
pub use outcome::DualOutcome;
pub use time::Timestamp;
