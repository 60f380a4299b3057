//! Read-only virtual filesystem bridge core.
//!
//! The bridge maps hierarchical paths to the stable numeric identifiers a
//! kernel filesystem interface requires, caches metadata and directory
//! listings with bounded staleness, and degrades gracefully to a synthetic
//! diagnostic file when the remote backend becomes unreachable. All network
//! and kernel transport work is done by the surrounding application; this
//! crate holds the decision logic, verified.

pub mod b64;
pub mod bridge;
pub mod cache;
pub mod health;
pub mod registry;
pub mod types;
