//! Session registry for a set of long-lived display connections.
//!
//! The library tracks which display clients are currently connected, relays
//! "change view" commands to individual connections, mirrors session identity
//! into a persisted store, and evicts stale sessions. Store and transport
//! I/O happen outside; every decision the registry and the connection
//! handles make is stated in contracts and verified.

pub mod auth;
pub mod crypto;
pub mod errors;
pub mod handle;
pub mod idmap;
pub mod note;
pub mod notion;
pub mod plex;
pub mod protocol;
pub mod registry;
pub mod session;
pub mod store;
pub mod strutil;
pub mod zen_quote;

pub use session::is_valid_hash_char;
