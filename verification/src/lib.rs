//! A local cache for remote resources, written without I/O of its own.
//!
//! A cache key (usually a URL) names a slot: a file in the cache folder whose
//! name is the URL-safe base64 text of the key's SHA3-512 digest. The library
//! derives those names and decides, step by step, what has to happen for a
//! request: it hands out one action at a time and takes back the event that
//! reports how the action went. Whoever embeds the library touches the file
//! system and the network.

pub mod cache;
pub mod encoding;
pub mod error;
pub mod folder_manager;
pub mod hashing;
pub mod model;
pub mod protocol;
pub mod transport;
