//! Request resolution for a link-card and asset edge server: path
//! normalisation, durable-record decoding, the cache-then-store resolution
//! state machine, response rendering, the shared entry cache and shutdown
//! coordination.

pub mod entry;
pub mod path;
pub mod error;
pub mod record;
pub mod resolver;
pub mod render;
pub mod cache;
pub mod shutdown;
