//! Request-to-storage mapping layer for a todo service backed by a
//! key-value store with a composite primary key (owner id + item id).
//!
//! The modules cover: the entity codec between todo items and store items,
//! the primary-key builder, the pagination normalizer, the configuration
//! resolver, and the decision logic of the five operation handlers.
//! Network I/O against the store itself lives outside this crate; the
//! handlers here produce request plans from validated inputs and interpret
//! store outcomes handed back as plain values.

pub mod codec;
pub mod config;
pub mod error;
pub mod handlers;
pub mod ids;
pub mod keys;
pub mod pagination;
pub mod store;
pub mod store_model;
