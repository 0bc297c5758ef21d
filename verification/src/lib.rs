//! A minimal serving-layer visibility pipeline.
//!
//! A request handler owns a collection of items, drops the ones marked
//! deleted, and then asks a pluggable [`provider::Provider`] whether each
//! remaining item may be shown, emitting the visible ones in order and
//! failing fast on the first checker error.

pub mod item;
pub mod provider;
pub mod writer;
pub mod handler;
