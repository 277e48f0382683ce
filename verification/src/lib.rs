//! Inventory-to-gauges projection pipeline for a cluster-management
//! control plane: authenticated fetch configuration, classification of
//! HTTP outcomes into a small error taxonomy, and deterministic
//! flattening of the zone / allocator / instance / plan entity graph
//! into labeled gauge observations, including a time-weighted monthly
//! cost figure.

pub mod allocator;
pub mod collect;
pub mod cost;
pub mod error;
pub mod laws;
pub mod metric;
pub mod proxy;
pub mod state;
pub mod text;
pub mod time;
