//! Change-data-capture fan-out core: a registry of subscriptions with a
//! two-phase handle allocator, the per-subscription dispatch rules that turn
//! a raw change into at most one delivered event, and the bookkeeping that
//! decides when a collection's watcher starts and stops.
pub mod bridge;
pub mod broker;
pub mod registry;
pub mod subscription;
pub mod watcher;
