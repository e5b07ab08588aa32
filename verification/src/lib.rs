//! Service-supervision runtime core.
//!
//! A service is declared through a static descriptor ([`service::ServiceData`]),
//! owned through a [`handle::ServiceHandle`], reached through a bounded typed
//! relay channel ([`relay`]), reconfigured through a last-write-wins settings
//! cell ([`settings`]), and has its state snapshots drained in push order into
//! a pluggable operator ([`state`]). Spawning the assembled runner onto the
//! externally owned scheduling runtime is left to unverified glue around this
//! library; everything the runner is made of is built and specified here.

pub mod fifo;
pub mod handle;
pub mod overwatch;
pub mod relay;
pub mod service;
pub mod settings;
pub mod state;
