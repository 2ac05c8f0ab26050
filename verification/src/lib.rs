//! Client library for a real-time chat platform.
//!
//! The heart of the crate is the gateway: a long-lived, bidirectional
//! session that authenticates, keeps itself alive with timed heartbeats,
//! turns inbound protocol frames into typed events, and keeps a registry of
//! live-updating entity handles in sync with server-pushed events.
//!
//! The modules split along the protocol's own seams:
//! - [`snowflake`]: unique, time-ordered entity identifiers;
//! - [`config`] and [`limits`]: instance configuration data;
//! - [`entities`] and [`interfaces`]: guilds, roles, users and their
//!   companions;
//! - [`events`]: the typed gateway events and their update rules;
//! - [`codec`]: the wire envelope (opcode, sequence, event name, payload);
//! - [`errors`]: assembly of the error text for a rejected form;
//! - [`store`]: the observable-entity registry;
//! - [`heartbeat`]: the liveness schedule;
//! - [`session`]: the connection state machine;
//! - [`dispatcher`]: routing of dispatch events into the store.

pub mod codec;
pub mod config;
pub mod errors;
pub mod dispatcher;
pub mod entities;
pub mod events;
pub mod heartbeat;
pub mod interfaces;
pub mod limits;
pub mod session;
pub mod snowflake;
pub mod store;
