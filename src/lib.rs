//! A relay for a node's event stream: the decisions that govern ingest,
//! persistence, fan-out to subscribers and the read model.
//!
//! - `event`: the event model shared by every part.
//! - `outbound`: what one subscriber receives for one event.
//! - `subscription`: serving a subscriber, from the request to its stream.
//! - `processor`: what happens to each ingested event.
//! - `persistence`: the write transaction of one event and its rows.
//! - `migration`: which schema migrations to apply.
//! - `store`: the read model over persisted events.
//! - `ingest`: the handshake with the node.
//! - `stream_config`, `node_config`, `records`: settings and records.
//! - `text`: string comparison and decimal numbers.
pub mod event;
pub mod ingest;
pub mod migration;
pub mod node_config;
pub mod outbound;
pub mod persistence;
pub mod processor;
pub mod records;
pub mod store;
pub mod stream_config;
pub mod subscription;
pub mod text;
