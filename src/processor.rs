//! The processor's decisions: what to do with each ingested event, and what
//! reaches the subscribers once the store has answered.
//!
//! The processor is the store's only writer. An event is broadcast only after
//! it was written: the loop that performs the writes asks `next_action` what
//! to do, performs it, and hands the store's answer to `event_to_broadcast`.
use vstd::prelude::*;

use crate::event::{is_stored_kind, EventData, EventKind, ServerSentEvent, SseFilter};

verus! {

/// One event as the ingest client delivers it.
#[derive(Clone, Debug)]
pub struct SseEvent {
    pub id: Option<u32>,
    pub data: EventData,
    /// The JSON text received from upstream.
    pub json_data: Option<String>,
    /// The upstream endpoint the event was read from.
    pub source: SseFilter,
}

/// Why the store refused to write an event.
#[derive(Clone, Debug)]
pub enum DatabaseWriteError {
    /// A typed row with the same key exists: the event was seen before.
    DuplicateEntry,
    /// The log already holds this event id for the same source and kind.
    UniqueConstraint,
    /// Any other failure; the text says how.
    Unhandled(String),
}

/// What the processor does with one ingested event.
#[derive(Clone, Copy, Debug, PartialEq, Eq, Structural)]
pub enum ProcessorAction {
    /// Only note it: a version announcement.
    Log,
    /// Write it to the store under this id, then broadcast it if that succeeded.
    Save(u32),
    /// Drop it: an event that must carry an id came without one.
    Discard,
    /// Pass the node's shutdown on to the subscribers and stop processing.
    ForwardAndStop,
}

/// The action for an ingested event.
pub open spec fn action_for(event: SseEvent) -> ProcessorAction {
    if event.data.kind == EventKind::Shutdown {
        ProcessorAction::ForwardAndStop
    } else if !is_stored_kind(event.data.kind) {
        ProcessorAction::Log
    } else {
        match event.id {
            Some(id) => ProcessorAction::Save(id),
            None => ProcessorAction::Discard,
        }
    }
}

/// Decides what to do with an ingested event.
pub fn next_action(event: &SseEvent) -> (r: ProcessorAction)
    ensures
        r == action_for(*event),
{
    match event.data.kind {
        EventKind::Shutdown => ProcessorAction::ForwardAndStop,
        EventKind::ApiVersion | EventKind::SidecarVersion => ProcessorAction::Log,
        _ => match event.id {
            Some(id) => ProcessorAction::Save(id),
            None => ProcessorAction::Discard,
        },
    }
}

/// The event that subscribers receive for an ingested one, keeping its id,
/// payload, upstream text and source.
pub open spec fn as_broadcast(event: SseEvent) -> ServerSentEvent {
    ServerSentEvent {
        id: event.id,
        data: event.data,
        json_data: event.json_data,
        inbound_filter: Some(event.source),
    }
}

/// Turns an ingested event into the one broadcast to subscribers.
pub fn to_server_sent_event(event: SseEvent) -> (r: ServerSentEvent)
    ensures
        r == as_broadcast(event),
{
    ServerSentEvent {
        id: event.id,
        data: event.data,
        json_data: event.json_data,
        inbound_filter: Some(event.source),
    }
}

/// What to broadcast once the store answered the write of `event`: the event
/// when the write succeeded, nothing when it failed (a duplicate included).
pub fn event_to_broadcast(event: SseEvent, saved: &Result<(), DatabaseWriteError>) -> (r: Option<
    ServerSentEvent,
>)
    ensures
        saved is Ok ==> r == Some(as_broadcast(event)),
        saved is Err ==> r is None,
{
    match saved {
        Ok(()) => Some(to_server_sent_event(event)),
        Err(_) => None,
    }
}

} // verus!
