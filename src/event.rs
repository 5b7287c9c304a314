//! The event model: kinds of event, the endpoints they travel through, and the
//! envelope that carries one event from ingest to the subscribers.
use vstd::prelude::*;

verus! {

/// The kind of an event, one for each variant of the node's event payload.
#[derive(Clone, Copy, Debug, PartialEq, Eq, Structural)]
pub enum EventKind {
    ApiVersion,
    SidecarVersion,
    BlockAdded,
    DeployAccepted,
    DeployProcessed,
    DeployExpired,
    Fault,
    FinalitySignature,
    Step,
    Shutdown,
}

/// A kind of event that a downstream endpoint can select.
#[derive(Clone, Copy, Debug, PartialEq, Eq, Structural)]
pub enum EventFilter {
    ApiVersion,
    SidecarVersion,
    BlockAdded,
    DeployAccepted,
    DeployProcessed,
    DeployExpired,
    Fault,
    FinalitySignature,
    Step,
}

/// The upstream endpoint that an event was read from.
#[derive(Clone, Copy, Debug, PartialEq, Eq, Structural)]
pub enum SseFilter {
    Events,
    Main,
    Deploys,
    Sigs,
}

/// A downstream endpoint that subscribers connect to.
#[derive(Clone, Copy, Debug, PartialEq, Eq, Structural)]
pub enum Endpoint {
    Events,
    Main,
    Deploys,
    Sigs,
    Sidecar,
}

/// The filter entry that selects events of `kind`; `Shutdown` has none.
pub open spec fn filter_of_kind(kind: EventKind) -> Option<EventFilter> {
    match kind {
        EventKind::ApiVersion => Some(EventFilter::ApiVersion),
        EventKind::SidecarVersion => Some(EventFilter::SidecarVersion),
        EventKind::BlockAdded => Some(EventFilter::BlockAdded),
        EventKind::DeployAccepted => Some(EventFilter::DeployAccepted),
        EventKind::DeployProcessed => Some(EventFilter::DeployProcessed),
        EventKind::DeployExpired => Some(EventFilter::DeployExpired),
        EventKind::Fault => Some(EventFilter::Fault),
        EventKind::FinalitySignature => Some(EventFilter::FinalitySignature),
        EventKind::Step => Some(EventFilter::Step),
        EventKind::Shutdown => None,
    }
}

/// Whether events of `kind` carry no id: the version announcements.
pub open spec fn is_version_kind(kind: EventKind) -> bool {
    kind == EventKind::ApiVersion || kind == EventKind::SidecarVersion
}

/// Whether events of `kind` are persisted by the store.
pub open spec fn is_stored_kind(kind: EventKind) -> bool {
    !is_version_kind(kind) && kind != EventKind::Shutdown
}

impl Endpoint {
    /// The upstream endpoint whose events this downstream endpoint mirrors.
    pub open spec fn corresponds_to(self, filter: SseFilter) -> bool {
        match (self, filter) {
            (Endpoint::Events, SseFilter::Events) => true,
            (Endpoint::Main, SseFilter::Main) => true,
            (Endpoint::Deploys, SseFilter::Deploys) => true,
            (Endpoint::Sigs, SseFilter::Sigs) => true,
            _ => false,
        }
    }

    pub fn is_corresponding_to(&self, filter: &SseFilter) -> (r: bool)
        ensures
            r == self.corresponds_to(*filter),
    {
        match (self, filter) {
            (Endpoint::Events, SseFilter::Events) => true,
            (Endpoint::Main, SseFilter::Main) => true,
            (Endpoint::Deploys, SseFilter::Deploys) => true,
            (Endpoint::Sigs, SseFilter::Sigs) => true,
            _ => false,
        }
    }
}

/// The payload of an event: its kind and the JSON text of its content (for
/// `ApiVersion` the quoted version, for `DeployAccepted` the deploy; unused
/// for `Shutdown`).
#[derive(Clone, Debug)]
pub struct EventData {
    pub kind: EventKind,
    pub payload: String,
}

impl EventData {
    /// Whether an endpoint selecting `filter` receives this event. A node
    /// shutdown passes every selection: the shutdown rule governs it instead.
    pub open spec fn included_by(self, filter: Seq<EventFilter>) -> bool {
        match filter_of_kind(self.kind) {
            None => true,
            Some(f) => filter.contains(f),
        }
    }

    pub fn should_include(&self, filter: &[EventFilter]) -> (r: bool)
        ensures
            r == self.included_by(filter@),
    {
        let wanted = match self.kind {
            EventKind::ApiVersion => EventFilter::ApiVersion,
            EventKind::SidecarVersion => EventFilter::SidecarVersion,
            EventKind::BlockAdded => EventFilter::BlockAdded,
            EventKind::DeployAccepted => EventFilter::DeployAccepted,
            EventKind::DeployProcessed => EventFilter::DeployProcessed,
            EventKind::DeployExpired => EventFilter::DeployExpired,
            EventKind::Fault => EventFilter::Fault,
            EventKind::FinalitySignature => EventFilter::FinalitySignature,
            EventKind::Step => EventFilter::Step,
            EventKind::Shutdown => {
                return true;
            },
        };
        let mut i: usize = 0;
        while i < filter.len()
            invariant
                i <= filter@.len(),
                filter_of_kind(self.kind) == Some(wanted),
                forall|k: int| 0 <= k < i ==> filter@[k] != wanted,
            decreases filter@.len() - i,
        {
            if filter[i] == wanted {
                return true;
            }
            i += 1;
        }
        false
    }
}

/// One event on its way to the subscribers.
#[derive(Clone, Debug)]
pub struct ServerSentEvent {
    /// The event id; absent exactly for the version announcements.
    pub id: Option<u32>,
    pub data: EventData,
    /// The JSON text received from upstream, re-emitted verbatim when present.
    pub json_data: Option<String>,
    /// The upstream endpoint the event came from, if it came from upstream.
    pub inbound_filter: Option<SseFilter>,
}

impl ServerSentEvent {
    /// The first event sent to every subscriber: the node's API version, given
    /// as its JSON text.
    pub fn initial_event(client_api_version: String) -> (r: Self)
        ensures
            r.id.is_none(),
            r.data.kind == EventKind::ApiVersion,
            r.data.payload@ == client_api_version@,
            r.json_data.is_none(),
            r.inbound_filter.is_none(),
    {
        ServerSentEvent {
            id: None,
            data: EventData { kind: EventKind::ApiVersion, payload: client_api_version },
            json_data: None,
            inbound_filter: None,
        }
    }

    /// The first event sent to subscribers of the sidecar endpoint: this
    /// relay's own version, given as its JSON text.
    pub fn sidecar_version_event(version: String) -> (r: Self)
        ensures
            r.id.is_none(),
            r.data.kind == EventKind::SidecarVersion,
            r.data.payload@ == version@,
            r.json_data.is_none(),
            r.inbound_filter.is_none(),
    {
        ServerSentEvent {
            id: None,
            data: EventData { kind: EventKind::SidecarVersion, payload: version },
            json_data: None,
            inbound_filter: None,
        }
    }

    /// A field-by-field copy.
    pub fn duplicate(&self) -> (r: ServerSentEvent)
        ensures
            r == *self,
    {
        let json_data = match &self.json_data {
            Some(j) => Some(j.clone()),
            None => None,
        };
        ServerSentEvent {
            id: self.id,
            data: EventData { kind: self.data.kind, payload: self.data.payload.clone() },
            json_data,
            inbound_filter: self.inbound_filter,
        }
    }
}

/// A message on the broadcast channel that feeds every subscriber.
#[derive(Clone, Debug)]
pub enum BroadcastChannelMessage {
    /// An event to deliver.
    ServerSentEvent(ServerSentEvent),
    /// The server is shutting down: every subscriber's stream ends.
    Shutdown,
}

} // verus!
