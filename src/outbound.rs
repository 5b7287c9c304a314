//! What a subscriber receives for one event: the endpoint selections, the id
//! rule, the shutdown rule and the JSON text of each frame.
use vstd::prelude::*;

use crate::event::{
    is_version_kind, Endpoint, EventData, EventFilter, EventKind, ServerSentEvent, SseFilter,
};
use crate::text::{decimal, decimal_string, str_eq};

verus! {

/// The URL path part of the endpoint with the combined selection.
pub const SSE_API_ROOT_PATH: &'static str = "events";

/// The URL path part of the endpoint for everything but accepted deploys and
/// finality signatures.
pub const SSE_API_MAIN_PATH: &'static str = "main";

/// The URL path part of the endpoint for accepted deploys.
pub const SSE_API_DEPLOYS_PATH: &'static str = "deploys";

/// The URL path part of the endpoint for finality signatures.
pub const SSE_API_SIGNATURES_PATH: &'static str = "sigs";

/// The URL path part of the endpoint for this relay's own announcements.
pub const SSE_API_SIDECAR_PATH: &'static str = "sidecar";

/// One frame as a subscriber receives it: the SSE `id:` field, if any, and the
/// JSON text of the `data:` field.
pub ghost struct Frame {
    pub id: Option<Seq<char>>,
    pub data: Seq<char>,
}

/// One frame ready to be written to a subscriber.
#[derive(Clone, Debug)]
pub struct OutboundEvent {
    pub id: Option<String>,
    pub data: String,
}

impl View for OutboundEvent {
    type V = Frame;

    open spec fn view(&self) -> Frame {
        Frame {
            id: match self.id {
                Some(s) => Some(s@),
                None => None,
            },
            data: self.data@,
        }
    }
}

/// The endpoint that a URL path part names.
pub open spec fn endpoint_of_path(path: Seq<char>) -> Option<Endpoint> {
    if path == SSE_API_ROOT_PATH@ {
        Some(Endpoint::Events)
    } else if path == SSE_API_MAIN_PATH@ {
        Some(Endpoint::Main)
    } else if path == SSE_API_DEPLOYS_PATH@ {
        Some(Endpoint::Deploys)
    } else if path == SSE_API_SIGNATURES_PATH@ {
        Some(Endpoint::Sigs)
    } else if path == SSE_API_SIDECAR_PATH@ {
        Some(Endpoint::Sidecar)
    } else {
        None
    }
}

/// The kinds of event that each endpoint delivers.
pub open spec fn endpoint_filter(endpoint: Endpoint) -> Seq<EventFilter> {
    match endpoint {
        Endpoint::Events => seq![
            EventFilter::ApiVersion,
            EventFilter::BlockAdded,
            EventFilter::DeployProcessed,
            EventFilter::Fault,
            EventFilter::FinalitySignature,
        ],
        Endpoint::Main => seq![
            EventFilter::ApiVersion,
            EventFilter::BlockAdded,
            EventFilter::DeployProcessed,
            EventFilter::DeployExpired,
            EventFilter::Fault,
            EventFilter::Step,
        ],
        Endpoint::Deploys => seq![EventFilter::ApiVersion, EventFilter::DeployAccepted],
        Endpoint::Sigs => seq![EventFilter::ApiVersion, EventFilter::FinalitySignature],
        Endpoint::Sidecar => seq![EventFilter::SidecarVersion],
    }
}

/// The endpoint named by the final URL path part.
pub fn path_to_filter(path_param: &str) -> (r: Option<Endpoint>)
    ensures
        r == endpoint_of_path(path_param@),
{
    if str_eq(path_param, SSE_API_ROOT_PATH) {
        Some(Endpoint::Events)
    } else if str_eq(path_param, SSE_API_MAIN_PATH) {
        Some(Endpoint::Main)
    } else if str_eq(path_param, SSE_API_DEPLOYS_PATH) {
        Some(Endpoint::Deploys)
    } else if str_eq(path_param, SSE_API_SIGNATURES_PATH) {
        Some(Endpoint::Sigs)
    } else if str_eq(path_param, SSE_API_SIDECAR_PATH) {
        Some(Endpoint::Sidecar)
    } else {
        None
    }
}

/// The kinds of event delivered by `endpoint`.
pub fn filter_for_endpoint(endpoint: Endpoint) -> (r: Vec<EventFilter>)
    ensures
        r@ == endpoint_filter(endpoint),
{
    let v = match endpoint {
        Endpoint::Events => vec![
            EventFilter::ApiVersion,
            EventFilter::BlockAdded,
            EventFilter::DeployProcessed,
            EventFilter::Fault,
            EventFilter::FinalitySignature,
        ],
        Endpoint::Main => vec![
            EventFilter::ApiVersion,
            EventFilter::BlockAdded,
            EventFilter::DeployProcessed,
            EventFilter::DeployExpired,
            EventFilter::Fault,
            EventFilter::Step,
        ],
        Endpoint::Deploys => vec![EventFilter::ApiVersion, EventFilter::DeployAccepted],
        Endpoint::Sigs => vec![EventFilter::ApiVersion, EventFilter::FinalitySignature],
        Endpoint::Sidecar => vec![EventFilter::SidecarVersion],
    };
    assert(v@ =~= endpoint_filter(endpoint));
    v
}

/// The kinds of event selected by the final URL path part.
pub fn get_filter(path_param: &str) -> (r: Option<Vec<EventFilter>>)
    ensures
        match endpoint_of_path(path_param@) {
            Some(e) => r is Some && r->0@ == endpoint_filter(e),
            None => r is None,
        },
{
    match path_to_filter(path_param) {
        Some(e) => Some(filter_for_endpoint(e)),
        None => None,
    }
}

/// The text of the SSE `id:` field for an event, or `None` when the event
/// breaks the id rule: version announcements carry no id, all others carry one.
pub open spec fn event_id_text(event: ServerSentEvent) -> Option<Seq<char>> {
    match event.id {
        Some(id) => if is_version_kind(event.data.kind) {
            None
        } else {
            Some(decimal(id as nat))
        },
        None => if is_version_kind(event.data.kind) {
            Some(Seq::empty())
        } else {
            None
        },
    }
}

pub fn determine_id(event: &ServerSentEvent) -> (r: Option<String>)
    ensures
        match event_id_text(*event) {
            Some(t) => r is Some && r->0@ == t,
            None => r is None,
        },
{
    let is_version = match event.data.kind {
        EventKind::ApiVersion | EventKind::SidecarVersion => true,
        _ => false,
    };
    match event.id {
        Some(id) => {
            if is_version {
                return None;
            }
            Some(decimal_string(id as u64))
        },
        None => {
            if !is_version {
                return None;
            }
            Some(String::new())
        },
    }
}

/// Whether a node shutdown read from `inbound` reaches subscribers of
/// `endpoint`: only the corresponding endpoint's, with the cross pairs
/// `main` to `/events` and `events` to `/events/main`; one made here reaches
/// the sidecar endpoint alone.
pub open spec fn shutdown_reaches(inbound: Option<SseFilter>, endpoint: Endpoint) -> bool {
    match inbound {
        None => endpoint == Endpoint::Sidecar,
        Some(SseFilter::Main) if endpoint == Endpoint::Events => true,
        Some(SseFilter::Events) if endpoint == Endpoint::Main => true,
        Some(f) => endpoint.corresponds_to(f),
    }
}

pub fn should_send_shutdown(event: &ServerSentEvent, stream_filter: &Endpoint) -> (r: bool)
    ensures
        r == shutdown_reaches(event.inbound_filter, *stream_filter),
{
    match (&event.inbound_filter, stream_filter) {
        (None, Endpoint::Sidecar) => true,
        (None, _) => false,
        (Some(SseFilter::Main), Endpoint::Events) => true,
        (Some(SseFilter::Events), Endpoint::Main) => true,
        (Some(a), b) => b.is_corresponding_to(a),
    }
}

/// The name of a kind as the node's JSON tags it.
pub open spec fn kind_name(kind: EventKind) -> Seq<char> {
    match kind {
        EventKind::ApiVersion => "ApiVersion"@,
        EventKind::SidecarVersion => "SidecarVersion"@,
        EventKind::BlockAdded => "BlockAdded"@,
        EventKind::DeployAccepted => "DeployAccepted"@,
        EventKind::DeployProcessed => "DeployProcessed"@,
        EventKind::DeployExpired => "DeployExpired"@,
        EventKind::Fault => "Fault"@,
        EventKind::FinalitySignature => "FinalitySignature"@,
        EventKind::Step => "Step"@,
        EventKind::Shutdown => "Shutdown"@,
    }
}

fn kind_name_str(kind: EventKind) -> (r: &'static str)
    ensures
        r@ == kind_name(kind),
{
    match kind {
        EventKind::ApiVersion => "ApiVersion",
        EventKind::SidecarVersion => "SidecarVersion",
        EventKind::BlockAdded => "BlockAdded",
        EventKind::DeployAccepted => "DeployAccepted",
        EventKind::DeployProcessed => "DeployProcessed",
        EventKind::DeployExpired => "DeployExpired",
        EventKind::Fault => "Fault",
        EventKind::FinalitySignature => "FinalitySignature",
        EventKind::Step => "Step",
        EventKind::Shutdown => "Shutdown",
    }
}

/// The JSON text of an event made here: the payload tagged with the kind's
/// name; an accepted deploy sits under `deploy_accepted`; a node shutdown is
/// the bare tag.
pub open spec fn local_json(data: EventData) -> Seq<char> {
    match data.kind {
        EventKind::Shutdown => "\"Shutdown\""@,
        EventKind::DeployAccepted => "{\"DeployAccepted\":{\"deploy_accepted\":"@ + data.payload@
            + "}}"@,
        _ => "{\""@ + kind_name(data.kind) + "\":"@ + data.payload@ + "}"@,
    }
}

/// The JSON text sent for an event: what upstream sent, if anything, else the
/// text made here.
pub open spec fn event_json(event: ServerSentEvent) -> Seq<char> {
    match event.json_data {
        Some(j) => j@,
        None => local_json(event.data),
    }
}

fn local_json_text(data: &EventData) -> (r: String)
    ensures
        r@ == local_json(*data),
{
    match data.kind {
        EventKind::Shutdown => "\"Shutdown\"".to_owned(),
        EventKind::DeployAccepted => {
            let mut out = "{\"DeployAccepted\":{\"deploy_accepted\":".to_owned();
            out.append(data.payload.as_str());
            out.append("}}");
            out
        },
        _ => {
            let mut out = "{\"".to_owned();
            out.append(kind_name_str(data.kind));
            out.append("\":");
            out.append(data.payload.as_str());
            out.append("}");
            out
        },
    }
}

/// The JSON text of an event: upstream's bytes when present.
pub fn event_to_warp_event(event: &ServerSentEvent) -> (r: String)
    ensures
        r@ == event_json(*event),
{
    match &event.json_data {
        Some(j) => j.clone(),
        None => local_json_text(&event.data),
    }
}

/// The frame for an accepted deploy, under the given id.
pub fn handle_deploy_accepted(event: &ServerSentEvent, id: String) -> (r: OutboundEvent)
    requires
        event.data.kind == EventKind::DeployAccepted,
    ensures
        r@ == (Frame { id: Some(id@), data: event_json(*event) }),
{
    OutboundEvent { id: Some(id), data: event_to_warp_event(event) }
}

/// The frame for an event that keeps its id on the wire.
pub fn build_event_for_outbound(event: &ServerSentEvent, id: String) -> (r: OutboundEvent)
    ensures
        r@ == (Frame { id: Some(id@), data: event_json(*event) }),
{
    OutboundEvent { id: Some(id), data: event_to_warp_event(event) }
}

/// What a subscriber of `endpoint`, selecting `filter`, receives for `event`:
/// nothing when the selection leaves it out, when it breaks the id rule, or
/// when it is a node shutdown that does not reach the endpoint; otherwise one
/// frame, with no `id:` field for a version announcement.
pub open spec fn outbound_frame(
    event: ServerSentEvent,
    endpoint: Endpoint,
    filter: Seq<EventFilter>,
) -> Option<Frame> {
    if !event.data.included_by(filter) {
        None
    } else {
        match event_id_text(event) {
            None => None,
            Some(id) => if is_version_kind(event.data.kind) {
                Some(Frame { id: None, data: event_json(event) })
            } else if event.data.kind == EventKind::Shutdown && !shutdown_reaches(
                event.inbound_filter,
                endpoint,
            ) {
                None
            } else {
                Some(Frame { id: Some(id), data: event_json(event) })
            },
        }
    }
}

/// Filters `event` for one subscriber, mapping it to the frame it receives.
pub fn filter_map_server_sent_event(
    event: &ServerSentEvent,
    stream_filter: &Endpoint,
    event_filter: &[EventFilter],
) -> (r: Option<OutboundEvent>)
    ensures
        match outbound_frame(*event, *stream_filter, event_filter@) {
            Some(f) => r is Some && r->0@ == f,
            None => r is None,
        },
{
    if !event.data.should_include(event_filter) {
        return None;
    }
    let id = match determine_id(event) {
        Some(id) => id,
        None => {
            return None;
        },
    };
    match event.data.kind {
        EventKind::ApiVersion | EventKind::SidecarVersion => Some(
            OutboundEvent { id: None, data: event_to_warp_event(event) },
        ),
        EventKind::DeployAccepted => Some(handle_deploy_accepted(event, id)),
        EventKind::Shutdown => {
            if should_send_shutdown(event, stream_filter) {
                Some(build_event_for_outbound(event, id))
            } else {
                None
            }
        },
        _ => Some(build_event_for_outbound(event, id)),
    }
}

} // verus!
