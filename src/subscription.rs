//! Serving one subscriber: the request check, admission, the initial replay
//! and the live stream with duplicates at the seam removed.
use std::collections::HashSet;

use vstd::prelude::*;

use crate::event::{BroadcastChannelMessage, Endpoint, EventFilter, ServerSentEvent};
use crate::outbound::{
    endpoint_filter, endpoint_of_path, filter_map_server_sent_event, get_filter, outbound_frame,
    path_to_filter, Frame, OutboundEvent, SSE_API_ROOT_PATH,
};
use crate::text::{parse_u32, parsed_u32, str_eq};

verus! {

/// The single query field a subscriber may give.
pub const QUERY_FIELD: &'static str = "start_from";

/// Why a subscriber's stream ends with an error.
#[derive(Clone, Copy, Debug, PartialEq, Eq, Structural)]
pub enum RecvError {
    /// The server shut down.
    Closed,
    /// The subscriber fell behind the broadcast buffer by this many events.
    Lagged(u64),
}

/// What a subscriber's live receiver yields.
#[derive(Clone, Debug)]
pub enum LiveItem {
    Message(BroadcastChannelMessage),
    Lagged(u64),
}

/// A refusal of a subscription: an HTTP status and its body text.
#[derive(Clone, Debug)]
pub struct ErrorResponse {
    pub status: u16,
    pub body: String,
}

/// The response for an unknown path.
pub fn create_404() -> (r: ErrorResponse)
    ensures
        r.status == 404,
        r.body@ == "invalid path: expected '/events/main', '/events/deploys' or '/events/sigs'\n"@,
{
    ErrorResponse {
        status: 404,
        body: "invalid path: expected '/events/main', '/events/deploys' or '/events/sigs'\n".to_owned(),
    }
}

/// The response for a malformed query.
pub fn create_422() -> (r: ErrorResponse)
    ensures
        r.status == 422,
        r.body@ == "invalid query: expected single field 'start_from=<EVENT ID>'\n"@,
{
    ErrorResponse {
        status: 422,
        body: "invalid query: expected single field 'start_from=<EVENT ID>'\n".to_owned(),
    }
}

/// The response when the server already has as many subscribers as it allows.
pub fn create_503() -> (r: ErrorResponse)
    ensures
        r.status == 503,
        r.body@ == "server has reached limit of subscribers"@,
{
    ErrorResponse { status: 503, body: "server has reached limit of subscribers".to_owned() }
}

/// The starting id that a query asks for: `Some(None)` for an empty query,
/// `Some(Some(k))` for the single field `start_from=k`, `None` for anything else.
pub open spec fn query_start(query: Seq<(String, String)>) -> Option<Option<u32>> {
    if query.len() == 0 {
        Some(None)
    } else if query.len() > 1 {
        None
    } else if query[0].0@ == QUERY_FIELD@ {
        match parsed_u32(query[0].1@) {
            Some(k) => Some(Some(k)),
            None => None,
        }
    } else {
        None
    }
}

/// Extracts the starting event id from the query's fields, or `None` if there
/// are none; a 422 response for any other query.
pub fn parse_query(query: &Vec<(String, String)>) -> (r: Result<Option<u32>, ErrorResponse>)
    ensures
        match query_start(query@) {
            Some(s) => r == Ok::<Option<u32>, ErrorResponse>(s),
            None => r is Err && r->Err_0.status == 422,
        },
{
    if query.len() == 0 {
        return Ok(None);
    }
    if query.len() > 1 {
        return Err(create_422());
    }
    let (key, value) = &query[0];
    if !str_eq(key.as_str(), QUERY_FIELD) {
        return Err(create_422());
    }
    match parse_u32(value.as_str()) {
        Some(id) => Ok(Some(id)),
        None => Err(create_422()),
    }
}

/// What a valid subscription request asks for.
#[derive(Clone, Debug)]
pub struct UrlProps {
    pub event_filter: Vec<EventFilter>,
    pub stream_filter: Endpoint,
    pub start_from: Option<u32>,
}

/// The path part a request names: the root endpoint when it names none.
pub open spec fn requested_path(maybe_path_param: Option<String>) -> Seq<char> {
    match maybe_path_param {
        Some(p) => p@,
        None => SSE_API_ROOT_PATH@,
    }
}

/// The endpoint, its selection and the starting id of a request; 404 for an
/// unknown path, then 422 for a malformed query.
pub fn parse_url_props(maybe_path_param: Option<String>, query: &Vec<(String, String)>) -> (r:
    Result<UrlProps, ErrorResponse>)
    ensures
        match endpoint_of_path(requested_path(maybe_path_param)) {
            None => r is Err && r->Err_0.status == 404,
            Some(e) => match query_start(query@) {
                None => r is Err && r->Err_0.status == 422,
                Some(s) => r is Ok && r->Ok_0.stream_filter == e && r->Ok_0.event_filter@
                    == endpoint_filter(e) && r->Ok_0.start_from == s,
            },
        },
{
    let path_param = match maybe_path_param {
        Some(p) => p,
        None => SSE_API_ROOT_PATH.to_owned(),
    };
    let event_filter = match get_filter(path_param.as_str()) {
        Some(filter) => filter,
        None => {
            return Err(create_404());
        },
    };
    let stream_filter = match path_to_filter(path_param.as_str()) {
        Some(filter) => filter,
        None => {
            return Err(create_404());
        },
    };
    let start_from = match parse_query(query) {
        Ok(maybe_id) => maybe_id,
        Err(error_response) => {
            return Err(error_response);
        },
    };
    Ok(UrlProps { event_filter, stream_filter, start_from })
}

/// Whether a new subscriber is let in while `receiver_count` are attached.
pub open spec fn admits(receiver_count: nat, max_concurrent_subscribers: u32) -> bool {
    receiver_count < max_concurrent_subscribers
}

/// Refuses a new subscriber with 503 when the server already has the maximum
/// number of subscribers.
pub fn validate(receiver_count: usize, max_concurrent_subscribers: u32) -> (r: Option<
    ErrorResponse,
>)
    ensures
        admits(receiver_count as nat, max_concurrent_subscribers) <==> r is None,
        r is Some ==> r->0.status == 503,
{
    if receiver_count as u64 >= max_concurrent_subscribers as u64 {
        return Some(create_503());
    }
    None
}

/// Answers a subscription request: the path and the query are checked first
/// (404, then 422), then admission (503 when the server is full).
pub fn serve_sse_response_handler(
    maybe_path_param: Option<String>,
    query: &Vec<(String, String)>,
    receiver_count: usize,
    max_concurrent_subscribers: u32,
) -> (r: Result<UrlProps, ErrorResponse>)
    ensures
        match endpoint_of_path(requested_path(maybe_path_param)) {
            None => r is Err && r->Err_0.status == 404,
            Some(e) => match query_start(query@) {
                None => r is Err && r->Err_0.status == 422,
                Some(s) => if admits(receiver_count as nat, max_concurrent_subscribers) {
                    r is Ok && r->Ok_0.stream_filter == e && r->Ok_0.event_filter@
                        == endpoint_filter(e) && r->Ok_0.start_from == s
                } else {
                    r is Err && r->Err_0.status == 503
                },
            },
        },
{
    let props = match parse_url_props(maybe_path_param, query) {
        Ok(value) => value,
        Err(error_response) => {
            return Err(error_response);
        },
    };
    if let Some(value) = validate(receiver_count, max_concurrent_subscribers) {
        return Err(value);
    }
    Ok(props)
}

/// Whether a persisted event belongs to a replay from `start_from`.
pub open spec fn in_replay(event: ServerSentEvent, start_from: u32) -> bool {
    event.id matches Some(i) && i >= start_from
}

/// The persisted events replayed to a subscriber: none without a starting id,
/// else those with an id at or after it, in commit order.
pub open spec fn replay_from(persisted: Seq<ServerSentEvent>, start_from: Option<u32>) -> Seq<
    ServerSentEvent,
> {
    match start_from {
        None => Seq::empty(),
        Some(k) => persisted.filter(|e: ServerSentEvent| in_replay(e, k)),
    }
}

/// The initial stream of a subscriber: `first` (the version announcement),
/// then the replay from `start_from` of the persisted events.
pub fn initial_events(
    first: ServerSentEvent,
    persisted: &Vec<ServerSentEvent>,
    start_from: Option<u32>,
) -> (r: Vec<ServerSentEvent>)
    ensures
        r@ == seq![first] + replay_from(persisted@, start_from),
{
    let mut out: Vec<ServerSentEvent> = Vec::new();
    out.push(first);
    let k = match start_from {
        None => {
            assert(out@ =~= seq![first] + replay_from(persisted@, start_from));
            return out;
        },
        Some(k) => k,
    };
    let ghost keep = |e: ServerSentEvent| in_replay(e, k);
    let mut i: usize = 0;
    while i < persisted.len()
        invariant
            i <= persisted@.len(),
            start_from == Some(k),
            keep == (|e: ServerSentEvent| in_replay(e, k)),
            out@ == seq![first] + persisted@.take(i as int).filter(keep),
        decreases persisted@.len() - i,
    {
        let e = &persisted[i];
        proof {
            assert(persisted@.take(i + 1).drop_last() =~= persisted@.take(i as int));
            reveal(Seq::filter);
        }
        let keep_it = match e.id {
            Some(id) => id >= k,
            None => false,
        };
        if keep_it {
            out.push(e.duplicate());
        }
        i += 1;
        assert(out@ =~= seq![first] + persisted@.take(i as int).filter(keep));
    }
    assert(persisted@.take(i as int) =~= persisted@);
    out
}

/// An id, if any, as a set.
pub open spec fn id_set(id: Option<u32>) -> Set<u32> {
    match id {
        Some(i) => set![i],
        None => Set::empty(),
    }
}

/// The ids of `events`; version announcements have none.
pub open spec fn ids_of(events: Seq<ServerSentEvent>) -> Set<u32>
    decreases events.len(),
{
    if events.len() == 0 {
        Set::empty()
    } else {
        ids_of(events.drop_last()).union(id_set(events.last().id))
    }
}

/// Whether `event` was already delivered in an initial stream whose ids are `ids`.
pub open spec fn already_sent(ids: Set<u32>, event: ServerSentEvent) -> bool {
    event.id matches Some(i) && ids.contains(i)
}

/// The stream entries for at most one frame.
pub open spec fn sent(frame: Option<Frame>) -> Seq<Result<Frame, RecvError>> {
    match frame {
        Some(f) => seq![Ok(f)],
        None => Seq::empty(),
    }
}

/// The frames a subscriber receives for `events`, each passed through the
/// endpoint's rules.
pub open spec fn frames_of(events: Seq<ServerSentEvent>, endpoint: Endpoint, filter: Seq<
    EventFilter,
>) -> Seq<Result<Frame, RecvError>>
    decreases events.len(),
{
    if events.len() == 0 {
        Seq::empty()
    } else {
        sent(outbound_frame(events[0], endpoint, filter)) + frames_of(
            events.drop_first(),
            endpoint,
            filter,
        )
    }
}

/// The live part of a subscriber's stream: events already sent in the
/// initial stream are skipped, the rest pass the endpoint's rules; a server
/// shutdown ends the stream, and falling behind ends it with `Lagged`.
pub open spec fn live_results(
    items: Seq<LiveItem>,
    ids: Set<u32>,
    endpoint: Endpoint,
    filter: Seq<EventFilter>,
) -> Seq<Result<Frame, RecvError>>
    decreases items.len(),
{
    if items.len() == 0 {
        Seq::empty()
    } else {
        match items[0] {
            LiveItem::Message(BroadcastChannelMessage::Shutdown) => Seq::empty(),
            LiveItem::Lagged(n) => seq![Err(RecvError::Lagged(n))],
            LiveItem::Message(BroadcastChannelMessage::ServerSentEvent(e)) => if already_sent(
                ids,
                e,
            ) {
                live_results(items.drop_first(), ids, endpoint, filter)
            } else {
                sent(outbound_frame(e, endpoint, filter)) + live_results(
                    items.drop_first(),
                    ids,
                    endpoint,
                    filter,
                )
            },
        }
    }
}

/// The events that the live part lets through its duplicate check, before
/// the endpoint's rules.
pub open spec fn live_delivered(items: Seq<LiveItem>, ids: Set<u32>) -> Seq<ServerSentEvent>
    decreases items.len(),
{
    if items.len() == 0 {
        Seq::empty()
    } else {
        match items[0] {
            LiveItem::Message(BroadcastChannelMessage::Shutdown) => Seq::empty(),
            LiveItem::Lagged(_) => Seq::empty(),
            LiveItem::Message(BroadcastChannelMessage::ServerSentEvent(e)) => if already_sent(
                ids,
                e,
            ) {
                live_delivered(items.drop_first(), ids)
            } else {
                seq![e] + live_delivered(items.drop_first(), ids)
            },
        }
    }
}

/// The whole stream of a subscriber: the initial events, then the live ones.
pub open spec fn stream_results(
    initial: Seq<ServerSentEvent>,
    live: Seq<LiveItem>,
    endpoint: Endpoint,
    filter: Seq<EventFilter>,
) -> Seq<Result<Frame, RecvError>> {
    frames_of(initial, endpoint, filter) + live_results(live, ids_of(initial), endpoint, filter)
}

/// The frames and errors of a stream, as the subscriber sees them.
pub open spec fn result_views(results: Seq<Result<OutboundEvent, RecvError>>) -> Seq<
    Result<Frame, RecvError>,
> {
    results.map_values(
        |r: Result<OutboundEvent, RecvError>|
            match r {
                Ok(o) => Ok(o@),
                Err(e) => Err(e),
            },
    )
}

/// What one live item does to a subscriber's stream.
#[derive(Clone, Debug)]
pub enum StreamStep {
    /// Nothing is sent.
    Skip,
    /// This frame is sent.
    Send(OutboundEvent),
    /// The stream ends with this error.
    Fail(RecvError),
    /// The stream ends.
    End,
}

/// The stream error for a subscriber that fell behind by `amount` events.
pub fn handle_lagged(amount: u64) -> (r: RecvError)
    ensures
        r == RecvError::Lagged(amount),
{
    RecvError::Lagged(amount)
}

/// Whether a live event is new to a subscriber whose initial stream had the
/// ids `initial_stream_ids`.
pub fn handle_sse_event(event: &ServerSentEvent, initial_stream_ids: &HashSet<u32>) -> (r: bool)
    ensures
        r == !already_sent(initial_stream_ids@, *event),
{
    broadcast use vstd::std_specs::hash::group_hash_axioms;

    match event.id {
        Some(id) => !initial_stream_ids.contains(&id),
        None => true,
    }
}

/// The state of one subscriber's stream.
pub struct Subscription {
    pub stream_filter: Endpoint,
    pub event_filter: Vec<EventFilter>,
    /// Ids of the events delivered through the initial stream.
    pub initial_stream_ids: HashSet<u32>,
}

impl Subscription {
    pub fn new(stream_filter: Endpoint, event_filter: Vec<EventFilter>) -> (r: Subscription)
        ensures
            r.stream_filter == stream_filter,
            r.event_filter@ == event_filter@,
            r.initial_stream_ids@ == Set::<u32>::empty(),
    {
        Subscription { stream_filter, event_filter, initial_stream_ids: HashSet::new() }
    }

    /// Takes one event of the initial stream: records its id and returns the
    /// frame it gives, if any.
    pub fn on_initial_event(&mut self, event: &ServerSentEvent) -> (r: Option<OutboundEvent>)
        ensures
            final(self).stream_filter == old(self).stream_filter,
            final(self).event_filter@ == old(self).event_filter@,
            final(self).initial_stream_ids@ == old(self).initial_stream_ids@.union(id_set(event.id)),
            match outbound_frame(*event, old(self).stream_filter, old(self).event_filter@) {
                Some(f) => r is Some && r->0@ == f,
                None => r is None,
            },
    {
        broadcast use vstd::std_specs::hash::group_hash_axioms;

        if let Some(id) = event.id {
            self.initial_stream_ids.insert(id);
        }
        assert(self.initial_stream_ids@ =~= old(self).initial_stream_ids@.union(id_set(event.id)));
        filter_map_server_sent_event(event, &self.stream_filter, self.event_filter.as_slice())
    }

    /// Takes one item of the live stream.
    pub fn on_live_item(&self, item: &LiveItem) -> (r: StreamStep)
        ensures
            match *item {
                LiveItem::Message(BroadcastChannelMessage::Shutdown) => r is End,
                LiveItem::Lagged(n) => r == StreamStep::Fail(RecvError::Lagged(n)),
                LiveItem::Message(BroadcastChannelMessage::ServerSentEvent(e)) => if already_sent(
                    self.initial_stream_ids@,
                    e,
                ) {
                    r is Skip
                } else {
                    match outbound_frame(e, self.stream_filter, self.event_filter@) {
                        Some(f) => r is Send && r->Send_0@ == f,
                        None => r is Skip,
                    }
                },
            },
    {
        match item {
            LiveItem::Message(BroadcastChannelMessage::Shutdown) => StreamStep::End,
            LiveItem::Lagged(amount) => StreamStep::Fail(handle_lagged(*amount)),
            LiveItem::Message(BroadcastChannelMessage::ServerSentEvent(event)) => {
                if !handle_sse_event(event, &self.initial_stream_ids) {
                    return StreamStep::Skip;
                }
                match filter_map_server_sent_event(
                    event,
                    &self.stream_filter,
                    self.event_filter.as_slice(),
                ) {
                    Some(frame) => StreamStep::Send(frame),
                    None => StreamStep::Skip,
                }
            },
        }
    }
}


/// Serves one subscriber from its initial stream and the items of its live
/// receiver: every initial event is recorded and passed through the
/// endpoint's rules, then each live item is taken until the stream ends.
pub fn stream_to_client(
    initial: &Vec<ServerSentEvent>,
    ongoing: &Vec<LiveItem>,
    stream_filter: Endpoint,
    event_filter: Vec<EventFilter>,
) -> (r: Vec<Result<OutboundEvent, RecvError>>)
    ensures
        result_views(r@) == stream_results(initial@, ongoing@, stream_filter, event_filter@),
{
    let ghost filter = event_filter@;
    let mut subscription = Subscription::new(stream_filter, event_filter);
    let mut out: Vec<Result<OutboundEvent, RecvError>> = Vec::new();
    let mut i: usize = 0;
    assert(initial@.skip(0) =~= initial@);
    assert(initial@.take(0) =~= Seq::<ServerSentEvent>::empty());
    assert(result_views(out@) =~= Seq::empty());
    while i < initial.len()
        invariant
            i <= initial@.len(),
            subscription.stream_filter == stream_filter,
            subscription.event_filter@ == filter,
            filter == event_filter@,
            subscription.initial_stream_ids@ == ids_of(initial@.take(i as int)),
            result_views(out@) + frames_of(initial@.skip(i as int), stream_filter, filter)
                == frames_of(initial@, stream_filter, filter),
        decreases initial@.len() - i,
    {
        let event = &initial[i];
        let frame = subscription.on_initial_event(event);
        let ghost before = out@;
        proof {
            assert(initial@.skip(i as int).drop_first() =~= initial@.skip(i + 1));
            assert(initial@.take(i + 1).drop_last() =~= initial@.take(i as int));
            assert(initial@.skip(i as int)[0] == initial@[i as int]);
        }
        match frame {
            Some(f) => {
                out.push(Ok(f));
                assert(result_views(out@) =~= result_views(before) + sent(
                    outbound_frame(initial@[i as int], stream_filter, filter),
                ));
            },
            None => {},
        }
        i += 1;
    }
    assert(initial@.take(i as int) =~= initial@);
    assert(initial@.skip(i as int) =~= Seq::<ServerSentEvent>::empty());
    let ghost ids = ids_of(initial@);
    let mut j: usize = 0;
    assert(ongoing@.skip(0) =~= ongoing@);
    while j < ongoing.len()
        invariant
            j <= ongoing@.len(),
            subscription.stream_filter == stream_filter,
            subscription.event_filter@ == filter,
            filter == event_filter@,
            subscription.initial_stream_ids@ == ids,
            ids == ids_of(initial@),
            result_views(out@) + live_results(ongoing@.skip(j as int), ids, stream_filter, filter)
                == stream_results(initial@, ongoing@, stream_filter, filter),
        decreases ongoing@.len() - j,
    {
        let ghost before = out@;
        proof {
            assert(ongoing@.skip(j as int).drop_first() =~= ongoing@.skip(j + 1));
            assert(ongoing@.skip(j as int)[0] == ongoing@[j as int]);
        }
        match subscription.on_live_item(&ongoing[j]) {
            StreamStep::Skip => {},
            StreamStep::Send(f) => {
                out.push(Ok(f));
                assert(result_views(out@) =~= result_views(before).push(Ok(f@)));
            },
            StreamStep::Fail(e) => {
                assert(ongoing@[j as int] matches LiveItem::Lagged(_));
                out.push(Err(e));
                assert(live_results(ongoing@.skip(j as int), ids, stream_filter, filter) =~= seq![
                    Err(e),
                ]);
                assert(result_views(out@) =~= result_views(before) + seq![Err(e)]);
                return out;
            },
            StreamStep::End => {
                assert(ongoing@[j as int] matches LiveItem::Message(
                    BroadcastChannelMessage::Shutdown,
                ));
                assert(live_results(ongoing@.skip(j as int), ids, stream_filter, filter) =~= Seq::<
                    Result<Frame, RecvError>,
                >::empty());
                assert(result_views(out@) =~= result_views(before) + Seq::empty());
                return out;
            },
        }
        j += 1;
    }
    assert(ongoing@.skip(j as int) =~= Seq::<LiveItem>::empty());
    assert(result_views(out@) =~= result_views(out@) + Seq::empty());
    out
}

proof fn lemma_frames_of_concat(
    a: Seq<ServerSentEvent>,
    b: Seq<ServerSentEvent>,
    endpoint: Endpoint,
    filter: Seq<EventFilter>,
)
    ensures
        frames_of(a + b, endpoint, filter) == frames_of(a, endpoint, filter) + frames_of(
            b,
            endpoint,
            filter,
        ),
    decreases a.len(),
{
    if a.len() == 0 {
        assert(a + b =~= b);
    } else {
        lemma_frames_of_concat(a.drop_first(), b, endpoint, filter);
        assert((a + b).drop_first() =~= a.drop_first() + b);
        assert((a + b)[0] == a[0]);
    }
}

proof fn lemma_ids_of_concat(a: Seq<ServerSentEvent>, b: Seq<ServerSentEvent>)
    ensures
        ids_of(a + b) == ids_of(a).union(ids_of(b)),
    decreases b.len(),
{
    if b.len() == 0 {
        assert(a + b =~= a);
        assert(ids_of(a).union(ids_of(b)) =~= ids_of(a));
    } else {
        lemma_ids_of_concat(a, b.drop_last());
        assert((a + b).drop_last() =~= a + b.drop_last());
        assert((a + b).last() == b.last());
        assert(ids_of(a + b) =~= ids_of(a).union(ids_of(b)));
    }
}

proof fn lemma_live_events_unchanged(
    events: Seq<ServerSentEvent>,
    endpoint: Endpoint,
    filter: Seq<EventFilter>,
)
    ensures
        live_results(
            events.map_values(
                |e: ServerSentEvent| LiveItem::Message(BroadcastChannelMessage::ServerSentEvent(e)),
            ),
            Set::empty(),
            endpoint,
            filter,
        ) == frames_of(events, endpoint, filter),
    decreases events.len(),
{
    let f = |e: ServerSentEvent| LiveItem::Message(BroadcastChannelMessage::ServerSentEvent(e));
    if events.len() > 0 {
        lemma_live_events_unchanged(events.drop_first(), endpoint, filter);
        assert(events.map_values(f).drop_first() =~= events.drop_first().map_values(f));
        assert(events.map_values(f)[0] == f(events[0]));
    }
}

proof fn lemma_live_delivered_fresh(items: Seq<LiveItem>, ids: Set<u32>)
    ensures
        forall|k: int|
            0 <= k < live_delivered(items, ids).len() ==> !already_sent(
                ids,
                #[trigger] live_delivered(items, ids)[k],
            ),
    decreases items.len(),
{
    if items.len() > 0 {
        lemma_live_delivered_fresh(items.drop_first(), ids);
        let rest = live_delivered(items.drop_first(), ids);
        match items[0] {
            LiveItem::Message(BroadcastChannelMessage::ServerSentEvent(e)) => {
                if !already_sent(ids, e) {
                    assert forall|k: int|
                        0 <= k < live_delivered(items, ids).len() implies !already_sent(
                        ids,
                        #[trigger] live_delivered(items, ids)[k],
                    ) by {
                        if k > 0 {
                            assert(live_delivered(items, ids)[k] == rest[k - 1]);
                        }
                    }
                }
            },
            _ => {},
        }
    }
}

/// A subscriber that attaches before any event is ingested receives the
/// version announcement, then exactly the frames that the endpoint's rules
/// give for the ingested events, in order: nothing is dropped as a duplicate.
pub proof fn subscriber_before_ingest_sees_filtered_events(
    announcement: ServerSentEvent,
    ingested: Seq<ServerSentEvent>,
    endpoint: Endpoint,
    filter: Seq<EventFilter>,
)
    requires
        announcement.id is None,
    ensures
        stream_results(
            seq![announcement],
            ingested.map_values(
                |e: ServerSentEvent| LiveItem::Message(BroadcastChannelMessage::ServerSentEvent(e)),
            ),
            endpoint,
            filter,
        ) == sent(outbound_frame(announcement, endpoint, filter)) + frames_of(
            ingested,
            endpoint,
            filter,
        ),
{
    let first = seq![announcement];
    assert(first.drop_first() =~= Seq::<ServerSentEvent>::empty());
    assert(first.drop_last() =~= Seq::<ServerSentEvent>::empty());
    reveal_with_fuel(ids_of, 2);
    reveal_with_fuel(frames_of, 2);
    assert(ids_of(first) =~= Set::<u32>::empty());
    assert(frames_of(first, endpoint, filter) =~= sent(outbound_frame(announcement, endpoint, filter)));
    lemma_live_events_unchanged(ingested, endpoint, filter);
}

/// A subscriber that asks to start from `start_from` receives the version
/// announcement, then the frames of the persisted events from that id on, then
/// the live frames; no live event whose id was replayed is delivered again.
pub proof fn replay_then_live_without_repeats(
    announcement: ServerSentEvent,
    persisted: Seq<ServerSentEvent>,
    start_from: u32,
    live: Seq<LiveItem>,
    endpoint: Endpoint,
    filter: Seq<EventFilter>,
)
    requires
        announcement.id is None,
    ensures
        ({
            let replay = replay_from(persisted, Some(start_from));
            &&& stream_results(seq![announcement] + replay, live, endpoint, filter) == sent(
                outbound_frame(announcement, endpoint, filter),
            ) + frames_of(replay, endpoint, filter) + live_results(
                live,
                ids_of(replay),
                endpoint,
                filter,
            )
            &&& forall|k: int|
                0 <= k < live_delivered(live, ids_of(replay)).len() ==> !already_sent(
                    ids_of(replay),
                    #[trigger] live_delivered(live, ids_of(replay))[k],
                )
        }),
{
    let replay = replay_from(persisted, Some(start_from));
    let first = seq![announcement];
    assert(first.drop_first() =~= Seq::<ServerSentEvent>::empty());
    assert(first.drop_last() =~= Seq::<ServerSentEvent>::empty());
    reveal_with_fuel(ids_of, 2);
    reveal_with_fuel(frames_of, 2);
    assert(ids_of(first) =~= Set::<u32>::empty());
    assert(frames_of(first, endpoint, filter) =~= sent(outbound_frame(announcement, endpoint, filter)));
    lemma_frames_of_concat(first, replay, endpoint, filter);
    lemma_ids_of_concat(first, replay);
    assert(ids_of(first + replay) =~= ids_of(replay));
    lemma_live_delivered_fresh(live, ids_of(replay));
}

/// A subscriber whose receiver reports that it fell behind gets the `Lagged`
/// error and nothing after it.
pub proof fn lagged_subscriber_is_dropped(
    amount: u64,
    rest: Seq<LiveItem>,
    ids: Set<u32>,
    endpoint: Endpoint,
    filter: Seq<EventFilter>,
)
    ensures
        live_results(seq![LiveItem::Lagged(amount)] + rest, ids, endpoint, filter) == seq![
            Err::<Frame, RecvError>(RecvError::Lagged(amount)),
        ],
{
    assert((seq![LiveItem::Lagged(amount)] + rest)[0] == LiveItem::Lagged(amount));
}

/// With `max_concurrent_subscribers` at `n`, the subscriber that arrives while
/// `n` are attached is refused, and every earlier one is admitted.
pub proof fn admission_refuses_beyond_limit(n: u32)
    ensures
        !admits(n as nat, n),
        forall|count: nat| count < n ==> admits(count, n),
{
}

} // verus!
