use event_sidecar::event::{
    BroadcastChannelMessage, Endpoint, EventData, EventFilter, EventKind, ServerSentEvent,
    SseFilter,
};
use event_sidecar::outbound::{
    determine_id, filter_map_server_sent_event, get_filter, path_to_filter, should_send_shutdown,
    OutboundEvent, SSE_API_DEPLOYS_PATH, SSE_API_MAIN_PATH, SSE_API_SIGNATURES_PATH,
};
use event_sidecar::subscription::{
    initial_events, parse_query, parse_url_props, serve_sse_response_handler, stream_to_client,
    validate, LiveItem, RecvError,
};

const NUM_INITIAL_EVENTS: usize = 10;
const NUM_ONGOING_EVENTS: usize = 20;

fn main_filter() -> Vec<EventFilter> {
    get_filter(SSE_API_MAIN_PATH).unwrap()
}

fn deploys_filter() -> Vec<EventFilter> {
    get_filter(SSE_API_DEPLOYS_PATH).unwrap()
}

fn signatures_filter() -> Vec<EventFilter> {
    get_filter(SSE_API_SIGNATURES_PATH).unwrap()
}

fn event(id: Option<u32>, kind: EventKind, payload: &str) -> ServerSentEvent {
    ServerSentEvent {
        id,
        data: EventData { kind, payload: payload.to_string() },
        json_data: None,
        inbound_filter: None,
    }
}

fn should_filter_out(event: &ServerSentEvent, filter: &[EventFilter]) {
    assert!(
        filter_map_server_sent_event(event, &Endpoint::Main, filter).is_none(),
        "should filter out {:?} with {:?}",
        event,
        filter
    );
}

fn should_not_filter_out(event: &ServerSentEvent, filter: &[EventFilter]) {
    assert!(
        filter_map_server_sent_event(event, &Endpoint::Main, filter).is_some(),
        "should not filter out {:?} with {:?}",
        event,
        filter
    );
}

fn block_payload(n: u32) -> String {
    format!("{{\"block_hash\":\"{:064x}\",\"block\":{{\"height\":{}}}}}", n, n)
}

fn deploy_payload(n: u32) -> String {
    format!("{{\"hash\":\"{:064x}\"}}", n)
}

fn signature_payload(n: u32) -> String {
    format!("{{\"block_hash\":\"{:064x}\",\"signature\":\"{:x}\"}}", n, n)
}

#[test]
fn should_filter_events_with_valid_ids() {
    let api_version = event(None, EventKind::ApiVersion, "\"1.5.2\"");
    let block_added = event(Some(11), EventKind::BlockAdded, &block_payload(1));
    let deploy_accepted = event(Some(12), EventKind::DeployAccepted, &deploy_payload(2));
    let deploy_processed = event(Some(13), EventKind::DeployProcessed, "{\"deploy_hash\":\"aa\"}");
    let deploy_expired = event(Some(14), EventKind::DeployExpired, "{\"deploy_hash\":\"bb\"}");
    let fault = event(Some(15), EventKind::Fault, "{\"era_id\":3}");
    let finality_signature = event(Some(16), EventKind::FinalitySignature, &signature_payload(3));
    let step = event(Some(17), EventKind::Step, "{\"era_id\":4}");
    let mut shutdown = event(Some(18), EventKind::Shutdown, "");
    shutdown.inbound_filter = Some(SseFilter::Main);

    let main = main_filter();
    should_not_filter_out(&api_version, &main);
    should_not_filter_out(&block_added, &main);
    should_not_filter_out(&deploy_processed, &main);
    should_not_filter_out(&deploy_expired, &main);
    should_not_filter_out(&fault, &main);
    should_not_filter_out(&step, &main);
    should_not_filter_out(&shutdown, &main);

    should_filter_out(&deploy_accepted, &main);
    should_filter_out(&finality_signature, &main);

    let deploys = deploys_filter();
    should_not_filter_out(&api_version, &deploys);
    should_not_filter_out(&deploy_accepted, &deploys);
    should_not_filter_out(&shutdown, &deploys);

    should_filter_out(&block_added, &deploys);
    should_filter_out(&deploy_processed, &deploys);
    should_filter_out(&deploy_expired, &deploys);
    should_filter_out(&fault, &deploys);
    should_filter_out(&finality_signature, &deploys);
    should_filter_out(&step, &deploys);

    let sigs = signatures_filter();
    should_not_filter_out(&api_version, &sigs);
    should_not_filter_out(&finality_signature, &sigs);
    should_not_filter_out(&shutdown, &sigs);

    should_filter_out(&block_added, &sigs);
    should_filter_out(&deploy_accepted, &sigs);
    should_filter_out(&deploy_processed, &sigs);
    should_filter_out(&deploy_expired, &sigs);
    should_filter_out(&fault, &sigs);
    should_filter_out(&step, &sigs);
}

#[test]
fn should_filter_events_with_invalid_ids() {
    let malformed_api_version = event(Some(21), EventKind::ApiVersion, "\"1.5.2\"");
    let malformed_block_added = event(None, EventKind::BlockAdded, &block_payload(1));
    let malformed_deploy_accepted = event(None, EventKind::DeployAccepted, &deploy_payload(2));
    let malformed_deploy_processed = event(None, EventKind::DeployProcessed, "{}");
    let malformed_deploy_expired = event(None, EventKind::DeployExpired, "{}");
    let malformed_fault = event(None, EventKind::Fault, "{}");
    let malformed_finality_signature = event(None, EventKind::FinalitySignature, "{}");
    let malformed_step = event(None, EventKind::Step, "{}");
    let malformed_shutdown = event(None, EventKind::Shutdown, "");

    for filter in &[main_filter(), deploys_filter(), signatures_filter()] {
        should_filter_out(&malformed_api_version, filter);
        should_filter_out(&malformed_block_added, filter);
        should_filter_out(&malformed_deploy_accepted, filter);
        should_filter_out(&malformed_deploy_processed, filter);
        should_filter_out(&malformed_deploy_expired, filter);
        should_filter_out(&malformed_fault, filter);
        should_filter_out(&malformed_finality_signature, filter);
        should_filter_out(&malformed_step, filter);
        should_filter_out(&malformed_shutdown, filter);
    }
}

// `count` events of the single kind that `path_filter` selects, with
// sequential ids from `start_id`.
fn make_random_events(start_id: u32, count: usize, path_filter: &str) -> Vec<ServerSentEvent> {
    (start_id..(start_id + count as u32))
        .map(|id| {
            let (kind, payload) = match path_filter {
                SSE_API_MAIN_PATH => (EventKind::BlockAdded, block_payload(id)),
                SSE_API_DEPLOYS_PATH => (EventKind::DeployAccepted, deploy_payload(id)),
                SSE_API_SIGNATURES_PATH => (EventKind::FinalitySignature, signature_payload(id)),
                _ => unreachable!(),
            };
            event(Some(id), kind, &payload)
        })
        .collect()
}

// `NUM_ONGOING_EVENTS` events for the live stream, starting with the last
// `duplicate_count` events of the initial stream.
fn make_ongoing_events(
    duplicate_count: usize,
    initial_events: &[ServerSentEvent],
    path_filter: &str,
) -> Vec<ServerSentEvent> {
    assert!(duplicate_count < initial_events.len());
    let initial_skip_count = initial_events.len() - duplicate_count;
    let unique_start_id = initial_events.len() as u32 - 1;
    let unique_count = NUM_ONGOING_EVENTS - duplicate_count;
    initial_events
        .iter()
        .skip(initial_skip_count)
        .cloned()
        .chain(make_random_events(unique_start_id, unique_count, path_filter))
        .collect()
}

fn expected_json(event: &ServerSentEvent) -> String {
    match event.data.kind {
        EventKind::ApiVersion => format!("{{\"ApiVersion\":{}}}", event.data.payload),
        EventKind::BlockAdded => format!("{{\"BlockAdded\":{}}}", event.data.payload),
        EventKind::DeployAccepted => {
            format!("{{\"DeployAccepted\":{{\"deploy_accepted\":{}}}}}", event.data.payload)
        }
        EventKind::FinalitySignature => {
            format!("{{\"FinalitySignature\":{}}}", event.data.payload)
        }
        _ => unreachable!(),
    }
}

fn should_filter_duplicate_events(path_filter: &str) {
    let mut initial_events: Vec<ServerSentEvent> =
        vec![ServerSentEvent::initial_event("\"1.0.0\"".to_string())];
    initial_events.extend(make_random_events(0, NUM_INITIAL_EVENTS, path_filter));

    // Where a single event is duplicated, where five are, and where the whole
    // initial stream but its first event is.
    for duplicate_count in &[1, 5, NUM_INITIAL_EVENTS] {
        let ongoing_events = make_ongoing_events(*duplicate_count, &initial_events, path_filter);
        let ongoing: Vec<LiveItem> = ongoing_events
            .iter()
            .cloned()
            .map(|e| LiveItem::Message(BroadcastChannelMessage::ServerSentEvent(e)))
            .collect();

        let stream_filter = path_to_filter(path_filter).unwrap();
        let received_events = stream_to_client(
            &initial_events,
            &ongoing,
            stream_filter,
            get_filter(path_filter).unwrap(),
        );

        let deduplicated_events: Vec<ServerSentEvent> = initial_events
            .iter()
            .take(initial_events.len() - duplicate_count)
            .cloned()
            .chain(ongoing_events)
            .collect();

        assert_eq!(received_events.len(), deduplicated_events.len());

        for (received_event, deduplicated_event) in
            received_events.iter().zip(deduplicated_events.iter())
        {
            let received_event = received_event.as_ref().unwrap();
            match deduplicated_event.id {
                Some(id) => assert_eq!(received_event.id, Some(id.to_string())),
                None => assert_eq!(received_event.id, None),
            }
            assert_eq!(received_event.data, expected_json(deduplicated_event));
        }
    }
}

#[test]
fn should_filter_duplicate_main_events() {
    should_filter_duplicate_events(SSE_API_MAIN_PATH)
}

#[test]
fn should_filter_duplicate_deploys_events() {
    should_filter_duplicate_events(SSE_API_DEPLOYS_PATH)
}

#[test]
fn should_filter_duplicate_signature_events() {
    should_filter_duplicate_events(SSE_API_SIGNATURES_PATH)
}

fn query(pairs: &[(&str, &str)]) -> Vec<(String, String)> {
    pairs.iter().map(|(k, v)| (k.to_string(), v.to_string())).collect()
}

#[test]
fn handshake_frame_is_api_version_with_empty_id() {
    let initial = vec![ServerSentEvent::initial_event("\"1.0.0\"".to_string())];
    let out = stream_to_client(&initial, &Vec::new(), Endpoint::Main, main_filter());
    assert_eq!(out.len(), 1);
    let frame = out[0].as_ref().unwrap();
    assert_eq!(frame.data, "{\"ApiVersion\":\"1.0.0\"}");
    assert_eq!(frame.id, None);
}

#[test]
fn block_added_passes_through_with_its_id() {
    let mut block = event(Some(7), EventKind::BlockAdded, &block_payload(7));
    let raw = format!("{{\"BlockAdded\":{}}}", block_payload(7));
    block.json_data = Some(raw.clone());
    block.inbound_filter = Some(SseFilter::Main);
    let initial = vec![ServerSentEvent::initial_event("\"1.0.0\"".to_string())];
    let live = vec![LiveItem::Message(BroadcastChannelMessage::ServerSentEvent(block))];
    let out = stream_to_client(&initial, &live, Endpoint::Main, main_filter());
    assert_eq!(out.len(), 2);
    let frame = out[1].as_ref().unwrap();
    assert_eq!(frame.id, Some("7".to_string()));
    assert_eq!(frame.data, raw);
    assert!(frame.data.starts_with("{\"BlockAdded\":"));
}

#[test]
fn upstream_json_is_sent_verbatim() {
    let mut e = event(Some(3), EventKind::Fault, "{\"era_id\":1}");
    e.json_data = Some("{\"Fault\": {\"era_id\": 1 }}".to_string());
    let frame = filter_map_server_sent_event(&e, &Endpoint::Main, &main_filter()).unwrap();
    assert_eq!(frame.data, "{\"Fault\": {\"era_id\": 1 }}");
    assert_eq!(frame.id, Some("3".to_string()));
}

#[test]
fn deploy_accepted_is_wrapped_when_made_here() {
    let e = event(Some(4), EventKind::DeployAccepted, "{\"hash\":\"ab\"}");
    let frame = filter_map_server_sent_event(&e, &Endpoint::Deploys, &deploys_filter()).unwrap();
    assert_eq!(frame.data, "{\"DeployAccepted\":{\"deploy_accepted\":{\"hash\":\"ab\"}}}");
}

#[test]
fn replay_dedup_at_the_seam() {
    let persisted: Vec<ServerSentEvent> = (1..=10)
        .map(|id| event(Some(id), EventKind::BlockAdded, &block_payload(id)))
        .collect();
    let initial = initial_events(
        ServerSentEvent::initial_event("\"1.0.0\"".to_string()),
        &persisted,
        Some(5),
    );
    assert_eq!(initial.len(), 7);
    // id 10 is broadcast again after its commit, then id 11 arrives
    let live: Vec<LiveItem> = vec![10, 11, 12]
        .into_iter()
        .map(|id| {
            LiveItem::Message(BroadcastChannelMessage::ServerSentEvent(event(
                Some(id),
                EventKind::BlockAdded,
                &block_payload(id),
            )))
        })
        .collect();
    let out = stream_to_client(&initial, &live, Endpoint::Main, main_filter());
    let ids: Vec<Option<String>> = out.iter().map(|r| r.as_ref().unwrap().id.clone()).collect();
    let expected: Vec<Option<String>> = std::iter::once(None)
        .chain((5..=12).map(|i: u32| Some(i.to_string())))
        .collect();
    assert_eq!(ids, expected);
    assert_eq!(out[0].as_ref().unwrap().data, "{\"ApiVersion\":\"1.0.0\"}");
}

#[test]
fn replay_without_start_from_is_only_the_announcement() {
    let persisted = vec![event(Some(1), EventKind::BlockAdded, &block_payload(1))];
    let initial = initial_events(
        ServerSentEvent::initial_event("\"1.0.0\"".to_string()),
        &persisted,
        None,
    );
    assert_eq!(initial.len(), 1);
    assert_eq!(initial[0].data.kind, EventKind::ApiVersion);
}

#[test]
fn subscriber_before_ingest_sees_filtered_stream() {
    let initial = vec![ServerSentEvent::initial_event("\"1.0.0\"".to_string())];
    let live: Vec<LiveItem> = vec![
        event(Some(1), EventKind::BlockAdded, &block_payload(1)),
        event(Some(2), EventKind::DeployAccepted, &deploy_payload(2)),
        event(Some(3), EventKind::Step, "{\"era_id\":9}"),
    ]
    .into_iter()
    .map(|e| LiveItem::Message(BroadcastChannelMessage::ServerSentEvent(e)))
    .collect();
    let out = stream_to_client(&initial, &live, Endpoint::Main, main_filter());
    let ids: Vec<Option<String>> = out.iter().map(|r| r.as_ref().unwrap().id.clone()).collect();
    assert_eq!(ids, vec![None, Some("1".to_string()), Some("3".to_string())]);
    assert_eq!(out[2].as_ref().unwrap().data, "{\"Step\":{\"era_id\":9}}");
}

#[test]
fn lagged_subscriber_loses_its_stream() {
    let initial = vec![ServerSentEvent::initial_event("\"1.0.0\"".to_string())];
    let live = vec![
        LiveItem::Message(BroadcastChannelMessage::ServerSentEvent(event(
            Some(1),
            EventKind::BlockAdded,
            &block_payload(1),
        ))),
        LiveItem::Lagged(5001),
        LiveItem::Message(BroadcastChannelMessage::ServerSentEvent(event(
            Some(5003),
            EventKind::BlockAdded,
            &block_payload(5003),
        ))),
    ];
    let out = stream_to_client(&initial, &live, Endpoint::Main, main_filter());
    assert_eq!(out.len(), 3);
    assert!(matches!(out[2], Err(RecvError::Lagged(5001))));
}

#[test]
fn server_shutdown_ends_every_stream() {
    let initial = vec![ServerSentEvent::initial_event("\"1.0.0\"".to_string())];
    let live = vec![
        LiveItem::Message(BroadcastChannelMessage::Shutdown),
        LiveItem::Message(BroadcastChannelMessage::ServerSentEvent(event(
            Some(1),
            EventKind::BlockAdded,
            &block_payload(1),
        ))),
    ];
    let out = stream_to_client(&initial, &live, Endpoint::Main, main_filter());
    assert_eq!(out.len(), 1);
}

#[test]
fn upstream_shutdown_reaches_only_corresponding_endpoints() {
    let mut shutdown = event(Some(30), EventKind::Shutdown, "");
    shutdown.inbound_filter = Some(SseFilter::Main);
    let main = filter_map_server_sent_event(&shutdown, &Endpoint::Main, &main_filter()).unwrap();
    assert_eq!(main.data, "\"Shutdown\"");
    assert_eq!(main.id, Some("30".to_string()));
    assert!(filter_map_server_sent_event(&shutdown, &Endpoint::Deploys, &deploys_filter()).is_none());
    assert!(should_send_shutdown(&shutdown, &Endpoint::Events));
    assert!(!should_send_shutdown(&shutdown, &Endpoint::Sigs));
    shutdown.inbound_filter = Some(SseFilter::Events);
    assert!(should_send_shutdown(&shutdown, &Endpoint::Main));
    shutdown.inbound_filter = None;
    assert!(should_send_shutdown(&shutdown, &Endpoint::Sidecar));
    assert!(!should_send_shutdown(&shutdown, &Endpoint::Main));
}

#[test]
fn determine_id_renders_decimal_or_empty() {
    assert_eq!(determine_id(&event(Some(0), EventKind::Step, "{}")), Some("0".to_string()));
    assert_eq!(
        determine_id(&event(Some(4294967295), EventKind::Step, "{}")),
        Some("4294967295".to_string())
    );
    assert_eq!(determine_id(&event(None, EventKind::SidecarVersion, "\"1\"")), Some(String::new()));
    assert_eq!(determine_id(&event(Some(1), EventKind::SidecarVersion, "\"1\"")), None);
}

#[test]
fn admission_refuses_the_subscriber_beyond_the_limit() {
    assert!(validate(0, 1).is_none());
    let refused = validate(1, 1).unwrap();
    assert_eq!(refused.status, 503);
    assert_eq!(refused.body, "server has reached limit of subscribers");
    let r = serve_sse_response_handler(Some("main".to_string()), &query(&[]), 1, 1);
    assert_eq!(r.unwrap_err().status, 503);
    let r = serve_sse_response_handler(Some("main".to_string()), &query(&[]), 0, 1);
    assert_eq!(r.unwrap().stream_filter, Endpoint::Main);
}

#[test]
fn request_is_checked_before_admission() {
    let r = serve_sse_response_handler(Some("nope".to_string()), &query(&[]), 5, 1);
    assert_eq!(r.unwrap_err().status, 404);
    let r = serve_sse_response_handler(Some("main".to_string()), &query(&[("x", "1")]), 5, 1);
    assert_eq!(r.unwrap_err().status, 422);
    let r = serve_sse_response_handler(None, &query(&[("start_from", "2")]), 5, 1);
    assert_eq!(r.unwrap_err().status, 503);
}

#[test]
fn query_boundaries() {
    assert_eq!(parse_query(&query(&[])).unwrap(), None);
    assert_eq!(parse_query(&query(&[("start_from", "4294967295")])).unwrap(), Some(u32::MAX));
    assert_eq!(parse_query(&query(&[("start_from", "+12")])).unwrap(), Some(12));
    assert_eq!(parse_query(&query(&[("start_from", "4294967296")])).unwrap_err().status, 422);
    assert_eq!(parse_query(&query(&[("start_from", "abc")])).unwrap_err().status, 422);
    assert_eq!(parse_query(&query(&[("start_from", "")])).unwrap_err().status, 422);
    assert_eq!(parse_query(&query(&[("start_from", "-1")])).unwrap_err().status, 422);
    assert_eq!(parse_query(&query(&[("other", "1")])).unwrap_err().status, 422);
    assert_eq!(
        parse_query(&query(&[("start_from", "1"), ("other", "1")])).unwrap_err().status,
        422
    );
}

#[test]
fn url_props_by_path() {
    let props = parse_url_props(None, &query(&[])).unwrap();
    assert_eq!(props.stream_filter, Endpoint::Events);
    assert_eq!(
        props.event_filter,
        vec![
            EventFilter::ApiVersion,
            EventFilter::BlockAdded,
            EventFilter::DeployProcessed,
            EventFilter::Fault,
            EventFilter::FinalitySignature
        ]
    );
    let props = parse_url_props(Some("sidecar".to_string()), &query(&[("start_from", "3")])).unwrap();
    assert_eq!(props.stream_filter, Endpoint::Sidecar);
    assert_eq!(props.event_filter, vec![EventFilter::SidecarVersion]);
    assert_eq!(props.start_from, Some(3));
    let unknown = parse_url_props(Some("nope".to_string()), &query(&[("x", "y")])).unwrap_err();
    assert_eq!(unknown.status, 404);
    assert!(unknown.body.starts_with("invalid path"));
    let bad = parse_url_props(Some("deploys".to_string()), &query(&[("x", "y")])).unwrap_err();
    assert_eq!(bad.status, 422);
}

#[test]
fn sidecar_endpoint_gets_only_its_version() {
    let sidecar = ServerSentEvent::sidecar_version_event("\"0.1.0\"".to_string());
    let filter = get_filter("sidecar").unwrap();
    let frame: OutboundEvent =
        filter_map_server_sent_event(&sidecar, &Endpoint::Sidecar, &filter).unwrap();
    assert_eq!(frame.data, "{\"SidecarVersion\":\"0.1.0\"}");
    assert_eq!(frame.id, None);
    let api = ServerSentEvent::initial_event("\"1.0.0\"".to_string());
    assert!(filter_map_server_sent_event(&api, &Endpoint::Sidecar, &filter).is_none());
}
