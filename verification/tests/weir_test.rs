use weir_agent::backend::{ingest_reply, is_success_status};
use weir_agent::forwarder::Reply;
use weir_agent::weir::{fetch_reply, max_event_id, Batch, Event};

fn ev(id: u64) -> Event<u32> {
    Event { id: Some(id), payload: 0 }
}

fn no_id() -> Event<u32> {
    Event { id: None, payload: 1 }
}

#[test]
fn max_event_id_reads_ids() {
    let events = vec![ev(3), ev(7), ev(5)];
    assert_eq!(max_event_id(&events), Some(7));
    assert_eq!(max_event_id::<u32>(&[]), None);
}

#[test]
fn max_event_id_skips_events_without_numeric_id() {
    assert_eq!(max_event_id(&[no_id(), no_id()]), None);
    assert_eq!(max_event_id(&[no_id(), ev(4), no_id(), ev(2)]), Some(4));
    assert_eq!(max_event_id(&[ev(u64::MAX), ev(0)]), Some(u64::MAX));
}

#[test]
fn any_2xx_is_success() {
    for ok in [200u16, 202, 204, 299] {
        assert!(is_success_status(ok));
    }
    for bad in [0u16, 199, 300, 401, 404, 500] {
        assert!(!is_success_status(bad));
    }
}

#[test]
fn ingest_reply_accepts_only_2xx() {
    assert!(matches!(ingest_reply(Some(202)), Reply::<u32>::Ingested));
    assert!(matches!(ingest_reply(Some(200)), Reply::<u32>::Ingested));
    assert!(matches!(ingest_reply(Some(204)), Reply::<u32>::Ingested));
    assert!(matches!(ingest_reply(Some(401)), Reply::<u32>::IngestFailed));
    assert!(matches!(ingest_reply(Some(500)), Reply::<u32>::IngestFailed));
    assert!(matches!(ingest_reply(None), Reply::<u32>::IngestFailed));
}

#[test]
fn fetch_reply_needs_2xx_and_a_parsed_body() {
    let batch = Batch { generation: "gen-abc".to_string(), events: vec![ev(11)] };
    match fetch_reply(Some(200), Some(batch.clone())) {
        Reply::Fetched(b) => {
            assert_eq!(b.generation, "gen-abc");
            assert_eq!(b.events, vec![ev(11)]);
            assert_eq!(max_event_id(&b.events), Some(11));
        }
        _ => panic!("expected a batch"),
    }
    assert!(matches!(fetch_reply(Some(500), Some(batch.clone())), Reply::FetchFailed));
    assert!(matches!(fetch_reply::<u32>(Some(200), None), Reply::FetchFailed));
    assert!(matches!(fetch_reply::<u32>(None, None), Reply::FetchFailed));
}
