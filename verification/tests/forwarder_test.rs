use weir_agent::backend::ingest_reply;
use weir_agent::forwarder::{Cycle, CycleOutcome, Phase, Reply, Step};
use weir_agent::state::AgentState;
use weir_agent::weir::{Batch, Event};

/// Events with these ids; each payload names its id, to check what is posted.
fn ids(ids: &[u64]) -> Vec<Event<String>> {
    ids.iter().map(|i| Event { id: Some(*i), payload: format!("event-{i}") }).collect()
}

fn batch(generation: &str, events: Vec<Event<String>>) -> Reply<String> {
    Reply::Fetched(Batch { generation: generation.to_string(), events })
}

/// Runs one cycle, answering each step from the queued replies; returns
/// every step asked for, and the state as last saved, if saved.
fn drive(
    batch_size: usize,
    state: &mut AgentState,
    mut replies: Vec<Reply<String>>,
) -> (Vec<Step<String>>, Option<AgentState>) {
    replies.reverse();
    let (mut cycle, mut step) = Cycle::start("inst".to_string(), batch_size, state);
    let mut steps = vec![step.clone()];
    let mut saved = None;
    loop {
        let reply = match step {
            Step::Done { .. } => return (steps, saved),
            Step::Save => {
                saved = Some(state.clone());
                Reply::Saved
            }
            _ => replies.pop().expect("a reply for every step"),
        };
        assert!(cycle.accepts(&reply));
        step = cycle.advance(state, reply);
        steps.push(step.clone());
    }
}

fn ingest(generation: &str, events: Vec<Event<String>>) -> Step<String> {
    Step::Ingest { instance_id: "inst".to_string(), generation: generation.to_string(), events }
}

fn outcome(steps: &[Step<String>]) -> CycleOutcome {
    match steps.last() {
        Some(Step::Done { outcome }) => *outcome,
        _ => panic!("cycle did not end"),
    }
}

#[test]
fn forwards_and_advances_cursor() {
    let mut state = AgentState::default();
    // A fresh state has no generation, so the first answer is a restart.
    let (steps, saved) = drive(
        500,
        &mut state,
        vec![batch("gen-1", ids(&[5, 6])), batch("gen-1", ids(&[5, 6])), ingest_reply(Some(202))],
    );
    assert_eq!(outcome(&steps), CycleOutcome::Forwarded { count: 2, more: false });
    assert_eq!(state.cursor, 6);
    assert_eq!(state.generation, "gen-1");
    assert_eq!(saved.unwrap().cursor, 6);
}

#[test]
fn empty_response_is_idle_and_holds_cursor() {
    let mut state = AgentState { generation: "gen-1".into(), cursor: 9 };
    let (steps, _) = drive(500, &mut state, vec![batch("gen-1", vec![])]);
    assert_eq!(outcome(&steps), CycleOutcome::Idle);
    assert_eq!(state.cursor, 9);
    assert_eq!(steps[0], Step::Fetch { since: 9, limit: 500 });
}

#[test]
fn full_batch_signals_more() {
    let mut state = AgentState { generation: "gen-1".into(), cursor: 0 };
    let (steps, _) = drive(2, &mut state, vec![batch("gen-1", ids(&[1, 2])), Reply::Ingested]);
    assert_eq!(outcome(&steps), CycleOutcome::Forwarded { count: 2, more: true });
}

#[test]
fn full_batch_of_idless_events_does_not_signal_more() {
    let mut state = AgentState { generation: "gen-1".into(), cursor: 0 };
    let events = vec![
        Event { id: None, payload: "a".to_string() },
        Event { id: None, payload: "b".to_string() },
    ];
    let (steps, _) = drive(2, &mut state, vec![batch("gen-1", events.clone()), Reply::Ingested]);
    assert_eq!(steps[1], ingest("gen-1", events));
    assert_eq!(outcome(&steps), CycleOutcome::Forwarded { count: 2, more: false });
    assert_eq!(state.cursor, 0);
}

#[test]
fn backend_failure_holds_cursor() {
    let mut state = AgentState { generation: "gen-1".into(), cursor: 0 };
    let (steps, saved) = drive(500, &mut state, vec![batch("gen-1", ids(&[5])), ingest_reply(Some(500))]);
    assert_eq!(outcome(&steps), CycleOutcome::Failed);
    assert_eq!(state.cursor, 0);
    assert!(saved.is_none());
}

#[test]
fn generation_change_refetches_from_zero_not_the_stale_response() {
    let mut state = AgentState { generation: "gen-OLD".into(), cursor: 100 };
    let (steps, _) = drive(
        500,
        &mut state,
        vec![batch("gen-NEW", ids(&[999])), batch("gen-NEW", ids(&[1, 2])), Reply::Ingested],
    );
    assert_eq!(steps[0], Step::Fetch { since: 100, limit: 500 });
    assert_eq!(steps[1], Step::Fetch { since: 0, limit: 500 });
    // The refetched events are posted under the new generation, not the stale ones.
    assert_eq!(steps[2], ingest("gen-NEW", ids(&[1, 2])));
    assert_eq!(outcome(&steps), CycleOutcome::Forwarded { count: 2, more: false });
    assert_eq!(state.generation, "gen-NEW");
    assert_eq!(state.cursor, 2);
}

#[test]
fn generation_change_then_refetch_failure_persists_generation_and_fails() {
    let mut state = AgentState { generation: "gen-OLD".into(), cursor: 100 };
    let (steps, saved) = drive(500, &mut state, vec![batch("gen-NEW", ids(&[5])), Reply::FetchFailed]);
    assert_eq!(outcome(&steps), CycleOutcome::Failed);
    assert_eq!(state.generation, "gen-NEW");
    assert_eq!(state.cursor, 0);
    assert_eq!(saved, Some(AgentState { generation: "gen-NEW".into(), cursor: 0 }));
}

#[test]
fn fetch_failure_ends_the_cycle_without_saving() {
    let mut state = AgentState { generation: "gen-1".into(), cursor: 4 };
    let (steps, saved) = drive(500, &mut state, vec![Reply::FetchFailed]);
    assert_eq!(steps, vec![Step::Fetch { since: 4, limit: 500 }, Step::Done { outcome: CycleOutcome::Failed }]);
    assert_eq!(state, AgentState { generation: "gen-1".into(), cursor: 4 });
    assert!(saved.is_none());
}

#[test]
fn accepted_ingest_is_saved_before_the_cycle_ends() {
    let mut state = AgentState { generation: "g".into(), cursor: 1 };
    let (steps, saved) = drive(10, &mut state, vec![batch("g", ids(&[3, 9, 4])), Reply::Ingested]);
    assert_eq!(
        steps,
        vec![
            Step::Fetch { since: 1, limit: 10 },
            ingest("g", ids(&[3, 9, 4])),
            Step::Save,
            Step::Done { outcome: CycleOutcome::Forwarded { count: 3, more: false } },
        ]
    );
    assert_eq!(saved, Some(AgentState { generation: "g".into(), cursor: 9 }));
}

#[test]
fn finished_cycle_accepts_no_reply() {
    let state = AgentState { generation: "g".into(), cursor: 0 };
    let (mut cycle, _) = Cycle::start::<String>("inst".to_string(), 5, &state);
    assert_eq!(cycle.phase, Phase::Fetching);
    assert!(!cycle.accepts(&Reply::<String>::Ingested));
    let mut state = state;
    let step = cycle.advance(&mut state, Reply::<String>::FetchFailed);
    assert_eq!(step, Step::Done { outcome: CycleOutcome::Failed });
    assert_eq!(cycle.phase, Phase::Finished { outcome: CycleOutcome::Failed });
    assert!(!cycle.accepts(&Reply::<String>::Saved));
    assert!(!cycle.accepts(&Reply::<String>::FetchFailed));
}

// A full drain: Weir returns a full batch then a partial one; the agent
// forwards both, advances the cursor, and saves it.
#[test]
fn drains_backlog_across_cycles_and_persists() {
    let mut state = AgentState::default();
    // First cycle: a fresh state adopts "gen-1" and fetches from 0.
    let (steps, _) = drive(
        2,
        &mut state,
        vec![
            batch("gen-1", ids(&[1, 2])),
            batch("gen-1", ids(&[1, 2])),
            Reply::Ingested,
        ],
    );
    assert_eq!(outcome(&steps), CycleOutcome::Forwarded { count: 2, more: true });
    assert_eq!(state.cursor, 2);
    // Second cycle: fetches since 2, forwards id 3 (partial, so done).
    let (steps, saved) = drive(2, &mut state, vec![batch("gen-1", ids(&[3])), Reply::Ingested]);
    assert_eq!(steps[0], Step::Fetch { since: 2, limit: 2 });
    assert_eq!(steps[1], ingest("gen-1", ids(&[3])));
    assert_eq!(outcome(&steps), CycleOutcome::Forwarded { count: 1, more: false });
    assert_eq!(state.cursor, 3);
    assert_eq!(saved, Some(AgentState { generation: "gen-1".into(), cursor: 3 }));
}
