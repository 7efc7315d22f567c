use crate::state::{AgentState, AgentStateView};
use crate::weir::{lemma_max_id_is_maximum, max_event_id, max_id, Batch, BatchView, Event};
use vstd::prelude::*;

verus! {

/// How one poll cycle ended.
#[derive(Debug, Clone, Copy, PartialEq, Eq, Structural)]
pub enum CycleOutcome {
    /// Nothing to forward this cycle.
    Idle,
    /// Forwarded `count` events; `more` is true if the batch was full (a
    /// backlog may remain and the caller should cycle again immediately).
    Forwarded { count: usize, more: bool },
    /// A transient failure (Weir or backend). The cursor has not advanced;
    /// retry later.
    Failed,
}

/// Where a poll cycle stands: which reply it waits for.
#[derive(Debug, Clone, Copy, PartialEq, Eq, Structural)]
pub enum Phase {
    /// Waiting for the fetch of events since the cursor.
    Fetching,
    /// Weir restarted; waiting for the fetch of events since 0.
    Refetching,
    /// Waiting for the backend's answer to the ingest of a batch of `count`
    /// events whose highest numeric id is `max_id`.
    Ingesting { count: usize, max_id: Option<u64> },
    /// Waiting for the state to be persisted; the cycle then ends with `outcome`.
    Persisting { outcome: CycleOutcome },
    /// The cycle has ended with `outcome`.
    Finished { outcome: CycleOutcome },
}

/// The outside work a cycle asks for next.
#[derive(Debug, Clone, PartialEq, Eq)]
pub enum Step<P> {
    /// GET Weir's events with ids after `since`, at most `limit` of them.
    Fetch { since: u64, limit: usize },
    /// POST `{ instance_id, generation, events }` to the backend, the events'
    /// payloads verbatim and in this order.
    Ingest { instance_id: String, generation: String, events: Vec<Event<P>> },
    /// Persist the agent's current state.
    Save,
    /// The cycle is over.
    Done { outcome: CycleOutcome },
}

/// The view of a `Step`.
pub enum StepView<P> {
    Fetch { since: u64, limit: usize },
    Ingest { instance_id: Seq<char>, generation: Seq<char>, events: Seq<Event<P>> },
    Save,
    Done { outcome: CycleOutcome },
}

impl<P> View for Step<P> {
    type V = StepView<P>;

    open spec fn view(&self) -> StepView<P> {
        match self {
            Step::Fetch { since, limit } => StepView::Fetch { since: *since, limit: *limit },
            Step::Ingest { instance_id, generation, events } => StepView::Ingest {
                instance_id: instance_id@,
                generation: generation@,
                events: events@,
            },
            Step::Save => StepView::Save,
            Step::Done { outcome } => StepView::Done { outcome: *outcome },
        }
    }
}

/// What became of the outside work a `Step` asked for.
#[derive(Debug, Clone, PartialEq, Eq)]
pub enum Reply<P> {
    /// Weir answered with this batch.
    Fetched(Batch<P>),
    /// Weir could not be reached, answered with a non-2xx status, or sent a
    /// body that does not parse.
    FetchFailed,
    /// The backend accepted the batch (a 2xx status).
    Ingested,
    /// The backend could not be reached or did not accept the batch.
    IngestFailed,
    /// The state was written, or writing it failed; the cycle goes on the same.
    Saved,
}

/// The view of a `Reply`.
pub enum ReplyView<P> {
    Fetched(BatchView<P>),
    FetchFailed,
    Ingested,
    IngestFailed,
    Saved,
}

impl<P> View for Reply<P> {
    type V = ReplyView<P>;

    open spec fn view(&self) -> ReplyView<P> {
        match self {
            Reply::Fetched(b) => ReplyView::Fetched(b@),
            Reply::FetchFailed => ReplyView::FetchFailed,
            Reply::Ingested => ReplyView::Ingested,
            Reply::IngestFailed => ReplyView::IngestFailed,
            Reply::Saved => ReplyView::Saved,
        }
    }
}

/// The replies a cycle in `phase` waits for.
pub open spec fn accepts<P>(phase: Phase, reply: ReplyView<P>) -> bool {
    match phase {
        Phase::Fetching | Phase::Refetching => reply is Fetched || reply is FetchFailed,
        Phase::Ingesting { .. } => reply is Ingested || reply is IngestFailed,
        Phase::Persisting { .. } => reply is Saved,
        Phase::Finished { .. } => false,
    }
}

/// With a batch of `events` in hand and the agent at `generation`: an empty
/// batch ends the cycle idle (after persisting the state); otherwise the
/// batch is posted under `instance_id` and `generation`, exactly as fetched.
pub open spec fn with_batch<P>(instance_id: Seq<char>, generation: Seq<char>, events: Seq<Event<P>>) -> (Phase, StepView<P>) {
    if events.len() == 0 {
        (Phase::Persisting { outcome: CycleOutcome::Idle }, StepView::Save)
    } else {
        (
            Phase::Ingesting { count: events.len() as usize, max_id: max_id(events) },
            StepView::Ingest { instance_id, generation, events },
        )
    }
}

/// The outcome of a batch of `count` events with highest numeric id
/// `max_id` that the backend accepted: `more` when the batch was full and the
/// cursor could advance.
pub open spec fn forwarded(batch_size: usize, count: usize, max_id: Option<u64>) -> CycleOutcome {
    CycleOutcome::Forwarded { count, more: count >= batch_size && max_id is Some }
}

/// One transition of a poll cycle of the agent `instance_id` with batch
/// size `batch_size`: from `phase` and agent state `s`, on `reply`, the next
/// phase, the next state and the next step.
///
/// - A fetch that fails ends the cycle `Failed`; after a restart it first
///   persists the new generation and reset cursor.
/// - A batch from a Weir generation other than the agent's means Weir
///   restarted: the agent adopts that generation, resets its cursor to 0 and
///   fetches again from 0, discarding the batch in hand.
/// - An empty batch ends the cycle `Idle` after persisting the state; a
///   non-empty one is posted verbatim under the agent's instance id and
///   current generation.
/// - An accepted ingest moves the cursor to the batch's highest numeric id
///   (when there is one), persists the state and ends `Forwarded`; a refused
///   one ends `Failed` with the cursor untouched.
pub open spec fn next<P>(
    instance_id: Seq<char>,
    batch_size: usize,
    phase: Phase,
    s: AgentStateView,
    reply: ReplyView<P>,
) -> (Phase, AgentStateView, StepView<P>) {
    match (phase, reply) {
        (Phase::Fetching, ReplyView::Fetched(b)) => {
            if b.generation != s.generation {
                (
                    Phase::Refetching,
                    AgentStateView { generation: b.generation, cursor: 0 },
                    StepView::Fetch { since: 0, limit: batch_size },
                )
            } else {
                let w = with_batch(instance_id, s.generation, b.events);
                (w.0, s, w.1)
            }
        },
        (Phase::Fetching, ReplyView::FetchFailed) => (
            Phase::Finished { outcome: CycleOutcome::Failed },
            s,
            StepView::Done { outcome: CycleOutcome::Failed },
        ),
        (Phase::Refetching, ReplyView::Fetched(b)) => {
            let w = with_batch(instance_id, s.generation, b.events);
            (w.0, s, w.1)
        },
        (Phase::Refetching, ReplyView::FetchFailed) => (
            Phase::Persisting { outcome: CycleOutcome::Failed },
            s,
            StepView::Save,
        ),
        (Phase::Ingesting { count, max_id }, ReplyView::Ingested) => (
            Phase::Persisting { outcome: forwarded(batch_size, count, max_id) },
            match max_id {
                Some(m) => AgentStateView { generation: s.generation, cursor: m },
                None => s,
            },
            StepView::Save,
        ),
        (Phase::Ingesting { .. }, ReplyView::IngestFailed) => (
            Phase::Finished { outcome: CycleOutcome::Failed },
            s,
            StepView::Done { outcome: CycleOutcome::Failed },
        ),
        (Phase::Persisting { outcome }, ReplyView::Saved) => (
            Phase::Finished { outcome },
            s,
            StepView::Done { outcome },
        ),
        _ => (phase, s, StepView::Done { outcome: CycleOutcome::Failed }),
    }
}

/// One poll cycle: fetch since the current cursor, detect a Weir restart
/// (generation change) and reset the cursor if so, forward the batch, and on
/// success advance and persist the cursor. The cycle asks for its outside
/// work one `Step` at a time and is told what became of it by a `Reply`.
pub struct Cycle {
    pub instance_id: String,
    pub batch_size: usize,
    pub phase: Phase,
}

impl Cycle {
    /// Starts a cycle of the agent `instance_id`: the first step fetches up
    /// to `batch_size` events since the agent's cursor.
    pub fn start<P>(instance_id: String, batch_size: usize, state: &AgentState) -> (r: (Cycle, Step<P>))
        ensures
            r.0.instance_id@ == instance_id@,
            r.0.batch_size == batch_size,
            r.0.phase == Phase::Fetching,
            r.1@ == (StepView::<P>::Fetch { since: state.cursor, limit: batch_size }),
    {
        (Cycle { instance_id, batch_size, phase: Phase::Fetching }, Step::Fetch { since: state.cursor, limit: batch_size })
    }

    /// Whether the cycle waits for `reply`.
    pub fn accepts<P>(&self, reply: &Reply<P>) -> (b: bool)
        ensures
            b == accepts(self.phase, reply@),
    {
        match self.phase {
            Phase::Fetching | Phase::Refetching => match reply {
                Reply::Fetched(_) | Reply::FetchFailed => true,
                _ => false,
            },
            Phase::Ingesting { .. } => match reply {
                Reply::Ingested | Reply::IngestFailed => true,
                _ => false,
            },
            Phase::Persisting { .. } => match reply {
                Reply::Saved => true,
                _ => false,
            },
            Phase::Finished { .. } => false,
        }
    }

    fn take_batch<P>(&mut self, generation: &String, events: Vec<Event<P>>) -> (step: Step<P>)
        ensures
            (final(self).phase, step@) == with_batch(old(self).instance_id@, generation@, events@),
            final(self).instance_id == old(self).instance_id,
            final(self).batch_size == old(self).batch_size,
    {
        if events.len() == 0 {
            self.phase = Phase::Persisting { outcome: CycleOutcome::Idle };
            Step::Save
        } else {
            let max_id = max_event_id(events.as_slice());
            self.phase = Phase::Ingesting { count: events.len(), max_id };
            Step::Ingest { instance_id: self.instance_id.clone(), generation: generation.clone(), events }
        }
    }

    /// Takes in what became of the last step and returns the next one,
    /// updating the agent's state as `next` says.
    pub fn advance<P>(&mut self, state: &mut AgentState, reply: Reply<P>) -> (step: Step<P>)
        requires
            accepts(old(self).phase, reply@),
        ensures
            (final(self).phase, final(state)@, step@) == next(
                old(self).instance_id@,
                old(self).batch_size,
                old(self).phase,
                old(state)@,
                reply@,
            ),
            final(self).instance_id == old(self).instance_id,
            final(self).batch_size == old(self).batch_size,
    {
        match (self.phase, reply) {
            (Phase::Fetching, Reply::Fetched(b)) => {
                if b.generation == state.generation {
                    self.take_batch(&state.generation, b.events)
                } else {
                    state.generation = b.generation;
                    state.cursor = 0;
                    self.phase = Phase::Refetching;
                    Step::Fetch { since: 0, limit: self.batch_size }
                }
            },
            (Phase::Fetching, _) => {
                self.phase = Phase::Finished { outcome: CycleOutcome::Failed };
                Step::Done { outcome: CycleOutcome::Failed }
            },
            (Phase::Refetching, Reply::Fetched(b)) => self.take_batch(&state.generation, b.events),
            (Phase::Refetching, _) => {
                self.phase = Phase::Persisting { outcome: CycleOutcome::Failed };
                Step::Save
            },
            (Phase::Ingesting { count, max_id }, Reply::Ingested) => {
                let advanced = match max_id {
                    Some(m) => {
                        state.cursor = m;
                        true
                    },
                    None => false,
                };
                let outcome = CycleOutcome::Forwarded { count, more: count >= self.batch_size && advanced };
                self.phase = Phase::Persisting { outcome };
                Step::Save
            },
            (Phase::Ingesting { .. }, _) => {
                self.phase = Phase::Finished { outcome: CycleOutcome::Failed };
                Step::Done { outcome: CycleOutcome::Failed }
            },
            (Phase::Persisting { outcome }, _) => {
                self.phase = Phase::Finished { outcome };
                Step::Done { outcome }
            },
            (Phase::Finished { .. }, _) => Step::Done { outcome: CycleOutcome::Failed },
        }
    }
}

/// Whether the poll loop should run the next cycle at once rather than sleep
/// for the poll interval: exactly when a cycle forwarded a full batch and
/// advanced the cursor (a backlog may remain). An idle cycle, a short batch
/// and a failure all wait for the interval.
pub fn cycles_again_at_once(outcome: CycleOutcome) -> (b: bool)
    ensures
        b == (outcome matches CycleOutcome::Forwarded { more, .. } && more),
{
    match outcome {
        CycleOutcome::Forwarded { more, .. } => more,
        _ => false,
    }
}

/// How many more replies a cycle in `phase` waits for, at most.
pub open spec fn remaining(phase: Phase) -> nat {
    match phase {
        Phase::Fetching => 4,
        Phase::Refetching => 3,
        Phase::Ingesting { .. } => 2,
        Phase::Persisting { .. } => 1,
        Phase::Finished { .. } => 0,
    }
}

/// A cycle of the agent `instance_id` driven by `replies` in order from
/// `phase` and state `s`: the phase and state it reaches. Replies the cycle
/// does not wait for are passed over.
pub open spec fn run<P>(
    instance_id: Seq<char>,
    batch_size: usize,
    phase: Phase,
    s: AgentStateView,
    replies: Seq<ReplyView<P>>,
) -> (Phase, AgentStateView)
    decreases replies.len(),
{
    if replies.len() == 0 {
        (phase, s)
    } else if !accepts(phase, replies[0]) {
        run(instance_id, batch_size, phase, s, replies.drop_first())
    } else {
        let n = next(instance_id, batch_size, phase, s, replies[0]);
        run(instance_id, batch_size, n.0, n.1, replies.drop_first())
    }
}

/// A failure (Weir unreachable or refusing, the backend unreachable or not
/// accepting) leaves the agent's generation and cursor as they were.
pub proof fn lemma_failure_holds_state<P>(
    instance_id: Seq<char>,
    batch_size: usize,
    phase: Phase,
    s: AgentStateView,
    reply: ReplyView<P>,
)
    requires
        accepts(phase, reply),
        reply is FetchFailed || reply is IngestFailed,
    ensures
        next(instance_id, batch_size, phase, s, reply).1 == s,
{
}

/// The cursor moves in one of two ways only: to the highest numeric id of a
/// batch the backend accepted, or back to 0 when Weir reports a generation
/// other than the agent's (a restart), together with adopting it.
pub proof fn lemma_cursor_moves_only_on_accepted_ingest_or_restart<P>(
    instance_id: Seq<char>,
    batch_size: usize,
    phase: Phase,
    s: AgentStateView,
    reply: ReplyView<P>,
)
    requires
        accepts(phase, reply),
    ensures
        ({
            let t = next(instance_id, batch_size, phase, s, reply).1;
            t != s ==> {
                ||| (reply is Ingested && (phase matches Phase::Ingesting { max_id, .. } && max_id == Some(t.cursor))
                    && t.generation == s.generation)
                ||| (phase is Fetching && (reply matches ReplyView::Fetched(b) && b.generation != s.generation
                    && t == (AgentStateView { generation: b.generation, cursor: 0 })))
            }
        }),
{
}

/// Restart detection: a batch from a generation other than the agent's
/// makes the agent adopt that generation, reset its cursor to 0 and fetch
/// again from 0; the events of that batch are not forwarded.
pub proof fn lemma_restart_resets_cursor_and_refetches<P>(
    instance_id: Seq<char>,
    batch_size: usize,
    s: AgentStateView,
    b: BatchView<P>,
)
    requires
        b.generation != s.generation,
    ensures
        next(instance_id, batch_size, Phase::Fetching, s, ReplyView::Fetched(b)) == (
            Phase::Refetching,
            AgentStateView { generation: b.generation, cursor: 0 },
            StepView::<P>::Fetch { since: 0, limit: batch_size },
        ),
{
}

/// Every fetch asks for at most `batch_size` events after the agent's cursor
/// as it stands when the fetch is asked for.
pub proof fn lemma_fetch_resumes_from_cursor<P>(
    instance_id: Seq<char>,
    batch_size: usize,
    phase: Phase,
    s: AgentStateView,
    reply: ReplyView<P>,
)
    requires
        accepts(phase, reply),
    ensures
        ({
            let n = next(instance_id, batch_size, phase, s, reply);
            n.2 matches StepView::Fetch { since, limit } ==> since == n.1.cursor && limit == batch_size
        }),
{
}

/// What is posted: a batch is forwarded exactly when it holds events, and
/// then its events go to the backend verbatim (same events, same order, none
/// added or dropped) under the agent's instance id and its generation as it
/// stands before the ingest; an empty batch ends the cycle `Idle` after
/// persisting. The agent's state does not change either way.
pub proof fn lemma_batch_is_posted_verbatim_or_idle<P>(
    instance_id: Seq<char>,
    batch_size: usize,
    phase: Phase,
    s: AgentStateView,
    b: BatchView<P>,
)
    requires
        phase is Refetching || (phase is Fetching && b.generation == s.generation),
    ensures
        ({
            let n = next(instance_id, batch_size, phase, s, ReplyView::Fetched(b));
            &&& n.1 == s
            &&& b.events.len() == 0 ==> n.0 == (Phase::Persisting { outcome: CycleOutcome::Idle })
                && n.2 == StepView::<P>::Save
            &&& b.events.len() > 0 ==> n.2 == (StepView::Ingest { instance_id, generation: s.generation, events: b.events })
                && n.0 == (Phase::Ingesting { count: b.events.len() as usize, max_id: max_id(b.events) })
        }),
{
}

/// The only events ever posted are those of the batch just fetched: an
/// `Ingest` step follows a `Fetched` reply and carries that batch's events.
pub proof fn lemma_only_fetched_events_are_posted<P>(
    instance_id: Seq<char>,
    batch_size: usize,
    phase: Phase,
    s: AgentStateView,
    reply: ReplyView<P>,
)
    requires
        accepts(phase, reply),
    ensures
        ({
            let n = next(instance_id, batch_size, phase, s, reply);
            n.2 matches StepView::Ingest { instance_id: iid, generation, events } ==> {
                &&& reply matches ReplyView::Fetched(b) && b.events == events && events.len() > 0
                &&& iid == instance_id
                &&& generation == s.generation
                &&& generation == n.1.generation
            }
        }),
{
}

/// A batch the backend accepted moves the cursor to the batch's highest
/// numeric id (it stays put when no event has one), and the state is then
/// persisted; the cycle reports the batch's size, and `more` exactly when the
/// batch was full and the cursor could advance.
pub proof fn lemma_accepted_ingest_advances_and_persists<P>(
    instance_id: Seq<char>,
    batch_size: usize,
    count: usize,
    max_id: Option<u64>,
    s: AgentStateView,
)
    ensures
        ({
            let n = next(instance_id, batch_size, Phase::Ingesting { count, max_id }, s, ReplyView::<P>::Ingested);
            &&& n.2 == StepView::<P>::Save
            &&& n.1.generation == s.generation
            &&& n.1.cursor == (match max_id {
                Some(m) => m,
                None => s.cursor,
            })
            &&& n.0 == (Phase::Persisting {
                outcome: CycleOutcome::Forwarded { count, more: count >= batch_size && max_id is Some },
            })
        }),
{
}

/// Every reply a cycle waits for brings its end closer, so a cycle ends
/// after at most four replies; the step is `Done` exactly when the cycle has
/// ended, and a cycle never goes back to its first fetch.
pub proof fn lemma_each_reply_brings_the_end_closer<P>(
    instance_id: Seq<char>,
    batch_size: usize,
    phase: Phase,
    s: AgentStateView,
    reply: ReplyView<P>,
)
    requires
        accepts(phase, reply),
    ensures
        ({
            let n = next(instance_id, batch_size, phase, s, reply);
            &&& remaining(n.0) < remaining(phase)
            &&& n.2 is Done <==> n.0 is Finished
            &&& !(n.0 is Fetching)
        }),
{
}

/// A cycle outcome that reports forwarded events.
pub open spec fn is_forwarded(o: CycleOutcome) -> bool {
    o matches CycleOutcome::Forwarded { .. }
}

/// A phase whose cycle has already settled on reporting forwarded events.
pub open spec fn settled_forwarded(p: Phase) -> bool {
    ||| (p matches Phase::Persisting { outcome } && is_forwarded(outcome))
    ||| (p matches Phase::Finished { outcome } && is_forwarded(outcome))
}

/// A batch the backend refused (any answer but a 2xx, or none) ends the
/// cycle at once as `Failed`, whatever the size of the batch and whatever its
/// ids, with the agent's state untouched and nothing persisted.
pub proof fn lemma_refused_ingest_fails<P>(
    instance_id: Seq<char>,
    batch_size: usize,
    count: usize,
    max_id: Option<u64>,
    s: AgentStateView,
)
    ensures
        next(instance_id, batch_size, Phase::Ingesting { count, max_id }, s, ReplyView::<P>::IngestFailed) == (
            Phase::Finished { outcome: CycleOutcome::Failed },
            s,
            StepView::<P>::Done { outcome: CycleOutcome::Failed },
        ),
{
}

/// A failed fetch: the first one ends the cycle `Failed` at once with
/// nothing persisted; the one after a restart persists the new generation
/// and reset cursor first, then ends `Failed`. The state is not touched.
pub proof fn lemma_failed_fetch_fails<P>(instance_id: Seq<char>, batch_size: usize, s: AgentStateView)
    ensures
        next(instance_id, batch_size, Phase::Fetching, s, ReplyView::<P>::FetchFailed) == (
            Phase::Finished { outcome: CycleOutcome::Failed },
            s,
            StepView::<P>::Done { outcome: CycleOutcome::Failed },
        ),
        next(instance_id, batch_size, Phase::Refetching, s, ReplyView::<P>::FetchFailed) == (
            Phase::Persisting { outcome: CycleOutcome::Failed },
            s,
            StepView::<P>::Save,
        ),
{
}

/// Saving never changes how a cycle ends: once the cycle waits for the save
/// with an outcome in hand, the save ends it with exactly that outcome.
pub proof fn lemma_save_keeps_the_outcome<P>(
    instance_id: Seq<char>,
    batch_size: usize,
    outcome: CycleOutcome,
    s: AgentStateView,
)
    ensures
        next(instance_id, batch_size, Phase::Persisting { outcome }, s, ReplyView::<P>::Saved) == (
            Phase::Finished { outcome },
            s,
            StepView::<P>::Done { outcome },
        ),
{
}

proof fn lemma_run_never_forwards_without_ingest<P>(
    instance_id: Seq<char>,
    batch_size: usize,
    phase: Phase,
    s: AgentStateView,
    replies: Seq<ReplyView<P>>,
)
    requires
        forall|i: int| 0 <= i < replies.len() ==> !(#[trigger] replies[i] is Ingested),
        !settled_forwarded(phase),
    ensures
        !settled_forwarded(run(instance_id, batch_size, phase, s, replies).0),
    decreases replies.len(),
{
    if replies.len() > 0 {
        let rest = replies.drop_first();
        assert forall|i: int| 0 <= i < rest.len() implies !(#[trigger] rest[i] is Ingested) by {
            assert(rest[i] == replies[i + 1]);
        }
        assert(!(replies[0] is Ingested));
        if accepts(phase, replies[0]) {
            let n = next(instance_id, batch_size, phase, s, replies[0]);
            lemma_run_never_forwards_without_ingest(instance_id, batch_size, n.0, n.1, rest);
        } else {
            lemma_run_never_forwards_without_ingest(instance_id, batch_size, phase, s, rest);
        }
    }
}

/// A cycle reports events as forwarded only if the backend accepted a batch:
/// over any sequence of replies, a cycle that ends (or is about to end)
/// `Forwarded` was given an `Ingested` reply. A refused or failed ingest can
/// never be reported as forwarded.
pub proof fn lemma_forwarded_only_after_accepted_ingest<P>(
    instance_id: Seq<char>,
    batch_size: usize,
    s: AgentStateView,
    replies: Seq<ReplyView<P>>,
)
    ensures
        settled_forwarded(run(instance_id, batch_size, Phase::Fetching, s, replies).0) ==> exists|i: int|
            0 <= i < replies.len() && #[trigger] replies[i] is Ingested,
{
    if !(exists|i: int| 0 <= i < replies.len() && #[trigger] replies[i] is Ingested) {
        lemma_run_never_forwards_without_ingest(instance_id, batch_size, Phase::Fetching, s, replies);
    }
}

/// Draining a backlog: a whole cycle in which Weir answers (in the agent's
/// generation) with a full batch, at least `batch_size` events of which some
/// carry a numeric id, the backend accepts it and the state is saved, ends
/// `Forwarded` with the batch's size and `more` set, so the agent cycles again
/// at once; its cursor is then the batch's highest id. A full batch with no
/// numeric id ends with `more` unset, the cursor where it was.
pub proof fn lemma_full_accepted_batch_signals_more<P>(
    instance_id: Seq<char>,
    batch_size: usize,
    s: AgentStateView,
    b: BatchView<P>,
)
    requires
        b.generation == s.generation,
        batch_size <= b.events.len() <= usize::MAX,
        b.events.len() > 0,
    ensures
        ({
            let r = run(
                instance_id,
                batch_size,
                Phase::Fetching,
                s,
                seq![ReplyView::Fetched(b), ReplyView::Ingested, ReplyView::Saved],
            );
            let has_id = exists|i: int| 0 <= i < b.events.len() && (#[trigger] b.events[i]).id is Some;
            &&& r.0 == (Phase::Finished {
                outcome: CycleOutcome::Forwarded { count: b.events.len() as usize, more: has_id },
            })
            &&& r.1.generation == s.generation
            &&& has_id ==> (exists|i: int| 0 <= i < b.events.len() && (#[trigger] b.events[i]).id == Some(r.1.cursor))
                && (forall|i: int| 0 <= i < b.events.len() && (#[trigger] b.events[i]).id is Some ==> b.events[i].id->0 <= r.1.cursor)
            &&& !has_id ==> r.1.cursor == s.cursor
        }),
{
    lemma_max_id_is_maximum(b.events);
    let replies = seq![ReplyView::Fetched(b), ReplyView::<P>::Ingested, ReplyView::<P>::Saved];
    let n1 = next(instance_id, batch_size, Phase::Fetching, s, replies[0]);
    let n2 = next(instance_id, batch_size, n1.0, n1.1, replies[1]);
    let n3 = next(instance_id, batch_size, n2.0, n2.1, replies[2]);
    assert(replies.drop_first() =~= seq![ReplyView::<P>::Ingested, ReplyView::<P>::Saved]);
    assert(replies.drop_first().drop_first() =~= seq![ReplyView::<P>::Saved]);
    assert(replies.drop_first().drop_first().drop_first() =~= Seq::<ReplyView<P>>::empty());
    assert(run(instance_id, batch_size, n3.0, n3.1, replies.drop_first().drop_first().drop_first()) == (n3.0, n3.1));
    assert(run(instance_id, batch_size, n2.0, n2.1, replies.drop_first().drop_first()) == (n3.0, n3.1));
    assert(run(instance_id, batch_size, n1.0, n1.1, replies.drop_first()) == (n3.0, n3.1));
    if exists|i: int| 0 <= i < b.events.len() && (#[trigger] b.events[i]).id is Some {
        let i = choose|i: int| 0 <= i < b.events.len() && (#[trigger] b.events[i]).id is Some;
        assert(b.events[i].id is Some);
    }
}

/// Which replies a cycle takes is fixed by the step it asked for: after a
/// fetch (the first one or the one after a restart) every fetch answer is
/// taken, a batch of any size or a failure, and nothing else; after an
/// ingest, exactly the backend's answers; after a save, exactly `Saved`; and
/// once the cycle is done, nothing.
pub proof fn lemma_answers_to_each_step_are_taken<P>(
    instance_id: Seq<char>,
    batch_size: usize,
    phase: Phase,
    s: AgentStateView,
    reply: ReplyView<P>,
    answer: ReplyView<P>,
)
    requires
        accepts(phase, reply),
    ensures
        ({
            let n = next(instance_id, batch_size, phase, s, reply);
            &&& n.2 is Fetch ==> (accepts(n.0, answer) <==> (answer is Fetched || answer is FetchFailed))
            &&& n.2 is Ingest ==> (accepts(n.0, answer) <==> (answer is Ingested || answer is IngestFailed))
            &&& n.2 is Save ==> (accepts(n.0, answer) <==> answer is Saved)
            &&& n.2 is Done ==> !accepts(n.0, answer)
        }),
{
}

/// A cycle waiting for a fetch, the first or the one after a restart, takes
/// every answer to it: any batch (empty or not, from any generation) and a
/// failure; it takes no other reply.
pub proof fn lemma_fetch_answers_are_taken<P>(phase: Phase, answer: ReplyView<P>)
    requires
        phase is Fetching || phase is Refetching,
    ensures
        accepts(phase, answer) <==> (answer is Fetched || answer is FetchFailed),
{
}

proof fn lemma_run_without_ingest<P>(
    instance_id: Seq<char>,
    batch_size: usize,
    phase: Phase,
    cur: AgentStateView,
    s: AgentStateView,
    replies: Seq<ReplyView<P>>,
)
    requires
        forall|i: int| 0 <= i < replies.len() ==> !(#[trigger] replies[i] is Ingested),
        cur == s || (cur.cursor == 0 && cur.generation != s.generation && !(phase is Fetching)),
    ensures
        ({
            let f = run(instance_id, batch_size, phase, cur, replies).1;
            f == s || (f.cursor == 0 && f.generation != s.generation)
        }),
    decreases replies.len(),
{
    if replies.len() > 0 {
        let rest = replies.drop_first();
        assert forall|i: int| 0 <= i < rest.len() implies !(#[trigger] rest[i] is Ingested) by {
            assert(rest[i] == replies[i + 1]);
        }
        assert(!(replies[0] is Ingested));
        if accepts(phase, replies[0]) {
            let n = next(instance_id, batch_size, phase, cur, replies[0]);
            lemma_each_reply_brings_the_end_closer(instance_id, batch_size, phase, cur, replies[0]);
            lemma_run_without_ingest(instance_id, batch_size, n.0, n.1, s, rest);
        } else {
            lemma_run_without_ingest(instance_id, batch_size, phase, cur, s, rest);
        }
    }
}

/// At-least-once delivery: over a whole cycle in which the backend accepts
/// nothing, the cursor never advances. The agent's state ends as it began,
/// or, when Weir restarted, with the new generation and the cursor at 0.
pub proof fn lemma_cycle_without_accepted_ingest_never_advances<P>(
    instance_id: Seq<char>,
    batch_size: usize,
    s: AgentStateView,
    replies: Seq<ReplyView<P>>,
)
    requires
        forall|i: int| 0 <= i < replies.len() ==> !(#[trigger] replies[i] is Ingested),
    ensures
        ({
            let f = run(instance_id, batch_size, Phase::Fetching, s, replies).1;
            f == s || (f.cursor == 0 && f.generation != s.generation)
        }),
{
    lemma_run_without_ingest(instance_id, batch_size, Phase::Fetching, s, s, replies);
}

} // verus!
