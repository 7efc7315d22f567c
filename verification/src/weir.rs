use crate::backend::{is_success, is_success_status};
use crate::forwarder::{Reply, ReplyView};
use vstd::prelude::*;

verus! {

/// One event from Weir's `/events` response: its numeric `id`, when it has
/// one, and the event itself (`payload`), which is forwarded verbatim and
/// never inspected beyond the id.
#[derive(Debug, Clone, PartialEq, Eq)]
pub struct Event<P> {
    pub id: Option<u64>,
    pub payload: P,
}

/// One page of Weir's `/events` response: the generation of the Weir
/// process that served it and the events it holds, in order.
#[derive(Debug, Clone, PartialEq, Eq)]
pub struct Batch<P> {
    pub generation: String,
    pub events: Vec<Event<P>>,
}

/// The view of a `Batch`.
pub struct BatchView<P> {
    pub generation: Seq<char>,
    pub events: Seq<Event<P>>,
}

impl<P> View for Batch<P> {
    type V = BatchView<P>;

    open spec fn view(&self) -> BatchView<P> {
        BatchView { generation: self.generation@, events: self.events@ }
    }
}

/// The larger of two optional ids, an absent id counting as smaller than any.
pub open spec fn max_opt(a: Option<u64>, b: Option<u64>) -> Option<u64> {
    match (a, b) {
        (None, x) => x,
        (Some(x), None) => Some(x),
        (Some(x), Some(y)) => Some(if x >= y { x } else { y }),
    }
}

/// The highest numeric id among `events`, or `None` when no event has one.
pub open spec fn max_id<P>(events: Seq<Event<P>>) -> Option<u64>
    decreases events.len(),
{
    if events.len() == 0 {
        None
    } else {
        max_opt(max_id(events.drop_last()), events.last().id)
    }
}

/// `max_id` is the maximum: it is `None` exactly when no event carries an
/// id, and otherwise it is the id of some event and no event has a larger id.
pub proof fn lemma_max_id_is_maximum<P>(events: Seq<Event<P>>)
    ensures
        max_id(events) is None <==> (forall|i: int| 0 <= i < events.len() ==> #[trigger] events[i].id is None),
        max_id(events) matches Some(m) ==> {
            &&& exists|i: int| 0 <= i < events.len() && #[trigger] events[i].id == Some(m)
            &&& forall|i: int| 0 <= i < events.len() && #[trigger] events[i].id is Some ==> events[i].id->0 <= m
        },
    decreases events.len(),
{
    if events.len() > 0 {
        let init = events.drop_last();
        let last = events.len() - 1;
        lemma_max_id_is_maximum(init);
        assert(forall|i: int| 0 <= i < init.len() ==> #[trigger] init[i] == events[i]);
        if max_id(events) is None {
            assert forall|i: int| 0 <= i < events.len() implies #[trigger] events[i].id is None by {
                if i < last {
                    assert(init[i] == events[i]);
                }
            }
        } else {
            let m = max_id(events)->0;
            if max_id(init) == Some(m) {
                let j = choose|j: int| 0 <= j < init.len() && #[trigger] init[j].id == Some(m);
                assert(events[j].id == Some(m));
            } else {
                assert(events[last].id == Some(m));
            }
            assert forall|i: int| 0 <= i < events.len() && #[trigger] events[i].id is Some implies events[i].id->0 <= m by {
                if i < last {
                    assert(init[i] == events[i]);
                    assert(init[i].id is Some);
                }
            }
        }
        if forall|i: int| 0 <= i < events.len() ==> #[trigger] events[i].id is None {
            assert(events[last].id is None);
            assert forall|i: int| 0 <= i < init.len() implies #[trigger] init[i].id is None by {
                assert(events[i].id is None);
            }
        }
    }
}

/// The highest numeric `id` among `events`, or `None` if there are none or
/// no event has a numeric id.
pub fn max_event_id<P>(events: &[Event<P>]) -> (r: Option<u64>)
    ensures
        r == max_id(events@),
        r is None <==> (forall|i: int| 0 <= i < events@.len() ==> #[trigger] events@[i].id is None),
        r matches Some(m) ==> {
            &&& exists|i: int| 0 <= i < events@.len() && #[trigger] events@[i].id == Some(m)
            &&& forall|i: int| 0 <= i < events@.len() && #[trigger] events@[i].id is Some ==> events@[i].id->0 <= m
        },
{
    let mut best: Option<u64> = None;
    let mut i: usize = 0;
    while i < events.len()
        invariant
            i <= events@.len(),
            best == max_id(events@.take(i as int)),
        decreases events@.len() - i,
    {
        assert(events@.take(i + 1).drop_last() =~= events@.take(i as int));
        let id = events[i].id;
        best = match (best, id) {
            (None, x) => x,
            (Some(x), None) => Some(x),
            (Some(x), Some(y)) => Some(if x >= y { x } else { y }),
        };
        i = i + 1;
    }
    assert(events@.take(events@.len() as int) =~= events@);
    proof {
        lemma_max_id_is_maximum(events@);
    }
    best
}


/// What Weir's answer to a fetch means for the cycle: `status` is the HTTP
/// status it answered with (`None` when the request did not get an answer)
/// and `body` the envelope its body parsed to (`None` when it did not parse).
/// The batch counts only with a 2xx status.
pub fn fetch_reply<P>(status: Option<u16>, body: Option<Batch<P>>) -> (r: Reply<P>)
    ensures
        r@ == (if status matches Some(c) && is_success(c) && body is Some {
            ReplyView::<P>::Fetched(body->0@)
        } else {
            ReplyView::FetchFailed
        }),
{
    match status {
        Some(c) => {
            if is_success_status(c) {
                match body {
                    Some(b) => Reply::Fetched(b),
                    None => Reply::FetchFailed,
                }
            } else {
                Reply::FetchFailed
            }
        },
        None => Reply::FetchFailed,
    }
}

} // verus!
