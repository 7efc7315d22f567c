use crate::forwarder::{Reply, ReplyView};
use vstd::prelude::*;

verus! {

/// A successful HTTP status: any 2xx (200 through 299).
pub open spec fn is_success(status: u16) -> bool {
    200 <= status && status <= 299
}

/// Whether `status` is a successful (2xx) HTTP status.
pub fn is_success_status(status: u16) -> (b: bool)
    ensures
        b == is_success(status),
        b <==> 200 <= status <= 299,
{
    200 <= status && status <= 299
}

/// Exactly the 2xx statuses are successes: every status from 200 through 299
/// (200 OK, 201 Created, 202 Accepted, 204 No Content, ...) and no other.
pub proof fn lemma_success_is_exactly_2xx()
    ensures
        forall|c: u16| #[trigger] is_success(c) <==> 200 <= c <= 299,
{
}

/// The backend's answer is an accepted ingest exactly when it is a 2xx
/// status; a missing answer or any other status is a failed ingest.
pub proof fn lemma_ingest_accepted_exactly_on_2xx<P>(status: Option<u16>, r: ReplyView<P>)
    requires
        r == (if status matches Some(c) && is_success(c) {
            ReplyView::<P>::Ingested
        } else {
            ReplyView::<P>::IngestFailed
        }),
    ensures
        r is Ingested <==> (status matches Some(c) && 200 <= c <= 299),
        r is IngestFailed <==> !(status matches Some(c) && 200 <= c <= 299),
{
}

/// What the backend's answer to an ingest POST means for the cycle: `status`
/// is the HTTP status it answered with, or `None` when the request did not
/// get an answer. Any 2xx is an accepted ingest; anything else is a failure.
pub fn ingest_reply<P>(status: Option<u16>) -> (r: Reply<P>)
    ensures
        r@ == (if status matches Some(c) && is_success(c) {
            ReplyView::<P>::Ingested
        } else {
            ReplyView::<P>::IngestFailed
        }),
        r@ is Ingested <==> (status matches Some(c) && 200 <= c <= 299),
{
    match status {
        Some(c) => {
            if is_success_status(c) {
                Reply::Ingested
            } else {
                Reply::IngestFailed
            }
        },
        None => Reply::IngestFailed,
    }
}

} // verus!
