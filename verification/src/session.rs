//! A whole session, seen from the host: every request gets one response.
//!
//! A session is a run of steps. A request of the editor arrives; or a
//! notification or a response of the editor arrives; or a worker hands in its
//! answer to a request that a work order carried. Each step is what
//! `on_message` or `complete` does to the host.

use vstd::prelude::*;
use crate::host::{
    answer_given, lemma_responses_after_push, quiet, request_taken, responded, responses_to,
    LspHost,
};
use crate::message::{IdKey, Message, RequestId, Response};

verus! {

/// A step of a session.
pub enum SessionEvent {
    /// A request of the editor arrived.
    Request(RequestId),
    /// A notification or a response of the editor arrived.
    Other,
    /// A worker handed in its answer to a request.
    Answer(RequestId),
}

/// The step that a message of the editor makes.
pub open spec fn event_of(msg: Message) -> SessionEvent {
    match msg {
        Message::Request(req) => SessionEvent::Request(req.id),
        _ => SessionEvent::Other,
    }
}

/// What a step does to the host.
pub open spec fn host_step(pre: LspHost, post: LspHost, e: SessionEvent) -> bool {
    match e {
        SessionEvent::Request(id) => request_taken(pre, post, id),
        SessionEvent::Other => quiet(pre, post),
        SessionEvent::Answer(id) => answer_given(pre, post, id),
    }
}

/// Whether the hosts are those of a session that went through the steps: one
/// host before each step and one after the last.
pub open spec fn session(hosts: Seq<LspHost>, events: Seq<SessionEvent>) -> bool {
    &&& hosts.len() == events.len() + 1
    &&& forall|i: int|
        0 <= i < events.len() ==> host_step(hosts[i], hosts[i + 1], #[trigger] events[i])
}

/// Whether the step is the arrival of the request `k`.
pub open spec fn asks(e: SessionEvent, k: IdKey) -> bool {
    e is Request && e->Request_0.key() == k
}

/// Whether the step is a worker's answer to the request `k`.
pub open spec fn answers(e: SessionEvent, k: IdKey) -> bool {
    e is Answer && e->Answer_0.key() == k
}

/// Whether the request `k` arrived in one of the first `n` steps.
pub open spec fn was_asked(events: Seq<SessionEvent>, n: int, k: IdKey) -> bool {
    exists|i: int| 0 <= i < n && asks(#[trigger] events[i], k)
}

/// Whether no two requests of the session have the same identifier.
pub open spec fn distinct_requests(events: Seq<SessionEvent>) -> bool {
    forall|i: int, j: int|
        0 <= i < j < events.len() && (#[trigger] events[i]) is Request && (
        #[trigger] events[j]) is Request ==> events[i]->Request_0.key()
            != events[j]->Request_0.key()
}

/// Whether every request of the session is seen to: it was answered when it
/// arrived, or a worker handed in its answer at a later step.
pub open spec fn all_seen_to(hosts: Seq<LspHost>, events: Seq<SessionEvent>) -> bool {
    forall|i: int|
        0 <= i < events.len() && (#[trigger] events[i]) is Request ==> !hosts[i + 1].awaits(
            events[i]->Request_0.key(),
        ) || exists|j: int| i < j < events.len() && answers(#[trigger] events[j], events[i]->Request_0.key())
}

/// One if the request awaits its response, else nothing.
pub open spec fn awaiting(h: LspHost, k: IdKey) -> nat {
    if h.awaits(k) {
        1
    } else {
        0
    }
}

/// After `n` steps the host is open, a request that arrived has got its
/// response or awaits it, and nothing is owed or was sent to a request that
/// did not arrive.
proof fn lemma_owed(hosts: Seq<LspHost>, events: Seq<SessionEvent>, n: int, k: IdKey)
    requires
        session(hosts, events),
        !hosts[0].closed,
        forall|key: IdKey| !hosts[0].awaits(key),
        distinct_requests(events),
        0 <= n <= events.len(),
    ensures
        !hosts[n].closed,
        responses_to(hosts[n].outbox@, k) + awaiting(hosts[n], k) == responses_to(
            hosts[0].outbox@,
            k,
        ) + if was_asked(events, n, k) {
            1nat
        } else {
            0nat
        },
        hosts[n].awaits(k) ==> was_asked(events, n, k),
    decreases n,
{
    if n > 0 {
        lemma_owed(hosts, events, n - 1, k);
        let pre = hosts[n - 1];
        let post = hosts[n];
        let e = events[n - 1];
        assert(host_step(pre, post, e));
        if was_asked(events, n - 1, k) {
            let i = choose|i: int| 0 <= i < n - 1 && asks(#[trigger] events[i], k);
            assert(asks(events[i], k));
            assert(was_asked(events, n, k));
            if asks(e, k) {
                assert(events[i]->Request_0.key() != events[n - 1]->Request_0.key());
            }
        }
        if asks(e, k) {
            assert(was_asked(events, n, k));
        } else if was_asked(events, n, k) {
            let i = choose|i: int| 0 <= i < n && asks(#[trigger] events[i], k);
            assert(i < n - 1);
            assert(was_asked(events, n - 1, k));
        }
        match e {
            SessionEvent::Request(id) => {
                if id.key() != k {
                    assert(post.awaits(k) == pre.awaits(k));
                    assert(responses_to(post.outbox@, k) == responses_to(pre.outbox@, k));
                }
            },
            SessionEvent::Other => {
                assert(responses_to(post.outbox@, k) == responses_to(pre.outbox@, k));
                assert(post.awaits(k) == pre.awaits(k));
            },
            SessionEvent::Answer(id) => {
                lemma_answer(pre, post, id, k);
            },
        }
    }
}

/// A worker's answer to an open host leaves what every request is owed as it
/// was, and its own request awaits nothing afterwards.
proof fn lemma_answer(pre: LspHost, post: LspHost, id: RequestId, k: IdKey)
    requires
        answer_given(pre, post, id),
        !pre.closed,
    ensures
        !post.closed,
        responses_to(post.outbox@, k) + awaiting(post, k) == responses_to(pre.outbox@, k)
            + awaiting(pre, k),
        post.awaits(k) ==> pre.awaits(k),
        k == id.key() ==> !post.awaits(k),
{
    let (response, sent) = choose|response: Response, sent: bool|
        response.id == id && #[trigger] responded(pre, post, response, sent);
    if sent {
        lemma_responses_after_push(pre.outbox@, Message::Response(response), k);
    }
}

/// A request that awaits no response stays so as long as it does not arrive
/// anew.
proof fn lemma_stays_answered(
    hosts: Seq<LspHost>,
    events: Seq<SessionEvent>,
    m: int,
    n: int,
    k: IdKey,
)
    requires
        session(hosts, events),
        0 <= m <= n <= events.len(),
        !hosts[m].awaits(k),
        forall|t: int| m <= t < n ==> !asks(#[trigger] events[t], k),
    ensures
        !hosts[n].awaits(k),
    decreases n - m,
{
    if m < n {
        lemma_stays_answered(hosts, events, m, n - 1, k);
        let pre = hosts[n - 1];
        let post = hosts[n];
        let e = events[n - 1];
        assert(host_step(pre, post, e));
        assert(!asks(e, k));
        match e {
            SessionEvent::Request(id) => {
                assert(post.awaits(k) == pre.awaits(k));
            },
            SessionEvent::Other => {
                assert(post.awaits(k) == pre.awaits(k));
            },
            SessionEvent::Answer(id) => {
                let (response, sent) = choose|response: Response, sent: bool|
                    response.id == id && #[trigger] responded(pre, post, response, sent);
            },
        }
    }
}

/// Every request gets exactly one response. Take a session on an open host
/// at which no request awaits a response when the session begins. Let no two
/// of its requests have the same identifier, and let every request be seen
/// to: answered when it arrived, or answered later by the worker that its
/// work order went to. Then, when the session ends, one response has been
/// queued for each request that arrived, and none for any other identifier:
/// none is missing, none is doubled, none is foreign.
pub proof fn lemma_one_response_per_request(hosts: Seq<LspHost>, events: Seq<SessionEvent>)
    requires
        session(hosts, events),
        !hosts[0].closed,
        forall|key: IdKey| !hosts[0].awaits(key),
        distinct_requests(events),
        all_seen_to(hosts, events),
    ensures
        forall|k: IdKey| #[trigger]
            responses_to(hosts[events.len() as int].outbox@, k) == responses_to(hosts[0].outbox@, k)
                + if was_asked(events, events.len() as int, k) {
                1nat
            } else {
                0nat
            },
{
    let len = events.len() as int;
    assert forall|k: IdKey| #[trigger]
        responses_to(hosts[events.len() as int].outbox@, k) == responses_to(hosts[0].outbox@, k)
            + if was_asked(events, len, k) {
            1nat
        } else {
            0nat
        } by {
        lemma_owed(hosts, events, len, k);
        if was_asked(events, len, k) {
            let i = choose|i: int| 0 <= i < len && asks(#[trigger] events[i], k);
            assert(events[i] is Request);
            let m = if !hosts[i + 1].awaits(k) {
                i + 1
            } else {
                let j = choose|j: int| i < j < len && answers(#[trigger] events[j], k);
                assert(host_step(hosts[j], hosts[j + 1], events[j]));
                lemma_owed(hosts, events, j, k);
                lemma_answer(hosts[j], hosts[j + 1], events[j]->Answer_0, k);
                j + 1
            };
            assert forall|t: int| m <= t < len implies !asks(#[trigger] events[t], k) by {
                if asks(events[t], k) {
                    assert(events[i]->Request_0.key() != events[t]->Request_0.key());
                }
            }
            lemma_stays_answered(hosts, events, m, len, k);
        }
    }
}

} // verus!
