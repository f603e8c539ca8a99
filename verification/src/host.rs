//! The host: the session's end of the connection to the editor.
//!
//! The host queues what is to be written to the editor, remembers which
//! inbound requests still await their response, and pairs the responses of
//! the editor with the requests that the server sent. Whoever drives the
//! session takes the queued messages and writes them out.

use vstd::prelude::*;
use crate::json::{array, member_views, item_views, object, text, JsonValue, JsonView};
use crate::message::{IdKey, Message, Notification, Request, RequestId, Response};

verus! {

/// What is done with the editor's response to a request of the server.
#[derive(Debug, Clone, Copy, PartialEq, Eq, Structural)]
pub enum Callback {
    /// The response carries the settings that were asked for.
    Configuration,
    /// The response acknowledges a registration.
    Registration,
    /// The response acknowledges an unregistration.
    Unregistration,
}

/// Why nothing was sent.
#[derive(Debug, Clone, Copy, PartialEq, Eq, Structural)]
pub enum HostError {
    /// The connection is closed.
    Closed,
    /// No request identifier is left.
    Exhausted,
}

/// An inbound request that has not been answered yet.
#[derive(Debug, Clone, PartialEq, Eq)]
pub struct IncomingRequest {
    pub id: RequestId,
    pub method: String,
    /// When the request was received, for latency accounting.
    pub received_at: u64,
}

/// A request of the server that the editor has not answered yet.
#[derive(Debug, Clone, Copy, PartialEq, Eq, Structural)]
pub struct PendingRequest {
    pub id: i32,
    pub callback: Callback,
}

/// A capability to register with the editor.
#[derive(Debug, Clone, PartialEq, Eq)]
pub struct Registration {
    pub id: String,
    pub method: String,
    pub register_options: Option<JsonValue>,
}

/// A capability to take back.
#[derive(Debug, Clone, PartialEq, Eq)]
pub struct Unregistration {
    pub id: String,
    pub method: String,
}

/// The session's end of the connection.
#[derive(Debug, Clone, PartialEq, Eq)]
pub struct LspHost {
    /// What is to be written to the editor, oldest first.
    pub outbox: Vec<Message>,
    /// The inbound requests that await their response.
    pub incoming: Vec<IncomingRequest>,
    /// The requests of the server that await the editor's response.
    pub pending: Vec<PendingRequest>,
    /// The identifier of the next request of the server.
    pub next_id: i32,
    pub closed: bool,
}

/// Whether `post` is `pre` with one more message at its end.
pub open spec fn one_more(pre: Seq<Message>, post: Seq<Message>) -> bool {
    post.len() == pre.len() + 1 && post.drop_last() == pre
}

/// Whether the message is the request with the given identifier, method and
/// parameters.
pub open spec fn is_request(m: Message, id: i32, method: Seq<char>, params: JsonView) -> bool {
    match m {
        Message::Request(q) => q.id == RequestId::Number(id) && q.method@ == method && q.params@
            == params,
        _ => false,
    }
}

/// Whether the message is the notification with the given method and
/// parameters.
pub open spec fn is_notification(m: Message, method: Seq<char>, params: JsonValue) -> bool {
    match m {
        Message::Notification(n) => n.method@ == method && n.params == params,
        _ => false,
    }
}

/// The number of responses to the request `key` among the messages.
pub open spec fn responses_to(messages: Seq<Message>, key: IdKey) -> nat
    decreases messages.len(),
{
    if messages.len() == 0 {
        0
    } else {
        let before = responses_to(messages.drop_last(), key);
        match messages.last() {
            Message::Response(r) => if r.id.key() == key {
                before + 1
            } else {
                before
            },
            _ => before,
        }
    }
}

/// The method by which capabilities are registered.
pub open spec fn register_method() -> Seq<char> {
    "client/registerCapability"@
}

/// The method by which capabilities are taken back.
pub open spec fn unregister_method() -> Seq<char> {
    "client/unregisterCapability"@
}

/// One registration as it is sent.
pub open spec fn spec_registration(
    id: Seq<char>,
    method: Seq<char>,
    options: Option<JsonView>,
) -> JsonView {
    match options {
        Some(o) => JsonView::Object(
            seq![
                ("id"@, JsonView::Text(id)),
                ("method"@, JsonView::Text(method)),
                ("registerOptions"@, o),
            ],
        ),
        None => JsonView::Object(
            seq![("id"@, JsonView::Text(id)), ("method"@, JsonView::Text(method))],
        ),
    }
}

/// The parameters of the request that registers one capability.
pub open spec fn spec_registration_params(
    id: Seq<char>,
    method: Seq<char>,
    options: Option<JsonView>,
) -> JsonView {
    JsonView::Object(
        seq![("registrations"@, JsonView::Array(seq![spec_registration(id, method, options)]))],
    )
}

/// The parameters of the request that takes one capability back.
pub open spec fn spec_unregistration_params(id: Seq<char>, method: Seq<char>) -> JsonView {
    JsonView::Object(
        seq![
            (
                "unregisterations"@,
                JsonView::Array(seq![spec_registration(id, method, None)]),
            ),
        ],
    )
}

/// The view of optional register options.
pub open spec fn options_view(options: Option<JsonValue>) -> Option<JsonView> {
    match options {
        Some(o) => Some(o@),
        None => None,
    }
}

/// One registration or unregistration as it is sent.
fn registration_value(id: &str, method: &str, options: Option<JsonValue>) -> (r: JsonValue)
    ensures
        r@ == spec_registration(id@, method@, options_view(options)),
{
    let mut members: Vec<(String, JsonValue)> = Vec::new();
    members.push(("id".to_owned(), text(id)));
    members.push(("method".to_owned(), text(method)));
    match options {
        Some(o) => {
            members.push(("registerOptions".to_owned(), o));
            let r = object(members);
            assert(member_views(members@) =~= seq![
                ("id"@, JsonView::Text(id@)),
                ("method"@, JsonView::Text(method@)),
                ("registerOptions"@, o@),
            ]);
            r
        },
        None => {
            let r = object(members);
            assert(member_views(members@) =~= seq![
                ("id"@, JsonView::Text(id@)),
                ("method"@, JsonView::Text(method@)),
            ]);
            r
        },
    }
}

/// The object with one member that holds the array of one value.
fn listed(key: &str, value: JsonValue) -> (r: JsonValue)
    ensures
        r@ == JsonView::Object(seq![(key@, JsonView::Array(seq![value@]))]),
{
    let mut items: Vec<JsonValue> = Vec::new();
    items.push(value);
    let list = array(items);
    assert(item_views(items@) =~= seq![value@]);
    let mut members: Vec<(String, JsonValue)> = Vec::new();
    members.push((key.to_owned(), list));
    let r = object(members);
    assert(member_views(members@) =~= seq![(key@, list@)]);
    r
}

/// What sending a request gives: the identifier of the request, or why it
/// was not sent.
pub open spec fn send_result(pre: LspHost) -> Result<i32, HostError> {
    if pre.closed {
        Err(HostError::Closed)
    } else if pre.next_id == i32::MAX {
        Err(HostError::Exhausted)
    } else {
        Ok(pre.next_id)
    }
}

/// What sending a request does: `post` is the host `pre` with the request
/// queued under the next identifier and noted with what its response is
/// for.
pub open spec fn sent_request(
    pre: LspHost,
    post: LspHost,
    method: Seq<char>,
    params: JsonView,
    callback: Callback,
) -> bool {
    &&& one_more(pre.outbox@, post.outbox@)
    &&& is_request(post.outbox@.last(), pre.next_id, method, params)
    &&& post.pending@ == pre.pending@.push(PendingRequest { id: pre.next_id, callback })
    &&& post.next_id == pre.next_id + 1
    &&& post.incoming == pre.incoming
    &&& post.closed == pre.closed
}

/// What `respond` does: `post` is the host `pre` after it was handed the
/// response, and `sent` says whether the response was queued.
pub open spec fn responded(pre: LspHost, post: LspHost, response: Response, sent: bool) -> bool {
    &&& sent == (pre.awaits(response.id.key()) && !pre.closed)
    &&& post.outbox@ == if sent {
        pre.outbox@.push(Message::Response(response))
    } else {
        pre.outbox@
    }
    &&& !post.awaits(response.id.key())
    &&& forall|k: IdKey| k != response.id.key() ==> post.awaits(k) == pre.awaits(k)
    &&& post.incoming@ == if pre.awaits(response.id.key()) {
        pre.incoming@.remove(pre.incoming_index(response.id.key()))
    } else {
        pre.incoming@
    }
    &&& post.pending == pre.pending
    &&& post.next_id == pre.next_id
    &&& post.closed == pre.closed
}

impl LspHost {
    /// Whether no request is noted twice and every request of the server has
    /// an identifier that was given out.
    pub open spec fn wf(&self) -> bool {
        &&& forall|i: int, j: int|
            0 <= i < j < self.incoming@.len() ==> (#[trigger] self.incoming@[i]).id.key() != (
            #[trigger] self.incoming@[j]).id.key()
        &&& forall|i: int, j: int|
            0 <= i < j < self.pending@.len() ==> (#[trigger] self.pending@[i]).id != (
            #[trigger] self.pending@[j]).id
        &&& forall|i: int| 0 <= i < self.pending@.len() ==> (#[trigger] self.pending@[i]).id
            < self.next_id
    }

    /// Whether the inbound request `key` awaits its response.
    pub open spec fn awaits(&self, key: IdKey) -> bool {
        exists|i: int| 0 <= i < self.incoming@.len() && (#[trigger] self.incoming@[i]).id.key() == key
    }

    /// Where the inbound request `key` is noted.
    pub open spec fn incoming_index(&self, key: IdKey) -> int {
        choose|i: int| 0 <= i < self.incoming@.len() && (#[trigger] self.incoming@[i]).id.key() == key
    }

    /// Whether the editor owes a response to the server's request `id`.
    pub open spec fn expects(&self, id: i32) -> bool {
        exists|i: int| 0 <= i < self.pending@.len() && (#[trigger] self.pending@[i]).id == id
    }

    /// Where the server's request `id` is noted.
    pub open spec fn pending_index(&self, id: i32) -> int {
        choose|i: int| 0 <= i < self.pending@.len() && (#[trigger] self.pending@[i]).id == id
    }

    /// Whether the host is well-formed, found out by looking.
    pub fn is_wf(&self) -> (r: bool)
        ensures
            r == self.wf(),
    {
        let mut j: usize = 0;
        while j < self.incoming.len()
            invariant
                j <= self.incoming.len(),
                forall|a: int, b: int|
                    0 <= a < b < j ==> (#[trigger] self.incoming@[a]).id.key() != (
                    #[trigger] self.incoming@[b]).id.key(),
            decreases self.incoming.len() - j,
        {
            let mut i: usize = 0;
            while i < j
                invariant
                    i <= j < self.incoming.len(),
                    forall|a: int|
                        0 <= a < i ==> (#[trigger] self.incoming@[a]).id.key()
                            != self.incoming@[j as int].id.key(),
                decreases j - i,
            {
                if self.incoming[i].id.same(&self.incoming[j].id) {
                    assert(self.incoming@[i as int].id.key() == self.incoming@[j as int].id.key());
                    return false;
                }
                i += 1;
            }
            j += 1;
        }
        let mut j: usize = 0;
        while j < self.pending.len()
            invariant
                j <= self.pending.len(),
                forall|a: int, b: int|
                    0 <= a < b < j ==> (#[trigger] self.pending@[a]).id != (
                    #[trigger] self.pending@[b]).id,
                forall|a: int| 0 <= a < j ==> (#[trigger] self.pending@[a]).id < self.next_id,
            decreases self.pending.len() - j,
        {
            if self.pending[j].id >= self.next_id {
                assert(!(self.pending@[j as int].id < self.next_id));
                return false;
            }
            let mut i: usize = 0;
            while i < j
                invariant
                    i <= j < self.pending.len(),
                    forall|a: int|
                        0 <= a < i ==> (#[trigger] self.pending@[a]).id
                            != self.pending@[j as int].id,
                decreases j - i,
            {
                if self.pending[i].id == self.pending[j].id {
                    assert(self.pending@[i as int].id == self.pending@[j as int].id);
                    return false;
                }
                i += 1;
            }
            j += 1;
        }
        true
    }

    /// A host with an open connection and nothing queued.
    pub fn new() -> (r: LspHost)
        ensures
            r.wf(),
            r.outbox@.len() == 0,
            r.incoming@.len() == 0,
            r.pending@.len() == 0,
            r.next_id == 0,
            !r.closed,
    {
        LspHost {
            outbox: Vec::new(),
            incoming: Vec::new(),
            pending: Vec::new(),
            next_id: 0,
            closed: false,
        }
    }

    /// Closes the connection: from now on nothing is queued.
    pub fn close(&mut self)
        ensures
            final(self).closed,
            final(self).outbox == old(self).outbox,
            final(self).incoming == old(self).incoming,
            final(self).pending == old(self).pending,
            final(self).next_id == old(self).next_id,
    {
        self.closed = true;
    }

    /// Hands over what is queued for the editor, oldest first, and leaves the
    /// queue empty.
    pub fn take_outbox(&mut self) -> (r: Vec<Message>)
        ensures
            r == old(self).outbox,
            final(self).outbox@.len() == 0,
            final(self).incoming == old(self).incoming,
            final(self).pending == old(self).pending,
            final(self).next_id == old(self).next_id,
            final(self).closed == old(self).closed,
    {
        let mut out: Vec<Message> = Vec::new();
        std::mem::swap(&mut self.outbox, &mut out);
        out
    }

    /// Where the inbound request is noted.
    fn find_incoming(&self, id: &RequestId) -> (r: Option<usize>)
        requires
            self.wf(),
        ensures
            match r {
                Some(i) => i < self.incoming@.len() && self.awaits(id.key())
                    && self.incoming_index(id.key()) == i,
                None => !self.awaits(id.key()),
            },
    {
        let mut i: usize = 0;
        while i < self.incoming.len()
            invariant
                self.wf(),
                i <= self.incoming.len(),
                forall|k: int| 0 <= k < i ==> (#[trigger] self.incoming@[k]).id.key() != id.key(),
            decreases self.incoming.len() - i,
        {
            if self.incoming[i].id.same(id) {
                proof {
                    assert(self.incoming@[i as int].id.key() == id.key());
                    let k = self.incoming_index(id.key());
                    assert(self.incoming@[k].id.key() == id.key());
                    assert(k == i);
                }
                return Some(i);
            }
            i += 1;
        }
        None
    }

    /// Where the server's request is noted.
    fn find_pending(&self, id: i32) -> (r: Option<usize>)
        requires
            self.wf(),
        ensures
            match r {
                Some(i) => i < self.pending@.len() && self.expects(id) && self.pending_index(id)
                    == i,
                None => !self.expects(id),
            },
    {
        let mut i: usize = 0;
        while i < self.pending.len()
            invariant
                self.wf(),
                i <= self.pending.len(),
                forall|k: int| 0 <= k < i ==> (#[trigger] self.pending@[k]).id != id,
            decreases self.pending.len() - i,
        {
            if self.pending[i].id == id {
                proof {
                    assert(self.pending@[i as int].id == id);
                    let k = self.pending_index(id);
                    assert(self.pending@[k].id == id);
                    assert(k == i);
                }
                return Some(i);
            }
            i += 1;
        }
        None
    }

    /// When the inbound request was received, if it still awaits its
    /// response.
    pub fn received_at(&self, id: &RequestId) -> (r: Option<u64>)
        requires
            self.wf(),
        ensures
            r == if self.awaits(id.key()) {
                Some(self.incoming@[self.incoming_index(id.key())].received_at)
            } else {
                None
            },
    {
        match self.find_incoming(id) {
            Some(at) => Some(self.incoming[at].received_at),
            None => None,
        }
    }

    /// Notes an inbound request and when it was received. A request that is
    /// noted already is noted anew.
    pub fn register_request(&mut self, id: &RequestId, method: &str, received_at: u64)
        requires
            old(self).wf(),
        ensures
            final(self).wf(),
            final(self).awaits(id.key()),
            forall|k: IdKey| k != id.key() ==> final(self).awaits(k) == old(self).awaits(k),
            final(self).incoming@.len() > 0,
            final(self).incoming@.last().id == *id,
            final(self).incoming@.last().method@ == method@,
            final(self).incoming@.last().received_at == received_at,
            final(self).incoming@.drop_last() == if old(self).awaits(id.key()) {
                old(self).incoming@.remove(old(self).incoming_index(id.key()))
            } else {
                old(self).incoming@
            },
            final(self).outbox == old(self).outbox,
            final(self).pending == old(self).pending,
            final(self).next_id == old(self).next_id,
            final(self).closed == old(self).closed,
    {
        match self.find_incoming(id) {
            Some(at) => {
                self.incoming.remove(at);
                proof {
                    self.lemma_incoming_removed(*old(self), at as int);
                }
            },
            None => {},
        }
        let ghost mid = *self;
        let entry = IncomingRequest { id: id.copy(), method: method.to_owned(), received_at };
        self.incoming.push(entry);
        proof {
            let n = mid.incoming@.len() as int;
            assert(self.incoming@[n].id.key() == id.key());
            assert(self.incoming@.drop_last() =~= mid.incoming@);
            assert forall|k: IdKey| k != id.key() implies self.awaits(k) == old(self).awaits(k) by {
                if mid.awaits(k) {
                    let i = mid.incoming_index(k);
                    assert(self.incoming@[i].id.key() == k);
                }
                if self.awaits(k) {
                    let i = self.incoming_index(k);
                    assert(mid.incoming@[i].id.key() == k);
                }
            }
            assert forall|i: int, j: int| 0 <= i < j < self.incoming@.len() implies (
            #[trigger] self.incoming@[i]).id.key() != (#[trigger] self.incoming@[j]).id.key() by {
                if j == n {
                    assert(mid.incoming@[i].id.key() != id.key());
                } else {
                    assert(mid.incoming@[i].id.key() != mid.incoming@[j].id.key());
                }
            }
        }
    }

    /// What is noted after the request at `at` was struck off.
    proof fn lemma_incoming_removed(&self, before: LspHost, at: int)
        requires
            before.wf(),
            0 <= at < before.incoming@.len(),
            self.incoming@ == before.incoming@.remove(at),
            self.pending == before.pending,
            self.next_id == before.next_id,
        ensures
            self.wf(),
            !self.awaits(before.incoming@[at].id.key()),
            forall|k: IdKey|
                k != before.incoming@[at].id.key() ==> self.awaits(k) == before.awaits(k),
    {
        let old_seq = before.incoming@;
        let new_seq = self.incoming@;
        let key = old_seq[at].id.key();
        assert forall|k: int| 0 <= k < new_seq.len() implies #[trigger] new_seq[k] == old_seq[if k
            < at {
            k
        } else {
            k + 1
        }] by {}
        assert forall|i: int, j: int| 0 <= i < j < new_seq.len() implies (
        #[trigger] new_seq[i]).id.key() != (#[trigger] new_seq[j]).id.key() by {
            let i2 = if i < at {
                i
            } else {
                i + 1
            };
            let j2 = if j < at {
                j
            } else {
                j + 1
            };
            assert(old_seq[i2].id.key() != old_seq[j2].id.key());
        }
        if self.awaits(key) {
            let k = self.incoming_index(key);
            let j = if k < at {
                k
            } else {
                k + 1
            };
            assert(old_seq[j].id.key() == key);
            if j < at {
                assert(old_seq[j].id.key() != old_seq[at].id.key());
            } else {
                assert(old_seq[at].id.key() != old_seq[j].id.key());
            }
        }
        assert forall|k: IdKey| k != key implies self.awaits(k) == before.awaits(k) by {
            if self.awaits(k) {
                let i = self.incoming_index(k);
                let j = if i < at {
                    i
                } else {
                    i + 1
                };
                assert(old_seq[j].id.key() == k);
            }
            if before.awaits(k) {
                let j = before.incoming_index(k);
                let i = if j < at {
                    j
                } else {
                    j - 1
                };
                assert(new_seq[i].id.key() == k);
            }
        }
    }

    /// Answers an inbound request. The response is queued if the request
    /// awaits one and the connection is open; either way the request awaits
    /// none afterwards. A response to a request that awaits none is dropped.
    pub fn respond(&mut self, response: Response) -> (sent: bool)
        requires
            old(self).wf(),
        ensures
            final(self).wf(),
            responded(*old(self), *final(self), response, sent),
    {
        match self.find_incoming(&response.id) {
            None => false,
            Some(at) => {
                self.incoming.remove(at);
                proof {
                    self.lemma_incoming_removed(*old(self), at as int);
                }
                if self.closed {
                    false
                } else {
                    self.outbox.push(Message::Response(response));
                    true
                }
            },
        }
    }

    /// Queues a notification for the editor, unless the connection is closed.
    pub fn send_notification(&mut self, method: &str, params: JsonValue) -> (sent: bool)
        ensures
            sent == !old(self).closed,
            sent ==> one_more(old(self).outbox@, final(self).outbox@) && is_notification(
                final(self).outbox@.last(),
                method@,
                params,
            ),
            !sent ==> final(self).outbox == old(self).outbox,
            final(self).incoming == old(self).incoming,
            final(self).pending == old(self).pending,
            final(self).next_id == old(self).next_id,
            final(self).closed == old(self).closed,
    {
        if self.closed {
            return false;
        }
        self.outbox.push(Message::Notification(Notification { method: method.to_owned(), params }));
        assert(self.outbox@.drop_last() =~= old(self).outbox@);
        true
    }

    /// Sends a request to the editor: gives it a fresh identifier, notes what
    /// is to be done with the response, and queues the request. Nothing
    /// changes where the connection is closed or no identifier is left.
    pub fn send_request(&mut self, method: &str, params: JsonValue, callback: Callback) -> (r:
        Result<i32, HostError>)
        requires
            old(self).wf(),
        ensures
            final(self).wf(),
            r == send_result(*old(self)),
            r is Err ==> *final(self) == *old(self),
            r is Ok ==> sent_request(
                *old(self),
                *final(self),
                method@,
                params@,
                callback,
            ),
    {
        if self.closed {
            return Err(HostError::Closed);
        }
        if self.next_id == i32::MAX {
            return Err(HostError::Exhausted);
        }
        let id = self.next_id;
        self.next_id = id + 1;
        self.pending.push(PendingRequest { id, callback });
        self.outbox.push(
            Message::Request(
                Request { id: RequestId::Number(id), method: method.to_owned(), params },
            ),
        );
        assert(self.outbox@.drop_last() =~= old(self).outbox@);
        Ok(id)
    }

    /// Takes the editor's response to a request of the server: strikes the
    /// request off and says what is to be done with the response. A response
    /// that pairs with no request is dropped.
    pub fn complete_request(&mut self, response: &Response) -> (r: Option<Callback>)
        requires
            old(self).wf(),
        ensures
            final(self).wf(),
            r == match response.id {
                RequestId::Number(n) => if old(self).expects(n) {
                    Some(old(self).pending@[old(self).pending_index(n)].callback)
                } else {
                    None
                },
                RequestId::Text(_) => None,
            },
            final(self).pending@ == match r {
                Some(_) => old(self).pending@.remove(
                    old(self).pending_index(response.id->Number_0),
                ),
                None => old(self).pending@,
            },
            r is Some ==> !final(self).expects(response.id->Number_0),
            r is None ==> *final(self) == *old(self),
            final(self).outbox == old(self).outbox,
            final(self).incoming == old(self).incoming,
            final(self).next_id == old(self).next_id,
            final(self).closed == old(self).closed,
    {
        let n = match &response.id {
            RequestId::Number(n) => *n,
            RequestId::Text(_) => { return None; },
        };
        match self.find_pending(n) {
            None => None,
            Some(at) => {
                let entry = self.pending.remove(at);
                proof {
                    let old_seq = old(self).pending@;
                    let new_seq = self.pending@;
                    assert forall|k: int| 0 <= k < new_seq.len() implies #[trigger] new_seq[k]
                        == old_seq[if k < at {
                        k
                    } else {
                        k + 1
                    }] by {}
                    assert forall|i: int, j: int| 0 <= i < j < new_seq.len() implies (
                    #[trigger] new_seq[i]).id != (#[trigger] new_seq[j]).id by {
                        let i2 = if i < at {
                            i
                        } else {
                            i + 1
                        };
                        let j2 = if j < at {
                            j
                        } else {
                            j + 1
                        };
                        assert(old_seq[i2].id != old_seq[j2].id);
                    }
                    assert forall|i: int| 0 <= i < new_seq.len() implies (#[trigger] new_seq[i]).id
                        < self.next_id by {
                        let i2 = if i < at {
                            i
                        } else {
                            i + 1
                        };
                        assert(old_seq[i2].id < self.next_id);
                    }
                    if self.expects(n) {
                        let k = self.pending_index(n);
                        let j = if k < at {
                            k
                        } else {
                            k + 1
                        };
                        assert(old_seq[j].id == n);
                        if j < at {
                            assert(old_seq[j].id != old_seq[at as int].id);
                        } else {
                            assert(old_seq[at as int].id != old_seq[j].id);
                        }
                    }
                }
                Some(entry.callback)
            },
        }
    }

    /// Asks the editor to register a capability.
    pub fn register_capability(&mut self, registration: Registration) -> (r: Result<i32, HostError>)
        requires
            old(self).wf(),
        ensures
            final(self).wf(),
            r == send_result(*old(self)),
            r is Err ==> *final(self) == *old(self),
            r is Ok ==> sent_request(
                *old(self),
                *final(self),
                register_method(),
                spec_registration_params(
                    registration.id@,
                    registration.method@,
                    options_view(registration.register_options),
                ),
                Callback::Registration,
            ),
    {
        let value = registration_value(
            registration.id.as_str(),
            registration.method.as_str(),
            registration.register_options,
        );
        let params = listed("registrations", value);
        self.send_request("client/registerCapability", params, Callback::Registration)
    }

    /// Asks the editor to take a capability back.
    pub fn unregister_capability(&mut self, unregistration: Unregistration) -> (r: Result<
        i32,
        HostError,
    >)
        requires
            old(self).wf(),
        ensures
            final(self).wf(),
            r == send_result(*old(self)),
            r is Err ==> *final(self) == *old(self),
            r is Ok ==> sent_request(
                *old(self),
                *final(self),
                unregister_method(),
                spec_unregistration_params(unregistration.id@, unregistration.method@),
                Callback::Unregistration,
            ),
    {
        let value = registration_value(
            unregistration.id.as_str(),
            unregistration.method.as_str(),
            None,
        );
        let params = listed("unregisterations", value);
        self.send_request("client/unregisterCapability", params, Callback::Unregistration)
    }
}

/// A response to a request that awaits one is counted once more; any other
/// message leaves the count of that request as it was.
pub proof fn lemma_responses_after_push(messages: Seq<Message>, m: Message, key: IdKey)
    ensures
        responses_to(messages.push(m), key) == responses_to(messages, key) + (match m {
            Message::Response(r) => if r.id.key() == key {
                1nat
            } else {
                0nat
            },
            _ => 0nat,
        }),
{
    assert(messages.push(m).drop_last() =~= messages);
}

/// Whether `post` holds no more responses than `pre`, to whatever request.
pub open spec fn no_new_responses(pre: Seq<Message>, post: Seq<Message>) -> bool {
    forall|key: IdKey| #[trigger] responses_to(post, key) == responses_to(pre, key)
}

/// Whether the host went from `pre` to `post` without a word to or from an
/// inbound request: no response was queued, the same requests await their
/// responses, and the connection is as open as it was.
pub open spec fn quiet(pre: LspHost, post: LspHost) -> bool {
    &&& no_new_responses(pre.outbox@, post.outbox@)
    &&& post.incoming == pre.incoming
    &&& post.closed == pre.closed
}

/// A request that is sent is no response: sending it leaves the count of
/// responses to every request as it was, and the inbound requests alone.
pub proof fn lemma_request_is_no_response(
    pre: LspHost,
    post: LspHost,
    method: Seq<char>,
    params: JsonView,
    callback: Callback,
)
    requires
        sent_request(pre, post, method, params, callback),
    ensures
        quiet(pre, post),
{
    assert forall|key: IdKey| #[trigger] responses_to(post.outbox@, key) == responses_to(
        pre.outbox@,
        key,
    ) by {
        assert(post.outbox@.drop_last() == pre.outbox@);
    }
}

/// A request that awaits its response gets it: the response that is handed
/// to an open host is queued, counts as one more response to that request,
/// and the request awaits none afterwards.
pub proof fn lemma_awaited_response_is_sent(
    pre: LspHost,
    post: LspHost,
    response: Response,
    sent: bool,
)
    requires
        pre.awaits(response.id.key()),
        !pre.closed,
        responded(pre, post, response, sent),
    ensures
        sent,
        responses_to(post.outbox@, response.id.key()) == responses_to(
            pre.outbox@,
            response.id.key(),
        ) + 1,
        forall|other: IdKey|
            other != response.id.key() ==> responses_to(post.outbox@, other) == responses_to(
                pre.outbox@,
                other,
            ),
        !post.awaits(response.id.key()),
{
    assert forall|other: IdKey| other != response.id.key() implies responses_to(
        post.outbox@,
        other,
    ) == responses_to(pre.outbox@, other) by {
        lemma_responses_after_push(pre.outbox@, Message::Response(response), other);
    }
    lemma_responses_after_push(pre.outbox@, Message::Response(response), response.id.key());
}

/// What taking an inbound request does to an open host, whether the request
/// is answered at once or left to a worker: other requests are not touched,
/// and the request has either got its one response or awaits it.
pub open spec fn request_taken(pre: LspHost, post: LspHost, id: RequestId) -> bool {
    &&& post.closed == pre.closed
    &&& forall|k: IdKey| k != id.key() ==> #[trigger] post.awaits(k) == pre.awaits(k)
    &&& forall|k: IdKey|
        k != id.key() ==> #[trigger] responses_to(post.outbox@, k) == responses_to(
            pre.outbox@,
            k,
        )
    &&& responses_to(post.outbox@, id.key()) == responses_to(pre.outbox@, id.key()) + if post.awaits(
        id.key(),
    ) {
        0nat
    } else {
        1nat
    }
}

/// What a worker's answer to a request does to the host: some response to
/// that request was handed to the host.
pub open spec fn answer_given(pre: LspHost, post: LspHost, id: RequestId) -> bool {
    exists|response: Response, sent: bool|
        response.id == id && #[trigger] responded(pre, post, response, sent)
}

/// Every inbound request is answered at most once: of two responses to the
/// same request that are handed to the host one after the other, the second
/// is dropped, and the count of responses to that request stays as it was.
pub proof fn lemma_second_response_is_dropped(
    h0: LspHost,
    h1: LspHost,
    h2: LspHost,
    first: Response,
    second: Response,
    sent1: bool,
    sent2: bool,
)
    requires
        responded(h0, h1, first, sent1),
        responded(h1, h2, second, sent2),
        first.id.key() == second.id.key(),
    ensures
        !sent2,
        h2.outbox@ == h1.outbox@,
        responses_to(h2.outbox@, first.id.key()) == responses_to(h0.outbox@, first.id.key()) + (
        if sent1 {
            1nat
        } else {
            0nat
        }),
{
    lemma_responses_after_push(h0.outbox@, Message::Response(first), first.id.key());
}

} // verus!
