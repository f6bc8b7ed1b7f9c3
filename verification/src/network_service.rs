//! The network service: takes HTTP requests from processes, has the host
//! start each fetch, and forwards the outcome to the client that asked.

use vstd::prelude::*;
use std::collections::BTreeMap;

use crate::app::Message;
use crate::service::{frame_data, parse_result_frame, string_from_utf8_lossy, utf8_bytes, utf8_lossy, Reply};
use crate::text::{push_str, string_from, string_push};
use crate::wire::{append_bytes, le32_bytes, le32_value, push_u32_le};

verus! {

/// An HTTP request from a process.
pub const MSG_NET_REQUEST: u32 = 0x9000;

/// The answer to a client's request.
pub const MSG_NET_RESPONSE: u32 = 0x9001;

/// A fetch finished (sent by the supervisor).
pub const MSG_NET_RESULT: u32 = 0x9002;

/// Fetch result: the response body follows.
pub const NET_OK: u8 = 0;

/// Fetch result: the request failed; the data holds the reason.
pub const NET_ERROR: u8 = 1;

/// A fetch awaiting its result: who asked, and the id the service gave the
/// request.
#[derive(Clone, Copy, Debug, PartialEq, Eq, Structural)]
pub struct PendingRequest {
    pub client_pid: u32,
    pub client_request_id: u32,
}

/// What the host does next.
#[derive(Clone, Debug)]
pub enum NetStep {
    Idle,
    /// Start a fetch of `request`, then hand the outcome and `pending` to
    /// `fetch_started`.
    Fetch { request: Vec<u8>, pending: PendingRequest },
    /// Deliver this reply (always through the debug channel).
    Respond(Reply),
}

/// The network service.
pub struct NetworkService {
    registered: bool,
    pending_ops: BTreeMap<u32, PendingRequest>,
    next_request_id: u32,
}

/// The service's state: whether it registered, the fetches awaiting results
/// by the host's request id, and the next id for a client request.
pub struct NetworkServiceView {
    pub registered: bool,
    pub pending: Map<u32, PendingRequest>,
    pub next_request_id: u32,
}

impl View for NetworkService {
    type V = NetworkServiceView;

    closed spec fn view(&self) -> NetworkServiceView {
        NetworkServiceView {
            registered: self.registered,
            pending: self.pending_ops@,
            next_request_id: self.next_request_id,
        }
    }
}

/// The text with each quote preceded by a backslash.
pub open spec fn escape_quotes(s: Seq<char>) -> Seq<char>
    decreases s.len(),
{
    if s.len() == 0 {
        seq![]
    } else {
        escape_quotes(s.drop_last()) + if s.last() == '"' {
            seq!['\\', '"']
        } else {
            seq![s.last()]
        }
    }
}

/// `{"result":{"Err":{"Other":"<message, quotes escaped>"}}}`.
pub open spec fn net_error_json(message: Seq<char>) -> Seq<char> {
    "{\"result\":{\"Err\":{\"Other\":\""@ + escape_quotes(message) + "\"}}}"@
}

/// A successful answer: the client's request id, then the response body.
pub open spec fn net_response_reply(r: Reply, to_pid: u32, request_id: u32, body: Seq<u8>) -> bool {
    &&& r.to_pid == to_pid
    &&& r.reply_slot is None
    &&& r.tag == MSG_NET_RESPONSE
    &&& r.data@ == le32_bytes(request_id) + body
}

/// A failed answer: the client's request id, then the error JSON.
pub open spec fn net_error_reply(r: Reply, to_pid: u32, request_id: u32, message: Seq<char>) -> bool {
    net_response_reply(r, to_pid, request_id, vstd::utf8::encode_utf8(net_error_json(message)))
}

/// The reason forwarded for a failed fetch: its data as text, or "Network
/// error" when there is none.
pub open spec fn failure_reason(data: Seq<u8>) -> Seq<char> {
    if data.len() > 0 {
        utf8_lossy(data)
    } else {
        "Network error"@
    }
}

fn push_escaped(s: &mut String, m: &str)
    ensures
        final(s)@ == old(s)@ + escape_quotes(m@),
{
    let cs = crate::text::chars_of(m);
    let ghost start = s@;
    let mut i: usize = 0;
    while i < cs.len()
        invariant
            i <= cs@.len(),
            cs@ == m@,
            s@ == start + escape_quotes(cs@.take(i as int)),
        decreases cs@.len() - i,
    {
        let c = cs[i];
        if c == '"' {
            string_push(s, '\\');
            string_push(s, '"');
        } else {
            string_push(s, c);
        }
        assert(cs@.take(i + 1).drop_last() =~= cs@.take(i as int));
        i = i + 1;
        assert(s@ =~= start + escape_quotes(cs@.take(i as int)));
    }
    assert(cs@.take(cs@.len() as int) =~= cs@);
}

fn net_response(to_pid: u32, request_id: u32, body: &[u8]) -> (r: Reply)
    ensures
        net_response_reply(r, to_pid, request_id, body@),
{
    let mut data: Vec<u8> = Vec::new();
    push_u32_le(&mut data, request_id);
    append_bytes(&mut data, body);
    Reply { to_pid, reply_slot: None, tag: MSG_NET_RESPONSE, data }
}

fn net_error_response(to_pid: u32, request_id: u32, message: &str) -> (r: Reply)
    ensures
        net_error_reply(r, to_pid, request_id, message@),
{
    let mut s = String::new();
    push_str(&mut s, "{\"result\":{\"Err\":{\"Other\":\"");
    push_escaped(&mut s, message);
    push_str(&mut s, "\"}}}");
    let body = utf8_bytes(s.as_str());
    net_response(to_pid, request_id, body.as_slice())
}

/// A network result frame `msg` takes the service from `s` to `t` with
/// `step`: frames shorter than their header and results nobody awaits
/// change nothing; otherwise the awaiting request is removed and its client
/// is answered with the response, or with the failure's reason.
pub open spec fn handles_net_result(s: NetworkServiceView, msg: Seq<u8>, t: NetworkServiceView, step: NetStep) -> bool {
    &&& t.registered == s.registered
    &&& t.next_request_id == s.next_request_id
    &&& if msg.len() < 9 {
        t.pending == s.pending && step is Idle
    } else {
        let id = le32_value(msg[0], msg[1], msg[2], msg[3]);
        let data = frame_data(msg);
        let p = s.pending[id];
        if !s.pending.contains_key(id) {
            t.pending == s.pending && step is Idle
        } else {
            &&& t.pending == s.pending.remove(id)
            &&& msg[4] == NET_OK ==> (step matches NetStep::Respond(r) && net_response_reply(
                r,
                p.client_pid,
                p.client_request_id,
                data,
            ))
            &&& msg[4] != NET_OK ==> (step matches NetStep::Respond(r) && net_error_reply(
                r,
                p.client_pid,
                p.client_request_id,
                failure_reason(data),
            ))
        }
    }
}

/// Each network result is acted on once: the same result frame handed
/// over again, with nothing started in between, does nothing.
pub proof fn lemma_net_result_acted_on_once(
    s0: NetworkServiceView,
    msg: Seq<u8>,
    s1: NetworkServiceView,
    step1: NetStep,
    s2: NetworkServiceView,
    step2: NetStep,
)
    requires
        handles_net_result(s0, msg, s1, step1),
        handles_net_result(s1, msg, s2, step2),
    ensures
        step2 is Idle,
        s2.pending == s1.pending,
{
}

impl NetworkService {
    /// A service that has not registered, has nothing pending, and numbers
    /// client requests from 1.
    pub fn new() -> (s: Self)
        ensures
            !s@.registered,
            s@.pending == Map::<u32, PendingRequest>::empty(),
            s@.next_request_id == 1,
    {
        NetworkService { registered: false, pending_ops: BTreeMap::new(), next_request_id: 1 }
    }

    /// Start up: the host registers the service with init under "network".
    pub fn init(&mut self)
        ensures
            final(self)@.registered,
            final(self)@.pending == old(self)@.pending,
            final(self)@.next_request_id == old(self)@.next_request_id,
    {
        self.registered = true;
    }

    /// An HTTP request: it gets the next client request id, and the host is
    /// asked to start the fetch with the message data as it came.
    pub fn handle_net_request(&mut self, msg: &Message) -> (step: NetStep)
        requires
            old(self)@.next_request_id < u32::MAX,
        ensures
            final(self)@.registered == old(self)@.registered,
            final(self)@.pending == old(self)@.pending,
            final(self)@.next_request_id == old(self)@.next_request_id + 1,
            step matches NetStep::Fetch { request, pending } && request@ == msg.data@
                && pending.client_pid == msg.from_pid && pending.client_request_id == old(
                self,
            )@.next_request_id,
    {
        let client_request_id = self.next_request_id;
        self.next_request_id = self.next_request_id + 1;
        let mut request: Vec<u8> = Vec::new();
        append_bytes(&mut request, msg.data.as_slice());
        NetStep::Fetch {
            request,
            pending: PendingRequest { client_pid: msg.from_pid, client_request_id },
        }
    }

    /// Record the host's outcome of starting a fetch: the request id keys
    /// the pending request, and a failure is answered at once.
    pub fn fetch_started(&mut self, started: Result<u32, u32>, pending: PendingRequest) -> (step:
        NetStep)
        ensures
            final(self)@.registered == old(self)@.registered,
            final(self)@.next_request_id == old(self)@.next_request_id,
            match started {
                Ok(id) => step is Idle && final(self)@.pending == old(self)@.pending.insert(
                    id,
                    pending,
                ),
                Err(_) => final(self)@.pending == old(self)@.pending && (step matches NetStep::Respond(
                    r,
                ) && net_error_reply(
                    r,
                    pending.client_pid,
                    pending.client_request_id,
                    "Failed to start network operation"@,
                )),
            },
    {
        broadcast use vstd::laws_cmp::group_laws_cmp, vstd::std_specs::btree::group_btree_axioms;

        match started {
            Ok(id) => {
                self.pending_ops.insert(id, pending);
                NetStep::Idle
            },
            Err(_) => NetStep::Respond(
                net_error_response(
                    pending.client_pid,
                    pending.client_request_id,
                    "Failed to start network operation",
                ),
            ),
        }
    }

    /// A finished fetch. Frames shorter than their header and unknown ids
    /// are ignored; otherwise the pending request is removed and its client
    /// gets the body, or the failure reason.
    pub fn handle_net_result(&mut self, msg: &Message) -> (step: NetStep)
        ensures
            handles_net_result(old(self)@, msg.data@, final(self)@, step),
    {
        broadcast use vstd::laws_cmp::group_laws_cmp, vstd::std_specs::btree::group_btree_axioms;

        let frame = match parse_result_frame(msg.data.as_slice()) {
            Some(f) => f,
            None => {
                return NetStep::Idle;
            },
        };
        let pending = match self.pending_ops.remove(&frame.request_id) {
            Some(p) => p,
            None => {
                assert(self.pending_ops@ =~= old(self).pending_ops@);
                return NetStep::Idle;
            },
        };
        if frame.result_type == NET_OK {
            NetStep::Respond(
                net_response(pending.client_pid, pending.client_request_id, frame.data.as_slice()),
            )
        } else {
            let reason = if frame.data.len() > 0 {
                string_from_utf8_lossy(frame.data.as_slice())
            } else {
                string_from("Network error")
            };
            NetStep::Respond(
                net_error_response(pending.client_pid, pending.client_request_id, reason.as_str()),
            )
        }
    }

    /// Dispatch a message by its tag; other tags are ignored.
    pub fn on_message(&mut self, msg: &Message) -> (step: NetStep)
        requires
            msg.tag == MSG_NET_REQUEST ==> old(self)@.next_request_id < u32::MAX,
        ensures
            msg.tag != MSG_NET_REQUEST && msg.tag != MSG_NET_RESULT ==> final(self)@ == old(self)@
                && step is Idle,
            msg.tag == MSG_NET_REQUEST ==> {
                &&& final(self)@.registered == old(self)@.registered
                &&& final(self)@.next_request_id == old(self)@.next_request_id + 1
                &&& final(self)@.pending == old(self)@.pending
                &&& step matches NetStep::Fetch { request, pending } && request@ == msg.data@
                    && pending.client_pid == msg.from_pid && pending.client_request_id == old(
                    self,
                )@.next_request_id
            },
            msg.tag == MSG_NET_RESULT ==> handles_net_result(old(self)@, msg.data@, final(self)@, step),
    {
        if msg.tag == MSG_NET_REQUEST {
            self.handle_net_request(msg)
        } else if msg.tag == MSG_NET_RESULT {
            self.handle_net_result(msg)
        } else {
            NetStep::Idle
        }
    }
}

} // verus!
