//! The time service: keeps the user's clock format and timezone, caches
//! them, and persists them through asynchronous storage. Every request and
//! every storage result is a step from the current state to the next state
//! and one effect for the host (a storage call to start or a reply).

use vstd::prelude::*;
use std::collections::BTreeMap;

use crate::app::Message;
use crate::error::AppError;
use crate::service::{
    find_chars, find_text, lemma_find_from, matches_at, parse_result_frame, reply_to, slice_chars, storage_failure,
    storage_failure_text, storage_key, utf8_bytes, Reply, StorageCall, first_slot, frame_data,
    READ_OK, WRITE_OK,
};
use crate::text::{chars_of, push_str, string_from, string_from_chars};
use crate::wire::{le32_value, string_from_utf8};

verus! {

/// Request the current time settings.
pub const MSG_GET_TIME_SETTINGS: u32 = 0x8001;

/// Reply carrying the time settings.
pub const MSG_GET_TIME_SETTINGS_RESPONSE: u32 = 0x8002;

/// Replace the time settings.
pub const MSG_SET_TIME_SETTINGS: u32 = 0x8003;

/// Reply confirming a settings update (or reporting its failure).
pub const MSG_SET_TIME_SETTINGS_RESPONSE: u32 = 0x8004;

// ============================================================================
// Settings and their JSON form
// ============================================================================

/// Time settings that can be persisted.
#[derive(Clone, Debug)]
pub struct TimeSettings {
    /// Use 24-hour time format (false = 12-hour with AM/PM).
    pub time_format_24h: bool,
    /// Timezone identifier (e.g. "America/New_York", "UTC").
    pub timezone: String,
}

/// `true` or `false`.
pub open spec fn bool_text(b: bool) -> Seq<char> {
    if b {
        "true"@
    } else {
        "false"@
    }
}

/// `{"time_format_24h":<bool>,"timezone":"<tz>"}` (the timezone is written
/// as it is, without escaping).
pub open spec fn settings_json(time_format_24h: bool, timezone: Seq<char>) -> Seq<char> {
    "{\"time_format_24h\":"@ + bool_text(time_format_24h) + ",\"timezone\":\""@ + timezone
        + "\"}"@
}

/// The marker whose presence sets the 24-hour flag.
pub open spec fn flag_marker() -> Seq<char> {
    "\"time_format_24h\":true"@
}

/// The marker after which the timezone's text starts.
pub open spec fn timezone_marker() -> Seq<char> {
    "\"timezone\":\""@
}

/// The timezone read from JSON text: the characters after the first
/// `"timezone":"` up to the next quote, and "UTC" when either is missing.
pub open spec fn timezone_of(s: Seq<char>) -> Seq<char> {
    match find_text(s, timezone_marker()) {
        Some(i) => {
            let rest = s.skip(i + 12);
            match find_text(rest, seq!['"']) {
                Some(e) => rest.take(e),
                None => "UTC"@,
            }
        },
        None => "UTC"@,
    }
}

/// What reading settings from bytes gives: nothing unless they are UTF-8;
/// then the flag is set when the text holds `"time_format_24h":true`, and
/// the timezone is read as `timezone_of` says.
pub open spec fn settings_from_json(data: Seq<u8>) -> Option<(bool, Seq<char>)> {
    if vstd::utf8::valid_utf8(data) {
        let s = vstd::utf8::decode_utf8(data);
        Some((find_text(s, flag_marker()) is Some, timezone_of(s)))
    } else {
        None
    }
}

impl TimeSettings {
    /// Storage path for time settings.
    pub fn storage_path() -> (p: &'static str)
        ensures
            p@ == "/system/settings/time.json"@,
    {
        "/system/settings/time.json"
    }

    /// Serialize to JSON bytes.
    pub fn to_json(&self) -> (v: Vec<u8>)
        ensures
            v@ == vstd::utf8::encode_utf8(settings_json(self.time_format_24h, self.timezone@)),
    {
        let mut s = String::new();
        push_str(&mut s, "{\"time_format_24h\":");
        if self.time_format_24h {
            push_str(&mut s, "true");
        } else {
            push_str(&mut s, "false");
        }
        push_str(&mut s, ",\"timezone\":\"");
        push_str(&mut s, self.timezone.as_str());
        push_str(&mut s, "\"}");
        utf8_bytes(s.as_str())
    }

    /// Parse from JSON bytes.
    pub fn from_json(data: &[u8]) -> (r: Option<Self>)
        ensures
            match settings_from_json(data@) {
                Some((flag, tz)) => r matches Some(s) && s.time_format_24h == flag && s.timezone@
                    == tz,
                None => r is None,
            },
    {
        let mut bytes: Vec<u8> = Vec::new();
        crate::wire::append_bytes(&mut bytes, data);
        let text = match string_from_utf8(bytes) {
            Some(t) => t,
            None => {
                return None;
            },
        };
        let cs = chars_of(text.as_str());
        let flag_pat = chars_of("\"time_format_24h\":true");
        let time_format_24h = find_chars(cs.as_slice(), flag_pat.as_slice()).is_some();
        let tz_pat = chars_of("\"timezone\":\"");
        let timezone = match find_chars(cs.as_slice(), tz_pat.as_slice()) {
            Some(start) => {
                proof {
                    reveal_strlit("\"timezone\":\"");
                    lemma_find_from(cs@, tz_pat@, 0);
                }
                let n = cs.len();
                assert(start + 12 <= n);
                let rest = slice_chars(cs.as_slice(), start + 12, n);
                assert(rest@ =~= cs@.skip(start + 12));
                let quote: Vec<char> = vec!['"'];
                assert(quote@ =~= seq!['"']);
                proof {
                    lemma_find_from(rest@, quote@, 0);
                }
                match find_chars(rest.as_slice(), quote.as_slice()) {
                    Some(end) => {
                        let tz = slice_chars(rest.as_slice(), 0, end);
                        assert(tz@ =~= rest@.take(end as int));
                        string_from_chars(tz.as_slice())
                    },
                    None => string_from("UTC"),
                }
            },
            None => string_from("UTC"),
        };
        Some(TimeSettings { time_format_24h, timezone })
    }
}

impl Default for TimeSettings {
    fn default() -> (s: Self)
        ensures
            !s.time_format_24h,
            s.timezone@ == Seq::<char>::empty(),
    {
        TimeSettings { time_format_24h: false, timezone: String::new() }
    }
}

// ============================================================================
// The service
// ============================================================================

/// A storage operation awaiting its result.
#[derive(Clone, Debug)]
pub enum PendingOp {
    /// Reading settings to answer a get request.
    GetSettings { client_pid: u32, cap_slots: Vec<u32> },
    /// Writing settings after a set request.
    WriteSettings { client_pid: u32, settings: TimeSettings, cap_slots: Vec<u32> },
    /// The load of settings at start-up.
    InitialLoad,
}

/// What the host does next.
#[derive(Clone, Debug)]
pub enum TimeStep {
    /// Nothing to do.
    Idle,
    /// Start `call`, then hand its outcome and `op` to `storage_started`.
    Storage { call: StorageCall, op: PendingOp },
    /// Deliver this reply.
    Respond(Reply),
}

/// The time service.
pub struct TimeService {
    registered: bool,
    settings: TimeSettings,
    pending_ops: BTreeMap<u32, PendingOp>,
    settings_loaded: bool,
}

/// The service's state: whether it registered, the cached settings, whether
/// they were loaded, and the pending operations by request id.
pub struct TimeServiceView {
    pub registered: bool,
    pub time_format_24h: bool,
    pub timezone: Seq<char>,
    pub loaded: bool,
    pub pending: Map<u32, PendingOp>,
}

impl View for TimeService {
    type V = TimeServiceView;

    closed spec fn view(&self) -> TimeServiceView {
        TimeServiceView {
            registered: self.registered,
            time_format_24h: self.settings.time_format_24h,
            timezone: self.settings.timezone@,
            loaded: self.settings_loaded,
            pending: self.pending_ops@,
        }
    }
}

/// The key under which the settings are stored.
pub open spec fn settings_key() -> Seq<char> {
    "content:"@ + "/system/settings/time.json"@
}

/// A reply carrying settings as JSON.
pub open spec fn settings_reply(
    r: Reply,
    to_pid: u32,
    cap_slots: Seq<u32>,
    tag: u32,
    flag: bool,
    tz: Seq<char>,
) -> bool {
    &&& r.to_pid == to_pid
    &&& r.reply_slot == first_slot(cap_slots)
    &&& r.tag == tag
    &&& r.data@ == vstd::utf8::encode_utf8(settings_json(flag, tz))
}

/// `{"error":"<message>"}`.
pub open spec fn error_json(message: Seq<char>) -> Seq<char> {
    "{\"error\":\""@ + message + "\"}"@
}

/// An error reply (always tagged as a set response).
pub open spec fn error_reply(r: Reply, to_pid: u32, cap_slots: Seq<u32>, message: Seq<char>) -> bool {
    &&& r.to_pid == to_pid
    &&& r.reply_slot == first_slot(cap_slots)
    &&& r.tag == MSG_SET_TIME_SETTINGS_RESPONSE
    &&& r.data@ == vstd::utf8::encode_utf8(error_json(message))
}

fn settings_response(to_pid: u32, cap_slots: &[u32], settings: &TimeSettings, tag: u32) -> (r:
    Reply)
    ensures
        settings_reply(
            r,
            to_pid,
            cap_slots@,
            tag,
            settings.time_format_24h,
            settings.timezone@,
        ),
{
    reply_to(to_pid, cap_slots, tag, settings.to_json())
}

fn error_response(to_pid: u32, cap_slots: &[u32], message: &str) -> (r: Reply)
    ensures
        error_reply(r, to_pid, cap_slots@, message@),
{
    let mut s = String::new();
    push_str(&mut s, "{\"error\":\"");
    push_str(&mut s, message);
    push_str(&mut s, "\"}");
    reply_to(to_pid, cap_slots, MSG_SET_TIME_SETTINGS_RESPONSE, utf8_bytes(s.as_str()))
}

fn settings_storage_key() -> (k: String)
    ensures
        k@ == settings_key(),
{
    storage_key("content:", TimeSettings::storage_path())
}

fn copy_slots(v: &Vec<u32>) -> (c: Vec<u32>)
    ensures
        c@ == v@,
{
    let mut c: Vec<u32> = Vec::new();
    let mut i: usize = 0;
    while i < v.len()
        invariant
            i <= v@.len(),
            c@ == v@.take(i as int),
        decreases v@.len() - i,
    {
        c.push(v[i]);
        i = i + 1;
        assert(c@ =~= v@.take(i as int));
    }
    assert(v@.take(v@.len() as int) =~= v@);
    c
}

fn copy_settings(s: &TimeSettings) -> (c: TimeSettings)
    ensures
        c.time_format_24h == s.time_format_24h,
        c.timezone@ == s.timezone@,
{
    TimeSettings { time_format_24h: s.time_format_24h, timezone: string_from(s.timezone.as_str()) }
}

/// A storage result frame `msg` takes the service from `s` to `t` with
/// `step`: frames shorter than their header and results nobody awaits
/// change nothing; otherwise the awaiting operation is removed and goes on
/// as `storage_outcome` says.
pub open spec fn handles_time_result(s: TimeServiceView, msg: Seq<u8>, t: TimeServiceView, step: TimeStep) -> bool {
    if msg.len() < 9 {
        t == s && step is Idle
    } else {
        let id = le32_value(msg[0], msg[1], msg[2], msg[3]);
        if !s.pending.contains_key(id) {
            t == s && step is Idle
        } else {
            storage_outcome(s, s.pending[id], msg[4], frame_data(msg), t, step) && t.pending == s.pending.remove(id)
                && t.registered == s.registered
        }
    }
}

/// Each storage result is acted on once: the same result frame handed over
/// again, with nothing started in between, does nothing.
pub proof fn lemma_time_result_acted_on_once(
    s0: TimeServiceView,
    msg: Seq<u8>,
    s1: TimeServiceView,
    step1: TimeStep,
    s2: TimeServiceView,
    step2: TimeStep,
)
    requires
        handles_time_result(s0, msg, s1, step1),
        handles_time_result(s1, msg, s2, step2),
    ensures
        step2 is Idle,
        s2 == s1,
{
}

impl TimeService {
    /// A service that has not registered, holds 12-hour UTC settings that
    /// are not loaded yet, and has nothing pending.
    pub fn new() -> (s: Self)
        ensures
            !s@.registered,
            !s@.time_format_24h,
            s@.timezone == "UTC"@,
            !s@.loaded,
            s@.pending == Map::<u32, PendingOp>::empty(),
    {
        TimeService {
            registered: false,
            settings: TimeSettings { time_format_24h: false, timezone: string_from("UTC") },
            pending_ops: BTreeMap::new(),
            settings_loaded: false,
        }
    }

    /// Start up: register with init under "time" (the host sends the
    /// registration message) and load the stored settings.
    pub fn init(&mut self) -> (step: TimeStep)
        ensures
            final(self)@.registered,
            final(self)@.time_format_24h == old(self)@.time_format_24h,
            final(self)@.timezone == old(self)@.timezone,
            final(self)@.loaded == old(self)@.loaded,
            final(self)@.pending == old(self)@.pending,
            step matches TimeStep::Storage { call: StorageCall::Read { key }, op: PendingOp::InitialLoad }
                && key@ == settings_key(),
    {
        self.registered = true;
        TimeStep::Storage {
            call: StorageCall::Read { key: settings_storage_key() },
            op: PendingOp::InitialLoad,
        }
    }

    /// Record the host's outcome of starting a storage call: its request id
    /// keys the pending operation, and a failure to start is reported.
    pub fn storage_started(&mut self, call: &StorageCall, started: Result<u32, u32>, op: PendingOp) -> (r:
        Result<(), AppError>)
        ensures
            final(self)@.registered == old(self)@.registered,
            final(self)@.time_format_24h == old(self)@.time_format_24h,
            final(self)@.timezone == old(self)@.timezone,
            final(self)@.loaded == old(self)@.loaded,
            match started {
                Ok(id) => r is Ok && final(self)@.pending == old(self)@.pending.insert(id, op),
                Err(code) => r matches Err(AppError::IpcError(m)) && m@ == storage_failure_text(
                    *call,
                    code,
                ) && final(self)@.pending == old(self)@.pending,
            },
    {
        broadcast use vstd::laws_cmp::group_laws_cmp, vstd::std_specs::btree::group_btree_axioms;

        match started {
            Ok(id) => {
                self.pending_ops.insert(id, op);
                Ok(())
            },
            Err(code) => Err(storage_failure(call, code)),
        }
    }

    /// A get request: answered from the cache once the settings are
    /// loaded, and otherwise by reading them from storage first.
    pub fn handle_get_time_settings(&mut self, msg: &Message) -> (step: TimeStep)
        ensures
            final(self)@ == old(self)@,
            get_step(old(self)@, *msg, step),
    {
        if self.settings_loaded {
            return TimeStep::Respond(
                settings_response(
                    msg.from_pid,
                    msg.cap_slots.as_slice(),
                    &self.settings,
                    MSG_GET_TIME_SETTINGS_RESPONSE,
                ),
            );
        }
        TimeStep::Storage {
            call: StorageCall::Read { key: settings_storage_key() },
            op: PendingOp::GetSettings {
                client_pid: msg.from_pid,
                cap_slots: copy_slots(&msg.cap_slots),
            },
        }
    }

    /// A set request: the new settings are parsed from the message and
    /// written to storage; unparsable data is answered with an error.
    pub fn handle_set_time_settings(&mut self, msg: &Message) -> (step: TimeStep)
        ensures
            final(self)@ == old(self)@,
            set_step(*msg, step),
    {
        let new_settings = match TimeSettings::from_json(msg.data.as_slice()) {
            Some(s) => s,
            None => {
                return TimeStep::Respond(
                    error_response(msg.from_pid, msg.cap_slots.as_slice(), "Invalid settings format"),
                );
            },
        };
        let value = new_settings.to_json();
        TimeStep::Storage {
            call: StorageCall::Write { key: settings_storage_key(), value },
            op: PendingOp::WriteSettings {
                client_pid: msg.from_pid,
                settings: new_settings,
                cap_slots: copy_slots(&msg.cap_slots),
            },
        }
    }

    /// A completed storage operation. Frames shorter than their header and
    /// unknown request ids are ignored; otherwise the pending operation is
    /// removed and finished (see `storage_outcome`).
    pub fn handle_storage_result(&mut self, msg: &Message) -> (step: TimeStep)
        ensures
            handles_time_result(old(self)@, msg.data@, final(self)@, step),
    {
        broadcast use vstd::laws_cmp::group_laws_cmp, vstd::std_specs::btree::group_btree_axioms;

        let frame = match parse_result_frame(msg.data.as_slice()) {
            Some(f) => f,
            None => {
                return TimeStep::Idle;
            },
        };
        let op = match self.pending_ops.remove(&frame.request_id) {
            Some(op) => op,
            None => {
                assert(self.pending_ops@ =~= old(self).pending_ops@);
                return TimeStep::Idle;
            },
        };
        let data = frame.data.as_slice();
        match op {
            PendingOp::GetSettings { client_pid, cap_slots } => {
                let settings = if frame.result_type == READ_OK {
                    match TimeSettings::from_json(data) {
                        Some(s) => s,
                        None => TimeSettings::default(),
                    }
                } else {
                    TimeSettings::default()
                };
                self.settings = copy_settings(&settings);
                self.settings_loaded = true;
                TimeStep::Respond(
                    settings_response(
                        client_pid,
                        cap_slots.as_slice(),
                        &settings,
                        MSG_GET_TIME_SETTINGS_RESPONSE,
                    ),
                )
            },
            PendingOp::WriteSettings { client_pid, settings, cap_slots } => {
                if frame.result_type == WRITE_OK {
                    self.settings = copy_settings(&settings);
                    self.settings_loaded = true;
                    TimeStep::Respond(
                        settings_response(
                            client_pid,
                            cap_slots.as_slice(),
                            &settings,
                            MSG_SET_TIME_SETTINGS_RESPONSE,
                        ),
                    )
                } else {
                    TimeStep::Respond(error_response(client_pid, cap_slots.as_slice(), "Write failed"))
                }
            },
            PendingOp::InitialLoad => {
                if frame.result_type == READ_OK {
                    match TimeSettings::from_json(data) {
                        Some(s) => {
                            self.settings = s;
                        },
                        None => {},
                    }
                }
                self.settings_loaded = true;
                TimeStep::Idle
            },
        }
    }

    /// Dispatch a message by its tag; storage results are handed over by
    /// the host under the supervisor's tag (see `handle_storage_result`),
    /// and other tags are ignored.
    pub fn on_message(&mut self, msg: &Message) -> (step: TimeStep)
        ensures
            final(self)@ == old(self)@,
            msg.tag == MSG_GET_TIME_SETTINGS ==> get_step(old(self)@, *msg, step),
            msg.tag == MSG_SET_TIME_SETTINGS ==> set_step(*msg, step),
            msg.tag != MSG_GET_TIME_SETTINGS && msg.tag != MSG_SET_TIME_SETTINGS ==> step is Idle,
    {
        if msg.tag == MSG_GET_TIME_SETTINGS {
            self.handle_get_time_settings(msg)
        } else if msg.tag == MSG_SET_TIME_SETTINGS {
            self.handle_set_time_settings(msg)
        } else {
            TimeStep::Idle
        }
    }
}

/// How a removed pending operation finishes, given the result type and
/// data: a get caches and answers the stored settings (defaults when the
/// read failed or did not parse); a write caches and echoes the settings
/// when it succeeded and answers "Write failed" otherwise; the initial load
/// keeps what parses and marks the settings loaded.
pub open spec fn storage_outcome(
    before: TimeServiceView,
    op: PendingOp,
    result_type: u8,
    data: Seq<u8>,
    after: TimeServiceView,
    step: TimeStep,
) -> bool {
    match op {
        PendingOp::GetSettings { client_pid, cap_slots } => {
            let (flag, tz) = if result_type == READ_OK {
                match settings_from_json(data) {
                    Some((f, t)) => (f, t),
                    None => (false, Seq::<char>::empty()),
                }
            } else {
                (false, Seq::<char>::empty())
            };
            &&& after.time_format_24h == flag
            &&& after.timezone == tz
            &&& after.loaded
            &&& step matches TimeStep::Respond(r) && settings_reply(
                r,
                client_pid,
                cap_slots@,
                MSG_GET_TIME_SETTINGS_RESPONSE,
                flag,
                tz,
            )
        },
        PendingOp::WriteSettings { client_pid, settings, cap_slots } => {
            if result_type == WRITE_OK {
                &&& after.time_format_24h == settings.time_format_24h
                &&& after.timezone == settings.timezone@
                &&& after.loaded
                &&& step matches TimeStep::Respond(r) && settings_reply(
                    r,
                    client_pid,
                    cap_slots@,
                    MSG_SET_TIME_SETTINGS_RESPONSE,
                    settings.time_format_24h,
                    settings.timezone@,
                )
            } else {
                &&& after.time_format_24h == before.time_format_24h
                &&& after.timezone == before.timezone
                &&& after.loaded == before.loaded
                &&& step matches TimeStep::Respond(r) && error_reply(
                    r,
                    client_pid,
                    cap_slots@,
                    "Write failed"@,
                )
            }
        },
        PendingOp::InitialLoad => {
            let parsed = if result_type == READ_OK {
                settings_from_json(data)
            } else {
                None
            };
            &&& match parsed {
                Some((f, t)) => after.time_format_24h == f && after.timezone == t,
                None => after.time_format_24h == before.time_format_24h && after.timezone
                    == before.timezone,
            }
            &&& after.loaded
            &&& step is Idle
        },
    }
}

/// The step that answers a get request: from the cache once the settings
/// are loaded, and otherwise a read of the stored settings.
pub open spec fn get_step(before: TimeServiceView, msg: Message, step: TimeStep) -> bool {
    &&& before.loaded ==> (step matches TimeStep::Respond(r) && settings_reply(
        r,
        msg.from_pid,
        msg.cap_slots@,
        MSG_GET_TIME_SETTINGS_RESPONSE,
        before.time_format_24h,
        before.timezone,
    ))
    &&& !before.loaded ==> (step matches TimeStep::Storage {
        call: StorageCall::Read { key },
        op: PendingOp::GetSettings { client_pid, cap_slots },
    } && key@ == settings_key() && client_pid == msg.from_pid && cap_slots@ == msg.cap_slots@)
}

/// The step that answers a set request: a write of the parsed settings, or
/// an error reply when the data does not parse.
pub open spec fn set_step(msg: Message, step: TimeStep) -> bool {
    match settings_from_json(msg.data@) {
        None => step matches TimeStep::Respond(r) && error_reply(
            r,
            msg.from_pid,
            msg.cap_slots@,
            "Invalid settings format"@,
        ),
        Some((flag, tz)) => step matches TimeStep::Storage {
            call: StorageCall::Write { key, value },
            op: PendingOp::WriteSettings { client_pid, settings, cap_slots },
        } && key@ == settings_key() && value@ == vstd::utf8::encode_utf8(settings_json(flag, tz))
            && client_pid == msg.from_pid && settings.time_format_24h == flag && settings.timezone@
            == tz && cap_slots@ == msg.cap_slots@,
    }
}

/// Reading settings back from their JSON gives them again, for every
/// timezone without a quote in it.
pub proof fn lemma_settings_json_roundtrip(time_format_24h: bool, timezone: Seq<char>)
    requires
        !timezone.contains('"'),
    ensures
        settings_from_json(vstd::utf8::encode_utf8(settings_json(time_format_24h, timezone)))
            == Some((time_format_24h, timezone)),
{
    let t = settings_json(time_format_24h, timezone);
    vstd::utf8::encode_utf8_valid_utf8(t);
    vstd::utf8::encode_utf8_decode_utf8(t);
    reveal_strlit("{\"time_format_24h\":");
    reveal_strlit("true");
    reveal_strlit("false");
    reveal_strlit(",\"timezone\":\"");
    reveal_strlit("\"}");
    reveal_strlit("\"time_format_24h\":true");
    reveal_strlit("\"timezone\":\"");
    let b: int = if time_format_24h {
        4
    } else {
        5
    };
    let l = timezone.len() as int;
    assert(t.len() == 19 + b + 13 + l + 2);
    // The quotes of the text are at 1, 17, 20 + b, 29 + b, 31 + b and 32 + b + l.
    assert forall|j: int| 0 <= j < t.len() && t[j] == '"' implies j == 1 || j == 17 || j == 20 + b
        || j == 29 + b || j == 31 + b || j == 32 + b + l by {
        if 32 + b <= j < 32 + b + l {
            assert(t[j] == timezone[j - 32 - b]);
            assert(timezone.contains(timezone[j - 32 - b]));
        }
    }
    // The flag marker.
    let fm = flag_marker();
    assert(fm.len() == 22);
    lemma_find_from(t, fm, 0);
    if time_format_24h {
        assert(t.subrange(1, 23) =~= fm);
        assert(matches_at(t, fm, 1));
    } else {
        assert forall|j: int| 0 <= j implies !#[trigger] matches_at(t, fm, j) by {
            if matches_at(t, fm, j) {
                assert(t.subrange(j, j + 22)[0] == fm[0]);
                assert(t[j] == '"');
                assert(t.subrange(j, j + 22)[1] == fm[1]);
                assert(t.subrange(j, j + 22)[5] == fm[5]);
                assert(t.subrange(j, j + 22)[16] == fm[16]);
                assert(t.subrange(j, j + 22)[17] == fm[17]);
                assert(t.subrange(j, j + 22)[18] == fm[18]);
                if j == 36 + b + l - 16 {
                } else {
                    assert(t[j + 16] == '"');
                }
            }
        }
    }
    // The timezone marker.
    let tm = timezone_marker();
    assert(tm.len() == 12);
    let start = 20 + b;
    assert(t.subrange(start, start + 12) =~= tm);
    assert(matches_at(t, tm, start));
    assert forall|j: int| 0 <= j < start implies !#[trigger] matches_at(t, tm, j) by {
        if matches_at(t, tm, j) {
            assert(t.subrange(j, j + 12)[0] == tm[0]);
            assert(t.subrange(j, j + 12)[1] == tm[1]);
            assert(t.subrange(j, j + 12)[5] == tm[5]);
        }
    }
    lemma_find_from(t, tm, 0);
    let rest = t.skip(start + 12);
    assert(rest =~= timezone + "\"}"@);
    let q = seq!['"'];
    lemma_find_from(rest, q, 0);
    assert(rest.subrange(l, l + 1) =~= q);
    assert(matches_at(rest, q, l));
    assert forall|j: int| 0 <= j < l implies !#[trigger] matches_at(rest, q, j) by {
        if matches_at(rest, q, j) {
            assert(rest.subrange(j, j + 1)[0] == q[0]);
            assert(rest[j] == timezone[j]);
            assert(timezone.contains(timezone[j]));
        }
    }
    assert(rest.take(l) =~= timezone);
}

/// Once a write of settings succeeded, a get request is answered from the
/// cache with exactly the settings written.
pub proof fn lemma_get_after_write(
    before: TimeServiceView,
    op: PendingOp,
    data: Seq<u8>,
    after: TimeServiceView,
    step: TimeStep,
    msg: Message,
    reply: TimeStep,
)
    requires
        op is WriteSettings,
        storage_outcome(before, op, WRITE_OK, data, after, step),
        get_step(after, msg, reply),
    ensures
        reply matches TimeStep::Respond(r) && settings_reply(
            r,
            msg.from_pid,
            msg.cap_slots@,
            MSG_GET_TIME_SETTINGS_RESPONSE,
            op->settings.time_format_24h,
            op->settings.timezone@,
        ),
{
}

} // verus!
