//! Plumbing shared by the system services: the storage and network result
//! frames the supervisor delivers, replies to clients, the debug-channel
//! response line, registration with init, and substring search over text.

use vstd::prelude::*;

use crate::crypto::{bytes_to_hex, hex_digit, hex_string, pow16};
use crate::error::AppError;
use crate::text::{decimal, push_decimal, push_str, string_push};
use crate::wire::{append_bytes, le32_value};

verus! {

/// Storage result: a read returned data.
pub const READ_OK: u8 = 0;

/// Storage result: a write or delete completed.
pub const WRITE_OK: u8 = 1;

/// Storage result: the key does not exist.
pub const NOT_FOUND: u8 = 2;

/// Storage result: the operation failed; the data holds the reason.
pub const STORAGE_ERROR: u8 = 3;

/// Storage result: a list returned a JSON array of keys.
pub const LIST_OK: u8 = 4;

/// Storage result: an existence check returned one byte (1 = exists).
pub const EXISTS_OK: u8 = 5;

// ============================================================================
// Result frames
// ============================================================================

/// A completed asynchronous operation as the supervisor reports it:
/// `[request_id: u32 LE, result_type: u8, data_len: u32 LE, data]`.
#[derive(Clone, Debug)]
pub struct ResultFrame {
    pub request_id: u32,
    pub result_type: u8,
    pub data_len: u32,
    pub data: Vec<u8>,
}

/// The data a frame carries: the declared length, when it is non-zero and
/// the message holds that many bytes after the header; otherwise nothing.
pub open spec fn frame_data(msg: Seq<u8>) -> Seq<u8> {
    let n = le32_value(msg[5], msg[6], msg[7], msg[8]) as int;
    if n > 0 && msg.len() >= 9 + n {
        msg.subrange(9, 9 + n)
    } else {
        seq![]
    }
}

/// Parse a result frame; `None` when the message is shorter than its header.
pub fn parse_result_frame(msg: &[u8]) -> (r: Option<ResultFrame>)
    ensures
        msg@.len() < 9 ==> r is None,
        msg@.len() >= 9 ==> (r matches Some(f) && f.request_id == le32_value(
            msg@[0],
            msg@[1],
            msg@[2],
            msg@[3],
        ) && f.result_type == msg@[4] && f.data_len == le32_value(msg@[5], msg@[6], msg@[7], msg@[8])
            && f.data@ == frame_data(msg@)),
{
    if msg.len() < 9 {
        return None;
    }
    let request_id = read_u32_le(msg, 0);
    let result_type = msg[4];
    let data_len = read_u32_le(msg, 5);
    let mut data: Vec<u8> = Vec::new();
    if data_len > 0 && (msg.len() as u64) >= 9 + (data_len as u64) {
        let end = 9 + data_len as usize;
        let mut i: usize = 9;
        while i < end
            invariant
                9 <= i <= end <= msg@.len(),
                data@ == msg@.subrange(9, i as int),
            decreases end - i,
        {
            data.push(msg[i]);
            i = i + 1;
            assert(data@ =~= msg@.subrange(9, i as int));
        }
    }
    Some(ResultFrame { request_id, result_type, data_len, data })
}

fn read_u32_le(msg: &[u8], at: usize) -> (v: u32)
    requires
        at + 4 <= msg@.len(),
    ensures
        v == le32_value(msg@[at as int], msg@[at + 1], msg@[at + 2], msg@[at + 3]),
{
    (msg[at] as u32) + 256 * (msg[at + 1] as u32) + 65536 * (msg[at + 2] as u32) + 16777216 * (
    msg[at + 3] as u32)
}

/// Name for what `String::from_utf8_lossy` makes of some bytes.
pub uninterp spec fn utf8_lossy(bytes: Seq<u8>) -> Seq<char>;

/// Calls `String::from_utf8_lossy`, which std documents as giving the text
/// of valid UTF-8 unchanged and replacing invalid sequences otherwise; only
/// the first part is stated beyond the name.
#[verifier::external_body]
pub(crate) fn string_from_utf8_lossy(bytes: &[u8]) -> (s: String)
    ensures
        s@ == utf8_lossy(bytes@),
        vstd::utf8::valid_utf8(bytes@) ==> s@ == vstd::utf8::decode_utf8(bytes@),
{
    String::from_utf8_lossy(bytes).into_owned()
}

/// The texts of a list of strings.
pub open spec fn strings_view(v: Seq<String>) -> Seq<Seq<char>> {
    v.map_values(|s: String| s@)
}

/// Name for what `serde_json::from_slice::<Vec<String>>` makes of some
/// bytes: the list of strings, or the text of the parse error.
pub uninterp spec fn json_string_list(bytes: Seq<u8>) -> Result<Seq<Seq<char>>, Seq<char>>;

/// Calls `serde_json::from_slice::<Vec<String>>` and turns a parse error
/// into its text; what it gives is only named.
#[verifier::external_body]
pub(crate) fn parse_string_list(bytes: &[u8]) -> (r: Result<Vec<String>, String>)
    ensures
        json_string_list(bytes@) == match r {
            Ok(v) => Ok(strings_view(v@)),
            Err(e) => Err(e@),
        },
{
    match serde_json::from_slice::<Vec<String>>(bytes) {
        Ok(v) => Ok(v),
        Err(e) => Err(e.to_string()),
    }
}

// ============================================================================
// Replies
// ============================================================================

/// A reply to a client: sent with `tag` through the transferred reply
/// capability when there is one, and otherwise, or when that send fails,
/// printed on the debug channel for the supervisor to route.
#[derive(Clone, Debug)]
pub struct Reply {
    pub to_pid: u32,
    pub reply_slot: Option<u32>,
    pub tag: u32,
    pub data: Vec<u8>,
}

/// The first transferred capability slot, if any.
pub open spec fn first_slot(slots: Seq<u32>) -> Option<u32> {
    if slots.len() > 0 {
        Some(slots[0])
    } else {
        None
    }
}

/// A reply to `to_pid` through the first of `cap_slots`.
pub fn reply_to(to_pid: u32, cap_slots: &[u32], tag: u32, data: Vec<u8>) -> (r: Reply)
    ensures
        r.to_pid == to_pid,
        r.reply_slot == first_slot(cap_slots@),
        r.tag == tag,
        r.data@ == data@,
{
    let reply_slot = if cap_slots.len() > 0 {
        Some(cap_slots[0])
    } else {
        None
    };
    Reply { to_pid, reply_slot, tag, data }
}

/// Eight lowercase hex digits of a 32-bit value, most significant first.
pub open spec fn hex8(v: u32) -> Seq<char> {
    Seq::new(8, |i: int| hex_digit(((v as nat / pow16((7 - i) as nat)) % 16) as u8))
}

/// The debug-channel line that asks the supervisor to deliver `data` to
/// `to_pid` with `tag`: `PREFIX:RESPONSE:<pid>:<tag as 8 hex digits>:<hex>`.
pub open spec fn response_line(prefix: Seq<char>, to_pid: u32, tag: u32, data: Seq<u8>) -> Seq<
    char,
> {
    prefix + ":RESPONSE:"@ + decimal(to_pid as nat) + seq![':'] + hex8(tag) + seq![':']
        + hex_string(data)
}

pub(crate) fn push_hex8(s: &mut String, v: u32)
    ensures
        final(s)@ == old(s)@ + hex8(v),
{
    let mut digits: Vec<char> = Vec::new();
    let mut rest = v;
    let mut i: usize = 0;
    assert(pow16(0) == 1);
    assert(v as nat / 1 == v as nat);
    while i < 8
        invariant
            i <= 8,
            rest == v as nat / pow16(i as nat),
            digits@.len() == i,
            forall|j: int| 0 <= j < i ==> digits@[j] == hex8(v)[7 - j],
        decreases 8 - i,
    {
        proof {
            lemma_pow16_step(v, i as nat);
        }
        digits.push(hex_digit_of((rest % 16) as u8));
        rest = rest / 16;
        i = i + 1;
    }
    let mut k: usize = 8;
    let ghost start = s@;
    while k > 0
        invariant
            k <= 8,
            digits@.len() == 8,
            forall|j: int| 0 <= j < 8 ==> digits@[j] == hex8(v)[7 - j],
            s@ == start + hex8(v).take(8 - k),
        decreases k,
    {
        k = k - 1;
        string_push(s, digits[k]);
        assert(s@ =~= start + hex8(v).take(8 - k));
    }
    assert(hex8(v).take(8) =~= hex8(v));
}

fn hex_digit_of(v: u8) -> (c: char)
    requires
        v < 16,
    ensures
        c == hex_digit(v),
{
    if v < 10 {
        (('0' as u8) + v) as char
    } else {
        (('a' as u8) + (v - 10)) as char
    }
}

proof fn lemma_pow16_step(v: u32, i: nat)
    ensures
        pow16(i) > 0,
        v as nat / pow16(i) / 16 == v as nat / pow16(i + 1),
    decreases i,
{
    lemma_pow16_positive(i);
    vstd::arithmetic::div_mod::lemma_div_denominator(v as int, pow16(i) as int, 16);
}

proof fn lemma_pow16_positive(i: nat)
    ensures
        pow16(i) > 0,
    decreases i,
{
    if i > 0 {
        lemma_pow16_positive((i - 1) as nat);
    }
}

/// The debug-channel line for a reply (see `response_line`).
pub fn fallback_line(prefix: &str, reply: &Reply) -> (line: String)
    ensures
        line@ == response_line(prefix@, reply.to_pid, reply.tag, reply.data@),
{
    let mut line = String::new();
    push_str(&mut line, prefix);
    push_str(&mut line, ":RESPONSE:");
    push_decimal(&mut line, reply.to_pid as u128);
    string_push(&mut line, ':');
    push_hex8(&mut line, reply.tag);
    string_push(&mut line, ':');
    let hex = bytes_to_hex(reply.data.as_slice());
    push_str(&mut line, hex.as_str());
    line
}

// ============================================================================
// Registration with init
// ============================================================================

/// The registration message: the name's length (mod 256), its bytes, then
/// eight zero bytes for the endpoint.
pub open spec fn registration_bytes(name: Seq<u8>) -> Seq<u8> {
    seq![name.len() as u8] + name + Seq::new(8, |i: int| 0u8)
}

/// Build the message a service sends init to register under `name`.
pub fn registration_payload(name: &str) -> (data: Vec<u8>)
    ensures
        data@ == registration_bytes(vstd::utf8::encode_utf8(name@)),
{
    let bytes = name.as_bytes();
    let mut data: Vec<u8> = Vec::new();
    data.push(bytes.len() as u8);
    append_bytes(&mut data, bytes);
    let mut i: usize = 0;
    while i < 8
        invariant
            i <= 8,
            data@ == seq![bytes@.len() as u8] + bytes@ + Seq::new(i as nat, |j: int| 0u8),
        decreases 8 - i,
    {
        data.push(0u8);
        i = i + 1;
        assert(data@ =~= seq![bytes@.len() as u8] + bytes@ + Seq::new(i as nat, |j: int| 0u8));
    }
    data
}

// ============================================================================
// Text
// ============================================================================

/// The UTF-8 bytes of a string.
pub fn utf8_bytes(s: &str) -> (v: Vec<u8>)
    ensures
        v@ == vstd::utf8::encode_utf8(s@),
{
    let mut v: Vec<u8> = Vec::new();
    append_bytes(&mut v, s.as_bytes());
    v
}

/// Whether `p` occurs in `s` at position `i`.
pub open spec fn matches_at(s: Seq<char>, p: Seq<char>, i: int) -> bool {
    0 <= i && i + p.len() <= s.len() && s.subrange(i, i + p.len()) == p
}

/// The first position at or after `i` where `p` occurs in `s`.
pub open spec fn find_from(s: Seq<char>, p: Seq<char>, i: int) -> Option<int>
    decreases s.len() + 1 - i,
{
    if i < 0 || i + p.len() > s.len() {
        None
    } else if matches_at(s, p, i) {
        Some(i)
    } else {
        find_from(s, p, i + 1)
    }
}

/// A position found from `i` is the first match at or after `i`.
pub proof fn lemma_find_from(s: Seq<char>, p: Seq<char>, i: int)
    requires
        0 <= i,
    ensures
        find_from(s, p, i) matches Some(k) ==> matches_at(s, p, k) && i <= k && forall|j: int|
            i <= j < k ==> !#[trigger] matches_at(s, p, j),
        find_from(s, p, i) is None ==> forall|j: int| i <= j ==> !#[trigger] matches_at(s, p, j),
    decreases s.len() + 1 - i,
{
    if i + p.len() > s.len() {
        assert forall|j: int| i <= j implies !#[trigger] matches_at(s, p, j) by {}
    } else if matches_at(s, p, i) {
    } else {
        lemma_find_from(s, p, i + 1);
    }
}

/// The first position where `p` occurs in `s`.
pub open spec fn find_text(s: Seq<char>, p: Seq<char>) -> Option<int> {
    find_from(s, p, 0)
}

fn matches_at_exec(s: &[char], p: &[char], i: usize) -> (r: bool)
    requires
        i + p@.len() <= s@.len(),
    ensures
        r == matches_at(s@, p@, i as int),
{
    let mut k: usize = 0;
    let sl = s.len();
    while k < p.len()
        invariant
            k <= p@.len(),
            i + p@.len() <= s@.len(),
            sl == s@.len(),
            forall|j: int| 0 <= j < k ==> s@[i + j] == p@[j],
        decreases p@.len() - k,
    {
        assert(i + k < s@.len());
        if s[i + k] != p[k] {
            assert(s@.subrange(i as int, i + p@.len())[k as int] != p@[k as int]);
            return false;
        }
        k = k + 1;
    }
    assert(s@.subrange(i as int, i + p@.len()) =~= p@);
    true
}

/// The first position where `p` occurs in `s`.
pub fn find_chars(s: &[char], p: &[char]) -> (r: Option<usize>)
    ensures
        match find_text(s@, p@) {
            Some(i) => r == Some(i as usize),
            None => r is None,
        },
{
    let n = s.len();
    let m = p.len();
    if m > n {
        return None;
    }
    if m == 0 {
        assert(s@.subrange(0, 0) =~= p@);
        return Some(0);
    }
    let mut i: usize = 0;
    let last = n - m;
    while i <= last
        invariant
            m == p@.len(),
            n == s@.len(),
            last == n - m,
            m >= 1,
            i <= last + 1,
            find_text(s@, p@) == find_from(s@, p@, i as int),
        decreases last + 1 - i,
    {
        if matches_at_exec(s, p, i) {
            return Some(i);
        }
        i = i + 1;
    }
    None
}

// ============================================================================
// Storage calls
// ============================================================================

/// An asynchronous storage operation for the host to start; it answers with
/// a request id, and the result arrives later as a result frame.
#[derive(Clone, Debug)]
pub enum StorageCall {
    Read { key: String },
    Write { key: String, value: Vec<u8> },
    Delete { key: String },
    List { prefix: String },
    Exists { key: String },
}

/// The operation's name in the error reported when it cannot be started.
pub open spec fn storage_verb(call: StorageCall) -> Seq<char> {
    match call {
        StorageCall::Read { .. } => "read"@,
        StorageCall::Write { .. } => "write"@,
        StorageCall::Delete { .. } => "delete"@,
        StorageCall::List { .. } => "list"@,
        StorageCall::Exists { .. } => "exists"@,
    }
}

/// `Storage <verb> failed: <code>`.
pub open spec fn failure_text(verb: Seq<char>, code: u32) -> Seq<char> {
    "Storage "@ + verb + " failed: "@ + decimal(code as nat)
}

/// The error text for a call that could not be started.
pub open spec fn storage_failure_text(call: StorageCall, code: u32) -> Seq<char> {
    failure_text(storage_verb(call), code)
}

/// The error a service reports when the host could not start `call`.
pub fn storage_failure(call: &StorageCall, code: u32) -> (e: AppError)
    ensures
        e matches AppError::IpcError(m) && m@ == storage_failure_text(*call, code),
{
    let mut m = String::new();
    push_str(&mut m, "Storage ");
    match call {
        StorageCall::Read { .. } => push_str(&mut m, "read"),
        StorageCall::Write { .. } => push_str(&mut m, "write"),
        StorageCall::Delete { .. } => push_str(&mut m, "delete"),
        StorageCall::List { .. } => push_str(&mut m, "list"),
        StorageCall::Exists { .. } => push_str(&mut m, "exists"),
    }
    push_str(&mut m, " failed: ");
    push_decimal(&mut m, code as u128);
    AppError::IpcError(m)
}

/// `prefix` followed by `path`, as a storage key.
pub fn storage_key(prefix: &str, path: &str) -> (k: String)
    ensures
        k@ == prefix@ + path@,
{
    let mut k = String::new();
    push_str(&mut k, prefix);
    push_str(&mut k, path);
    k
}

/// The characters `cs[lo..hi]`.
pub fn slice_chars(cs: &[char], lo: usize, hi: usize) -> (v: Vec<char>)
    requires
        lo <= hi <= cs@.len(),
    ensures
        v@ == cs@.subrange(lo as int, hi as int),
{
    let mut v: Vec<char> = Vec::new();
    let mut i: usize = lo;
    while i < hi
        invariant
            lo <= i <= hi <= cs@.len(),
            v@ == cs@.subrange(lo as int, i as int),
        decreases hi - i,
    {
        v.push(cs[i]);
        i = i + 1;
        assert(v@ =~= cs@.subrange(lo as int, i as int));
    }
    v
}

} // verus!
