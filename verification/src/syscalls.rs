//! The supervisor's side of the worker system-call interface: which calls
//! are logged, what each call number asks of the kernel, and the byte forms
//! in which results reach a worker, through its mailbox (the shared-memory
//! path) or in a result message (the message path).

use vstd::prelude::*;

use crate::service::{find_chars, find_text};
use crate::text::{chars_of, decimal, push_decimal, push_str, string_from};
use crate::wire::{append_bytes, le16_bytes, le32_bytes, push_u16_le, push_u32_le, string_from_utf8};

verus! {

/// What the kernel answered to a system call.
#[derive(Clone, Debug)]
pub enum SyscallOutcome {
    Done(u64),
    Failed(KernelFault),
    WouldBlock,
    Message { from: u64, tag: u32, data: Vec<u8> },
    CapList(Vec<CapEntry>),
    ProcessList(Vec<ProcessEntry>),
    MessageWithCaps { from: u64, tag: u32, data: Vec<u8>, slots: Vec<u32> },
    CapInfo(CapDetail),
}

/// Why the kernel refused a system call.
#[derive(Clone, Copy, Debug, PartialEq, Eq, Structural)]
pub enum KernelFault {
    ProcessNotFound,
    EndpointNotFound,
    InvalidCapability,
    PermissionDenied,
    WouldBlock,
    Hal,
}

/// A capability in a process's space.
#[derive(Clone, Copy, Debug, PartialEq, Eq, Structural)]
pub struct CapEntry {
    pub slot: u32,
    pub object_type: u8,
    pub object_id: u64,
}

/// A process in the kernel's list.
#[derive(Clone, Debug)]
pub struct ProcessEntry {
    pub pid: u64,
    pub name: String,
}

/// What inspecting a capability found.
#[derive(Clone, Copy, Debug, PartialEq, Eq, Structural)]
pub struct CapDetail {
    pub object_type: u8,
    pub read: bool,
    pub write: bool,
    pub grant: bool,
    pub object_id: u64,
    pub id: u64,
    pub generation: u32,
    pub expires_at: u64,
}

// ============================================================================
// Byte forms
// ============================================================================

/// The eight little-endian bytes of a 64-bit value.
pub open spec fn le64(v: u64) -> Seq<u8> {
    le32_bytes((v % 0x1_0000_0000) as u32) + le32_bytes((v / 0x1_0000_0000) as u32)
}

/// The UTF-8 bytes of a text.
pub open spec fn utf8(s: Seq<char>) -> Seq<u8> {
    vstd::utf8::encode_utf8(s)
}

/// A capability as a result lists it: slot, object type, object id.
pub open spec fn cap_bytes(c: CapEntry) -> Seq<u8> {
    le32_bytes(c.slot) + seq![c.object_type] + le64(c.object_id)
}

/// The capabilities, one after another.
pub open spec fn caps_bytes(caps: Seq<CapEntry>) -> Seq<u8>
    decreases caps.len(),
{
    if caps.len() == 0 {
        seq![]
    } else {
        caps_bytes(caps.drop_last()) + cap_bytes(caps.last())
    }
}

/// A process as the result message lists it: its id (eight bytes), the
/// length of its name (mod 2^16) and the name.
pub open spec fn process_bytes(pid: u64, name: Seq<char>) -> Seq<u8> {
    le64(pid) + le16_bytes((utf8(name).len() % 0x10000) as u16) + utf8(name)
}

/// A process as the mailbox lists it: its id cut to 32 bits, then as above.
pub open spec fn mailbox_process_bytes(pid: u64, name: Seq<char>) -> Seq<u8> {
    le32_bytes((pid % 0x1_0000_0000) as u32) + le16_bytes((utf8(name).len() % 0x10000) as u16) + utf8(name)
}

/// The processes, one after another, in the result-message form (`short`
/// false) or the mailbox form.
pub open spec fn processes_bytes(procs: Seq<ProcessEntry>, short: bool) -> Seq<u8>
    decreases procs.len(),
{
    if procs.len() == 0 {
        seq![]
    } else {
        processes_bytes(procs.drop_last(), short) + if short {
            mailbox_process_bytes(procs.last().pid, procs.last().name@)
        } else {
            process_bytes(procs.last().pid, procs.last().name@)
        }
    }
}

/// The slots, one after another.
pub open spec fn slots_bytes(slots: Seq<u32>) -> Seq<u8>
    decreases slots.len(),
{
    if slots.len() == 0 {
        seq![]
    } else {
        slots_bytes(slots.drop_last()) + le32_bytes(slots.last())
    }
}

/// The code a refusal carries.
pub open spec fn fault_code(f: KernelFault) -> u8 {
    match f {
        KernelFault::ProcessNotFound => 1,
        KernelFault::EndpointNotFound => 2,
        KernelFault::InvalidCapability => 3,
        KernelFault::PermissionDenied => 4,
        KernelFault::WouldBlock => 5,
        KernelFault::Hal => 6,
    }
}

/// The permission bits: read 1, write 2, grant 4.
pub open spec fn permission_bits(read: bool, write: bool, grant: bool) -> u8 {
    ((if read { 1u8 } else { 0u8 }) + (if write { 2u8 } else { 0u8 }) + (if grant { 4u8 } else { 0u8 })) as u8
}

/// The result message a worker receives: a kind byte (0 success, 1 error,
/// 5 would block, 2 message, 3 capability list, 4 process list, 6 message
/// with capabilities, 7 capability details) and what the kind carries.
pub open spec fn result_bytes(r: SyscallOutcome) -> Seq<u8> {
    match r {
        SyscallOutcome::Done(v) => seq![0u8] + le64(v),
        SyscallOutcome::Failed(f) => seq![1u8, fault_code(f)],
        SyscallOutcome::WouldBlock => seq![5u8],
        SyscallOutcome::Message { from, tag, data } => seq![2u8] + le64(from) + le32_bytes(tag) + le32_bytes(
            (data@.len() as int % 0x1_0000_0000) as u32,
        ) + data@,
        SyscallOutcome::CapList(caps) => seq![3u8] + le32_bytes((caps@.len() as int % 0x1_0000_0000) as u32)
            + caps_bytes(caps@),
        SyscallOutcome::ProcessList(procs) => seq![4u8] + le32_bytes((procs@.len() as int % 0x1_0000_0000) as u32)
            + processes_bytes(procs@, false),
        SyscallOutcome::MessageWithCaps { from, tag, data, slots } => seq![6u8] + le64(from) + le32_bytes(tag)
            + le32_bytes((data@.len() as int % 0x1_0000_0000) as u32) + data@ + le32_bytes(
            (slots@.len() as int % 0x1_0000_0000) as u32,
        ) + slots_bytes(slots@),
        SyscallOutcome::CapInfo(c) => seq![7u8, c.object_type, permission_bits(c.read, c.write, c.grant)]
            + le64(c.object_id) + le64(c.id) + le32_bytes(c.generation) + le64(c.expires_at),
    }
}

fn push_u64_le(dst: &mut Vec<u8>, v: u64)
    ensures
        final(dst)@ == old(dst)@ + le64(v),
{
    push_u32_le(dst, (v % 0x1_0000_0000) as u32);
    push_u32_le(dst, (v / 0x1_0000_0000) as u32);
    assert(dst@ =~= old(dst)@ + le64(v));
}

fn push_len32(dst: &mut Vec<u8>, n: usize)
    ensures
        final(dst)@ == old(dst)@ + le32_bytes((n as int % 0x1_0000_0000) as u32),
{
    push_u32_le(dst, (n as u64 % 0x1_0000_0000) as u32);
}

fn push_caps(dst: &mut Vec<u8>, caps: &Vec<CapEntry>)
    ensures
        final(dst)@ == old(dst)@ + caps_bytes(caps@),
{
    let mut i: usize = 0;
    assert(caps@.take(0) =~= Seq::<CapEntry>::empty());
    while i < caps.len()
        invariant
            i <= caps@.len(),
            dst@ == old(dst)@ + caps_bytes(caps@.take(i as int)),
        decreases caps@.len() - i,
    {
        let c = caps[i];
        push_u32_le(dst, c.slot);
        dst.push(c.object_type);
        push_u64_le(dst, c.object_id);
        assert(caps@.take(i + 1).drop_last() =~= caps@.take(i as int));
        assert(dst@ =~= old(dst)@ + caps_bytes(caps@.take(i + 1)));
        i = i + 1;
    }
    assert(caps@.take(caps@.len() as int) =~= caps@);
}

fn push_processes(dst: &mut Vec<u8>, procs: &Vec<ProcessEntry>, short: bool)
    ensures
        final(dst)@ == old(dst)@ + processes_bytes(procs@, short),
{
    let mut i: usize = 0;
    assert(procs@.take(0) =~= Seq::<ProcessEntry>::empty());
    while i < procs.len()
        invariant
            i <= procs@.len(),
            dst@ == old(dst)@ + processes_bytes(procs@.take(i as int), short),
        decreases procs@.len() - i,
    {
        let p = &procs[i];
        if short {
            push_u32_le(dst, (p.pid % 0x1_0000_0000) as u32);
        } else {
            push_u64_le(dst, p.pid);
        }
        let name = p.name.as_str().as_bytes();
        push_u16_le(dst, (name.len() as u64 % 0x10000) as u16);
        append_bytes(dst, name);
        assert(procs@.take(i + 1).drop_last() =~= procs@.take(i as int));
        assert(procs@.take(i + 1).last() == procs@[i as int]);
        assert(dst@ =~= old(dst)@ + processes_bytes(procs@.take(i + 1), short));
        i = i + 1;
    }
    assert(procs@.take(procs@.len() as int) =~= procs@);
}

fn push_slots(dst: &mut Vec<u8>, slots: &Vec<u32>)
    ensures
        final(dst)@ == old(dst)@ + slots_bytes(slots@),
{
    let mut i: usize = 0;
    assert(slots@.take(0) =~= Seq::<u32>::empty());
    while i < slots.len()
        invariant
            i <= slots@.len(),
            dst@ == old(dst)@ + slots_bytes(slots@.take(i as int)),
        decreases slots@.len() - i,
    {
        push_u32_le(dst, slots[i]);
        assert(slots@.take(i + 1).drop_last() =~= slots@.take(i as int));
        assert(dst@ =~= old(dst)@ + slots_bytes(slots@.take(i + 1)));
        i = i + 1;
    }
    assert(slots@.take(slots@.len() as int) =~= slots@);
}

/// The result message for a worker (see `result_bytes`).
pub fn encode_syscall_result(r: &SyscallOutcome) -> (bytes: Vec<u8>)
    ensures
        bytes@ == result_bytes(*r),
{
    let mut b: Vec<u8> = Vec::new();
    match r {
        SyscallOutcome::Done(v) => {
            b.push(0u8);
            push_u64_le(&mut b, *v);
        },
        SyscallOutcome::Failed(f) => {
            b.push(1u8);
            let code: u8 = match f {
                KernelFault::ProcessNotFound => 1,
                KernelFault::EndpointNotFound => 2,
                KernelFault::InvalidCapability => 3,
                KernelFault::PermissionDenied => 4,
                KernelFault::WouldBlock => 5,
                KernelFault::Hal => 6,
            };
            b.push(code);
        },
        SyscallOutcome::WouldBlock => {
            b.push(5u8);
        },
        SyscallOutcome::Message { from, tag, data } => {
            b.push(2u8);
            push_u64_le(&mut b, *from);
            push_u32_le(&mut b, *tag);
            push_len32(&mut b, data.len());
            append_bytes(&mut b, data.as_slice());
        },
        SyscallOutcome::CapList(caps) => {
            b.push(3u8);
            push_len32(&mut b, caps.len());
            push_caps(&mut b, caps);
        },
        SyscallOutcome::ProcessList(procs) => {
            b.push(4u8);
            push_len32(&mut b, procs.len());
            push_processes(&mut b, procs, false);
        },
        SyscallOutcome::MessageWithCaps { from, tag, data, slots } => {
            b.push(6u8);
            push_u64_le(&mut b, *from);
            push_u32_le(&mut b, *tag);
            push_len32(&mut b, data.len());
            append_bytes(&mut b, data.as_slice());
            push_len32(&mut b, slots.len());
            push_slots(&mut b, slots);
        },
        SyscallOutcome::CapInfo(c) => {
            b.push(7u8);
            b.push(c.object_type);
            let bits: u8 = (if c.read { 1u8 } else { 0u8 }) + (if c.write { 2u8 } else { 0u8 }) + (if c.grant {
                4u8
            } else {
                0u8
            });
            b.push(bits);
            push_u64_le(&mut b, c.object_id);
            push_u64_le(&mut b, c.id);
            push_u32_le(&mut b, c.generation);
            push_u64_le(&mut b, c.expires_at);
        },
    }
    assert(b@ =~= result_bytes(*r));
    b
}

// ============================================================================
// The mailbox path
// ============================================================================

/// Whether a call is logged: the ones that change state, and unknown ones;
/// not the no-op, the time, pid and listing queries, yield or receive.
pub open spec fn logged_spec(num: u32) -> bool {
    !(num == 0x00 || num == 0x02 || num == 0x03 || num == 0x04 || num == 0x05 || num == 0x12 || num == 0x41)
}

/// Whether the call `num` is logged (see `logged_spec`).
pub fn should_log_syscall(num: u32) -> (r: bool)
    ensures
        r == logged_spec(num),
{
    match num {
        0x00 | 0x02 | 0x03 | 0x04 | 0x05 | 0x12 | 0x41 => false,
        _ => true,
    }
}

/// The line a pinger prints at the end of its results.
pub open spec fn results_rule() -> Seq<char> {
    Seq::new(40, |i: int| '=')
}

/// What a call asks of the kernel.
#[derive(Clone, Debug)]
pub enum KernelCall {
    ListCaps,
    ListProcesses,
    CreateEndpoint,
    Send { slot: u32, tag: u32, data: Vec<u8> },
    Receive { slot: u32 },
}

/// What the supervisor does for a call.
#[derive(Clone, Debug)]
pub enum SyscallPlan {
    /// Answer at once with this value.
    Return(i32),
    /// Print the process's text on the console (when it is UTF-8) and, when
    /// it holds the results rule, let the ping-pong test know the process
    /// reported; answer 0.
    Debug { line: Option<String>, ends_test: bool },
    /// Answer with the low (or high) 32 bits of the kernel's uptime.
    Time { high: bool },
    /// Remove the process and stop its worker; answer 0.
    Exit { code: i32 },
    /// Ask the kernel, and answer as `finish_kernel_call` says.
    Kernel(KernelCall),
}

/// The console line for a process's debug text: `[P<pid>] <text>` and a
/// newline.
pub open spec fn debug_line(pid: u64, text: Seq<char>) -> Seq<char> {
    "[P"@ + decimal(pid as nat) + "] "@ + text + "\n"@
}

/// What the call `num` with `args` and `data` from process `pid` asks for.
pub open spec fn plan_spec(pid: u64, num: u32, args: [u32; 3], data: Seq<u8>, plan: SyscallPlan) -> bool {
    if num == 0x00 || num == 0x12 {
        plan == SyscallPlan::Return(0)
    } else if num == 0x01 {
        plan matches SyscallPlan::Debug { line, ends_test } && if vstd::utf8::valid_utf8(data) {
            let text = vstd::utf8::decode_utf8(data);
            line matches Some(l) && l@ == debug_line(pid, text) && ends_test == find_text(text, results_rule()) is Some
        } else {
            line is None && !ends_test
        }
    } else if num == 0x02 {
        plan == SyscallPlan::Time { high: args[0] != 0 }
    } else if num == 0x03 {
        plan == SyscallPlan::Return(pid as i32)
    } else if num == 0x04 {
        plan matches SyscallPlan::Kernel(KernelCall::ListCaps)
    } else if num == 0x05 {
        plan matches SyscallPlan::Kernel(KernelCall::ListProcesses)
    } else if num == 0x11 {
        plan == SyscallPlan::Exit { code: args[0] as i32 }
    } else if num == 0x35 {
        plan matches SyscallPlan::Kernel(KernelCall::CreateEndpoint)
    } else if num == 0x40 {
        plan matches SyscallPlan::Kernel(KernelCall::Send { slot, tag, data: d }) && slot == args[0] && tag
            == args[1] && d@ == data
    } else if num == 0x41 {
        plan matches SyscallPlan::Kernel(KernelCall::Receive { slot }) && slot == args[0]
    } else {
        plan == SyscallPlan::Return(-1i32)
    }
}

fn rule_chars() -> (v: Vec<char>)
    ensures
        v@ == results_rule(),
{
    let mut v: Vec<char> = Vec::new();
    let mut i: usize = 0;
    while i < 40
        invariant
            i <= 40,
            v@ == Seq::new(i as nat, |j: int| '='),
        decreases 40 - i,
    {
        v.push('=');
        i = i + 1;
        assert(v@ =~= Seq::new(i as nat, |j: int| '='));
    }
    v
}

fn copy_data(data: &[u8]) -> (v: Vec<u8>)
    ensures
        v@ == data@,
{
    let mut v: Vec<u8> = Vec::new();
    append_bytes(&mut v, data);
    v
}

/// What the call `num` asks for (see `plan_spec`).
pub fn plan_syscall(pid: u64, num: u32, args: [u32; 3], data: &[u8]) -> (plan: SyscallPlan)
    ensures
        plan_spec(pid, num, args, data@, plan),
{
    match num {
        0x00 | 0x12 => SyscallPlan::Return(0),
        0x01 => match string_from_utf8(copy_data(data)) {
            Some(text) => {
                let cs = chars_of(text.as_str());
                let rule = rule_chars();
                let ends_test = find_chars(cs.as_slice(), rule.as_slice()).is_some();
                let mut line = string_from("[P");
                push_decimal(&mut line, pid as u128);
                push_str(&mut line, "] ");
                push_str(&mut line, text.as_str());
                push_str(&mut line, "\n");
                SyscallPlan::Debug { line: Some(line), ends_test }
            },
            None => SyscallPlan::Debug { line: None, ends_test: false },
        },
        0x02 => SyscallPlan::Time { high: args[0] != 0 },
        0x03 => SyscallPlan::Return(pid as i32),
        0x04 => SyscallPlan::Kernel(KernelCall::ListCaps),
        0x05 => SyscallPlan::Kernel(KernelCall::ListProcesses),
        0x11 => SyscallPlan::Exit { code: args[0] as i32 },
        0x35 => SyscallPlan::Kernel(KernelCall::CreateEndpoint),
        0x40 => SyscallPlan::Kernel(KernelCall::Send { slot: args[0], tag: args[1], data: copy_data(data) }),
        0x41 => SyscallPlan::Kernel(KernelCall::Receive { slot: args[0] }),
        _ => SyscallPlan::Return(-1),
    }
}

/// The low (`high` false) or high 32 bits of `nanos`, as a signed value.
pub fn time_word(nanos: u64, high: bool) -> (r: i32)
    ensures
        r == (if high { ((nanos >> 32u64) & 0xFFFF_FFFFu64) as i32 } else { (nanos & 0xFFFF_FFFFu64) as i32 }),
{
    if high {
        ((nanos >> 32u64) & 0xFFFF_FFFFu64) as i32
    } else {
        (nanos & 0xFFFF_FFFFu64) as i32
    }
}

/// What a kernel call gives back to the worker.
#[derive(Clone, Debug)]
pub struct SyscallReturn {
    /// The call's return value.
    pub code: i32,
    /// Data written to the worker's mailbox.
    pub mailbox: Option<Vec<u8>>,
    /// A message was received, and that is logged as a state change.
    pub received: bool,
}

/// A received message as the mailbox holds it: the sender cut to 32 bits,
/// the tag, the data.
pub open spec fn received_bytes(from: u64, tag: u32, data: Seq<u8>) -> Seq<u8> {
    le32_bytes((from % 0x1_0000_0000) as u32) + le32_bytes(tag) + data
}

/// What the kernel's `outcome` of `call` gives back: listings are written
/// to the mailbox (count, then entries) and answered 0, or -1 when the
/// kernel answered otherwise; endpoint creation and sends answer the
/// kernel's value (cut to 32 bits) or -1; a receive answers 1 with the
/// message in the mailbox, 0 when nothing was waiting, -1 on an error.
pub open spec fn finish_spec(call: KernelCall, outcome: SyscallOutcome, r: SyscallReturn) -> bool {
    match call {
        KernelCall::ListCaps => match outcome {
            SyscallOutcome::CapList(caps) => r.code == 0 && !r.received && (r.mailbox matches Some(m) && m@
                == le32_bytes((caps@.len() as int % 0x1_0000_0000) as u32) + caps_bytes(caps@)),
            _ => r.code == -1 && r.mailbox is None && !r.received,
        },
        KernelCall::ListProcesses => match outcome {
            SyscallOutcome::ProcessList(procs) => r.code == 0 && !r.received && (r.mailbox matches Some(m) && m@
                == le32_bytes((procs@.len() as int % 0x1_0000_0000) as u32) + processes_bytes(procs@, true)),
            _ => r.code == -1 && r.mailbox is None && !r.received,
        },
        KernelCall::CreateEndpoint | KernelCall::Send { .. } => r.mailbox is None && !r.received && match outcome {
            SyscallOutcome::Done(v) => r.code == v as i32,
            _ => r.code == -1,
        },
        KernelCall::Receive { .. } => match outcome {
            SyscallOutcome::Message { from, tag, data } => r.code == 1 && r.received && (r.mailbox matches Some(m)
                && m@ == received_bytes(from, tag, data@)),
            SyscallOutcome::Failed(_) => r.code == -1 && r.mailbox is None && !r.received,
            _ => r.code == 0 && r.mailbox is None && !r.received,
        },
    }
}

/// What the kernel's answer to a call gives back (see `finish_spec`).
pub fn finish_kernel_call(call: &KernelCall, outcome: &SyscallOutcome) -> (r: SyscallReturn)
    ensures
        finish_spec(*call, *outcome, r),
{
    match call {
        KernelCall::ListCaps => match outcome {
            SyscallOutcome::CapList(caps) => {
                let mut m: Vec<u8> = Vec::new();
                push_len32(&mut m, caps.len());
                push_caps(&mut m, caps);
                SyscallReturn { code: 0, mailbox: Some(m), received: false }
            },
            _ => SyscallReturn { code: -1, mailbox: None, received: false },
        },
        KernelCall::ListProcesses => match outcome {
            SyscallOutcome::ProcessList(procs) => {
                let mut m: Vec<u8> = Vec::new();
                push_len32(&mut m, procs.len());
                push_processes(&mut m, procs, true);
                SyscallReturn { code: 0, mailbox: Some(m), received: false }
            },
            _ => SyscallReturn { code: -1, mailbox: None, received: false },
        },
        KernelCall::CreateEndpoint | KernelCall::Send { .. } => match outcome {
            SyscallOutcome::Done(v) => SyscallReturn { code: *v as i32, mailbox: None, received: false },
            _ => SyscallReturn { code: -1, mailbox: None, received: false },
        },
        KernelCall::Receive { .. } => match outcome {
            SyscallOutcome::Message { from, tag, data } => {
                let mut m: Vec<u8> = Vec::new();
                push_u32_le(&mut m, (*from % 0x1_0000_0000) as u32);
                push_u32_le(&mut m, *tag);
                append_bytes(&mut m, data.as_slice());
                assert(m@ =~= received_bytes(*from, *tag, data@));
                SyscallReturn { code: 1, mailbox: Some(m), received: true }
            },
            SyscallOutcome::Failed(_) => SyscallReturn { code: -1, mailbox: None, received: false },
            _ => SyscallReturn { code: 0, mailbox: None, received: false },
        },
    }
}

// ============================================================================
// The message path
// ============================================================================

/// A kernel request on the message path.
#[derive(Clone, Debug)]
pub enum WorkerCall {
    CreateEndpoint,
    Send { slot: u32, tag: u32, data: Vec<u8> },
    Receive { slot: u32 },
    ListCaps,
    ListProcesses,
    GetTime,
}

/// What the supervisor does for a call on the message path.
#[derive(Clone, Debug)]
pub enum WorkerPlan {
    /// Send this result back at once.
    Answer(SyscallOutcome),
    /// Init asked for a service: spawn a worker of type `name` named `name`,
    /// then answer success.
    SpawnService { name: String },
    /// Ask the kernel and send back what it answers.
    Kernel(WorkerCall),
    /// Remove the process and stop its worker, then answer success.
    Exit { code: i32 },
}

/// The prefix of init's request to spawn a service.
pub open spec fn spawn_prefix() -> Seq<char> {
    "INIT:SPAWN:"@
}

/// What the call `num` (message-path numbering) with `args` and `data`
/// asks for: 0 and 9 do nothing, 1 prints (and carries init's spawn
/// requests), 2 to 6 and 8 go to the kernel, 7 exits; other numbers are
/// refused.
pub open spec fn worker_plan_spec(num: u32, args: [u32; 3], data: Seq<u8>, plan: WorkerPlan) -> bool {
    if num == 0 || num == 9 {
        plan == WorkerPlan::Answer(SyscallOutcome::Done(0))
    } else if num == 1 {
        if vstd::utf8::valid_utf8(data) && spawn_prefix().is_prefix_of(vstd::utf8::decode_utf8(data)) {
            plan matches WorkerPlan::SpawnService { name } && name@ == vstd::utf8::decode_utf8(data).skip(11)
        } else {
            plan == WorkerPlan::Answer(SyscallOutcome::Done(0))
        }
    } else if num == 2 {
        plan matches WorkerPlan::Kernel(WorkerCall::CreateEndpoint)
    } else if num == 3 {
        plan matches WorkerPlan::Kernel(WorkerCall::Send { slot, tag, data: d }) && slot == args[0] && tag
            == args[1] && d@ == data
    } else if num == 4 {
        plan matches WorkerPlan::Kernel(WorkerCall::Receive { slot }) && slot == args[0]
    } else if num == 5 {
        plan matches WorkerPlan::Kernel(WorkerCall::ListCaps)
    } else if num == 6 {
        plan matches WorkerPlan::Kernel(WorkerCall::ListProcesses)
    } else if num == 7 {
        plan == WorkerPlan::Exit { code: args[0] as i32 }
    } else if num == 8 {
        plan matches WorkerPlan::Kernel(WorkerCall::GetTime)
    } else {
        plan == WorkerPlan::Answer(SyscallOutcome::Failed(KernelFault::PermissionDenied))
    }
}

fn spawned_service(text: &str) -> (name: Option<String>)
    ensures
        spawn_prefix().is_prefix_of(text@) ==> (name matches Some(n) && n@ == text@.skip(11)),
        !spawn_prefix().is_prefix_of(text@) ==> name is None,
{
    proof {
        reveal_strlit("INIT:SPAWN:");
    }
    let cs = chars_of(text);
    let prefix = chars_of("INIT:SPAWN:");
    assert(prefix@.len() == 11);
    if cs.len() < 11 {
        assert(!spawn_prefix().is_prefix_of(text@));
        return None;
    }
    let mut i: usize = 0;
    while i < 11
        invariant
            i <= 11,
            cs@ == text@,
            prefix@ == spawn_prefix(),
            prefix@.len() == 11,
            cs@.len() >= 11,
            forall|j: int| 0 <= j < i ==> cs@[j] == prefix@[j],
        decreases 11 - i,
    {
        if cs[i] != prefix[i] {
            assert(text@.subrange(0, 11)[i as int] != spawn_prefix()[i as int]);
            assert(!spawn_prefix().is_prefix_of(text@));
            return None;
        }
        i = i + 1;
    }
    assert(spawn_prefix().is_prefix_of(text@)) by {
        assert(text@.subrange(0, 11) =~= spawn_prefix());
    }
    let mut rest: Vec<char> = Vec::new();
    let mut k: usize = 11;
    while k < cs.len()
        invariant
            11 <= k <= cs@.len(),
            rest@ == cs@.subrange(11, k as int),
        decreases cs@.len() - k,
    {
        rest.push(cs[k]);
        k = k + 1;
        assert(rest@ =~= cs@.subrange(11, k as int));
    }
    assert(rest@ =~= text@.skip(11));
    Some(crate::text::string_from_chars(rest.as_slice()))
}

/// What the call `num` asks for on the message path (see
/// `worker_plan_spec`).
pub fn plan_worker_syscall(num: u32, args: [u32; 3], data: &[u8]) -> (plan: WorkerPlan)
    ensures
        worker_plan_spec(num, args, data@, plan),
{
    match num {
        0 | 9 => WorkerPlan::Answer(SyscallOutcome::Done(0)),
        1 => match string_from_utf8(copy_data(data)) {
            Some(text) => match spawned_service(text.as_str()) {
                Some(name) => WorkerPlan::SpawnService { name },
                None => WorkerPlan::Answer(SyscallOutcome::Done(0)),
            },
            None => WorkerPlan::Answer(SyscallOutcome::Done(0)),
        },
        2 => WorkerPlan::Kernel(WorkerCall::CreateEndpoint),
        3 => WorkerPlan::Kernel(WorkerCall::Send { slot: args[0], tag: args[1], data: copy_data(data) }),
        4 => WorkerPlan::Kernel(WorkerCall::Receive { slot: args[0] }),
        5 => WorkerPlan::Kernel(WorkerCall::ListCaps),
        6 => WorkerPlan::Kernel(WorkerCall::ListProcesses),
        7 => WorkerPlan::Exit { code: args[0] as i32 },
        8 => WorkerPlan::Kernel(WorkerCall::GetTime),
        _ => WorkerPlan::Answer(SyscallOutcome::Failed(KernelFault::PermissionDenied)),
    }
}

// ============================================================================
// Debug text on the supervisor's side
// ============================================================================

/// What the supervisor does with a process's debug text.
#[derive(Clone, Debug)]
pub enum DebugAction {
    /// Not UTF-8: nothing.
    Ignore,
    /// Init asks for the service `name` to be spawned.
    SpawnService { name: String },
    /// Init grants a capability; the whole text is the request.
    InitGrant(String),
    /// Init revokes a capability; the whole text is the request.
    InitRevoke(String),
    /// Init's other messages: only logged.
    InitLog,
    /// Any other process's text: written to the console as `line`; it may
    /// end a ping-pong test.
    Console { line: String, ends_test: bool },
}

/// Whether `p` begins `t`.
pub open spec fn starts(t: Seq<char>, p: Seq<char>) -> bool {
    p.is_prefix_of(t)
}

/// What the supervisor does with the debug text `data` of process `pid`.
pub open spec fn debug_action_spec(pid: u64, data: Seq<u8>, a: DebugAction) -> bool {
    if !vstd::utf8::valid_utf8(data) {
        a is Ignore
    } else {
        let t = vstd::utf8::decode_utf8(data);
        if starts(t, "INIT:SPAWN:"@) {
            a matches DebugAction::SpawnService { name } && name@ == t.skip(11)
        } else if starts(t, "INIT:GRANT:"@) {
            a matches DebugAction::InitGrant(x) && x@ == t
        } else if starts(t, "INIT:REVOKE:"@) {
            a matches DebugAction::InitRevoke(x) && x@ == t
        } else if starts(t, "INIT:"@) {
            a is InitLog
        } else {
            a matches DebugAction::Console { line, ends_test } && line@ == debug_line(pid, t) && ends_test
                == find_text(t, results_rule()) is Some
        }
    }
}

fn starts_with_chars(t: &Vec<char>, p: &str) -> (r: bool)
    ensures
        r == starts(t@, p@),
{
    let pc = chars_of(p);
    if pc.len() > t.len() {
        return false;
    }
    let mut i: usize = 0;
    while i < pc.len()
        invariant
            i <= pc@.len() <= t@.len(),
            pc@ == p@,
            forall|j: int| 0 <= j < i ==> t@[j] == pc@[j],
        decreases pc@.len() - i,
    {
        if t[i] != pc[i] {
            assert(t@.subrange(0, pc@.len() as int)[i as int] != pc@[i as int]);
            return false;
        }
        i = i + 1;
    }
    assert(t@.subrange(0, pc@.len() as int) =~= p@);
    true
}

/// What the supervisor does with a process's debug text (see
/// `debug_action_spec`).
pub fn debug_action(pid: u64, data: &[u8]) -> (a: DebugAction)
    ensures
        debug_action_spec(pid, data@, a),
{
    let text = match string_from_utf8(copy_data(data)) {
        Some(t) => t,
        None => {
            return DebugAction::Ignore;
        },
    };
    let cs = chars_of(text.as_str());
    if starts_with_chars(&cs, "INIT:SPAWN:") {
        match spawned_service(text.as_str()) {
            Some(name) => DebugAction::SpawnService { name },
            None => DebugAction::Ignore,
        }
    } else if starts_with_chars(&cs, "INIT:GRANT:") {
        DebugAction::InitGrant(text)
    } else if starts_with_chars(&cs, "INIT:REVOKE:") {
        DebugAction::InitRevoke(text)
    } else if starts_with_chars(&cs, "INIT:") {
        DebugAction::InitLog
    } else {
        let rule = rule_chars();
        let ends_test = find_chars(cs.as_slice(), rule.as_slice()).is_some();
        let mut line = string_from("[P");
        push_decimal(&mut line, pid as u128);
        push_str(&mut line, "] ");
        push_str(&mut line, text.as_str());
        push_str(&mut line, "\n");
        DebugAction::Console { line, ends_test }
    }
}

// ============================================================================
// The audited gateway path
// ============================================================================

/// Where the supervisor sends a system call on the audited gateway path.
#[derive(Clone, Copy, Debug)]
pub enum GatewayRoute {
    /// The process is unknown: the call answers -1.
    Unknown,
    /// `SYS_DEBUG` (0x01): the supervisor reads the text after the kernel.
    Debug,
    /// `SYS_EXIT` (0x11): the kernel, then the worker is stopped; the
    /// exit code is the first argument.
    Exit { code: u32 },
    /// Any other call goes through the kernel's gateway, and its response
    /// data is always written back.
    Gateway { args: [u32; 4] },
}

/// The route of call `num` with `args` from a process that `exists` or not.
pub open spec fn gateway_route_spec(exists: bool, num: u32, args: [u32; 3]) -> GatewayRoute {
    if !exists {
        GatewayRoute::Unknown
    } else if num == 0x01 {
        GatewayRoute::Debug
    } else if num == 0x11 {
        GatewayRoute::Exit { code: args[0] }
    } else {
        GatewayRoute::Gateway { args: [args[0], args[1], args[2], 0] }
    }
}

/// Route a system call on the audited gateway path.
pub fn gateway_route(exists: bool, num: u32, args: [u32; 3]) -> (r: GatewayRoute)
    ensures
        r == gateway_route_spec(exists, num, args),
{
    if !exists {
        GatewayRoute::Unknown
    } else if num == 0x01 {
        GatewayRoute::Debug
    } else if num == 0x11 {
        GatewayRoute::Exit { code: args[0] }
    } else {
        GatewayRoute::Gateway { args: [args[0], args[1], args[2], 0] }
    }
}

// ============================================================================
// Laws
// ============================================================================

/// The kind of a result.
pub open spec fn result_kind(r: SyscallOutcome) -> int {
    match r {
        SyscallOutcome::Done(_) => 0,
        SyscallOutcome::Failed(_) => 1,
        SyscallOutcome::WouldBlock => 2,
        SyscallOutcome::Message { .. } => 3,
        SyscallOutcome::CapList(_) => 4,
        SyscallOutcome::ProcessList(_) => 5,
        SyscallOutcome::MessageWithCaps { .. } => 6,
        SyscallOutcome::CapInfo(_) => 7,
    }
}

/// A worker tells what kind of result it got from the first byte of the
/// result message: two results whose messages start alike are of the same
/// kind.
pub proof fn lemma_result_kind_in_first_byte(r1: SyscallOutcome, r2: SyscallOutcome)
    requires
        result_bytes(r1)[0] == result_bytes(r2)[0],
    ensures
        result_kind(r1) == result_kind(r2),
{
}

/// A success carries the kernel's value whole: it is nine bytes, and the
/// eight after the kind byte give the value back.
pub proof fn lemma_success_carries_value(v: u64)
    ensures
        result_bytes(SyscallOutcome::Done(v)).len() == 9,
        ({
            let b = result_bytes(SyscallOutcome::Done(v));
            b[1] + 256 * b[2] + 65536 * b[3] + 16777216 * b[4] + 0x1_0000_0000 * (b[5] + 256 * b[6] + 65536 * b[7]
                + 16777216 * b[8]) == v
        }),
{
    let lo = (v % 0x1_0000_0000) as u32;
    let hi = (v / 0x1_0000_0000) as u32;
    crate::wire::lemma_le32_roundtrip(lo);
    crate::wire::lemma_le32_roundtrip(hi);
}

} // verus!
