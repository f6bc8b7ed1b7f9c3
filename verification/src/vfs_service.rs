//! The VFS service: filesystem requests from processes become asynchronous
//! storage operations on `inode:<path>` and `content:<path>` keys, and the
//! storage results become replies. The host decodes request JSON, starts
//! the storage calls, decodes stored inode records, and encodes the
//! replies; every decision between is made here.

use vstd::prelude::*;
use std::collections::BTreeMap;

use crate::error::AppError;
use crate::service::{
    failure_text, frame_data, parse_result_frame, slice_chars, storage_failure, storage_verb,
    storage_key, string_from_utf8_lossy, utf8_lossy, json_string_list, parse_string_list, strings_view, StorageCall, EXISTS_OK, LIST_OK,
    NOT_FOUND, READ_OK, WRITE_OK,
};
use crate::text::{chars_of, string_from, string_from_chars};
use crate::wire::{append_bytes, le32_value};

verus! {

/// Create a directory.
pub const MSG_VFS_MKDIR: u32 = 0x8000;

/// Answer to a mkdir.
pub const MSG_VFS_MKDIR_RESPONSE: u32 = 0x8001;

/// Remove a directory.
pub const MSG_VFS_RMDIR: u32 = 0x8002;

/// Answer to an rmdir.
pub const MSG_VFS_RMDIR_RESPONSE: u32 = 0x8003;

/// List a directory.
pub const MSG_VFS_READDIR: u32 = 0x8004;

/// Answer to a readdir.
pub const MSG_VFS_READDIR_RESPONSE: u32 = 0x8005;

/// Write a file.
pub const MSG_VFS_WRITE: u32 = 0x8010;

/// Answer to a write.
pub const MSG_VFS_WRITE_RESPONSE: u32 = 0x8011;

/// Read a file.
pub const MSG_VFS_READ: u32 = 0x8012;

/// Answer to a read.
pub const MSG_VFS_READ_RESPONSE: u32 = 0x8013;

/// Delete a file.
pub const MSG_VFS_UNLINK: u32 = 0x8014;

/// Answer to an unlink.
pub const MSG_VFS_UNLINK_RESPONSE: u32 = 0x8015;

/// Describe a path.
pub const MSG_VFS_STAT: u32 = 0x8020;

/// Answer to a stat.
pub const MSG_VFS_STAT_RESPONSE: u32 = 0x8021;

/// Check whether a path exists.
pub const MSG_VFS_EXISTS: u32 = 0x8022;

/// Answer to an exists check.
pub const MSG_VFS_EXISTS_RESPONSE: u32 = 0x8023;

// ============================================================================
// Paths
// ============================================================================

/// The position of the last '/' in `s`, if any.
pub open spec fn last_slash(s: Seq<char>) -> Option<int>
    decreases s.len(),
{
    if s.len() == 0 {
        None
    } else if s.last() == '/' {
        Some(s.len() - 1)
    } else {
        last_slash(s.drop_last())
    }
}

/// The text after the last '/', or all of it when there is none.
pub open spec fn last_segment(s: Seq<char>) -> Seq<char> {
    match last_slash(s) {
        Some(i) => s.skip(i + 1),
        None => s,
    }
}

/// The directory holding `path`: what precedes its last '/', and "/" when
/// that is empty or there is no '/'.
pub open spec fn parent_of(path: Seq<char>) -> Seq<char> {
    match last_slash(path) {
        Some(i) => if i == 0 {
            "/"@
        } else {
            path.take(i)
        },
        None => "/"@,
    }
}

/// The last '/' is a '/' inside the text, with none after it.
pub proof fn lemma_last_slash(s: Seq<char>)
    ensures
        match last_slash(s) {
            Some(i) => 0 <= i < s.len() && s[i] == '/' && forall|j: int| i < j < s.len() ==> s[j] != '/',
            None => forall|j: int| 0 <= j < s.len() ==> s[j] != '/',
        },
    decreases s.len(),
{
    if s.len() > 0 && s.last() != '/' {
        lemma_last_slash(s.drop_last());
        assert forall|j: int| 0 <= j < s.len() - 1 implies s[j] == s.drop_last()[j] by {}
    }
}

/// A path whose last '/' is not its first character is its parent, a '/',
/// and its last segment.
pub proof fn lemma_parent_and_name(path: Seq<char>)
    requires
        last_slash(path) matches Some(i) && i > 0,
    ensures
        parent_of(path) + seq!['/'] + last_segment(path) == path,
{
    lemma_last_slash(path);
    let i = last_slash(path)->Some_0;
    assert(path.take(i) + seq!['/'] + path.skip(i + 1) =~= path);
}

fn find_last_slash(cs: &[char]) -> (r: Option<usize>)
    ensures
        match last_slash(cs@) {
            Some(i) => r == Some(i as usize),
            None => r is None,
        },
{
    proof {
        lemma_take_all(cs@);
        lemma_last_slash(cs@);
    }
    let mut k: usize = cs.len();
    while k > 0
        invariant
            k <= cs@.len(),
            last_slash(cs@) == last_slash(cs@.take(k as int)),
        decreases k,
    {
        assert(cs@.take(k as int).drop_last() =~= cs@.take(k - 1));
        if cs[k - 1] == '/' {
            return Some(k - 1);
        }
        k = k - 1;
    }
    None
}

proof fn lemma_take_all(cs: Seq<char>)
    ensures
        cs.take(cs.len() as int) == cs,
{
    assert(cs.take(cs.len() as int) =~= cs);
}

/// The last segment of a path (see `last_segment`).
pub fn path_name(path: &str) -> (name: String)
    ensures
        name@ == last_segment(path@),
{
    let cs = chars_of(path);
    proof {
        lemma_take_all(cs@);
        lemma_last_slash(cs@);
    }
    match find_last_slash(cs.as_slice()) {
        Some(i) => {
            let rest = slice_chars(cs.as_slice(), i + 1, cs.len());
            assert(rest@ =~= cs@.skip(i + 1));
            string_from_chars(rest.as_slice())
        },
        None => string_from(path),
    }
}

/// The parent directory of a path (see `parent_of`).
pub fn parent_path(path: &str) -> (parent: String)
    ensures
        parent@ == parent_of(path@),
{
    let cs = chars_of(path);
    proof {
        lemma_take_all(cs@);
        lemma_last_slash(cs@);
    }
    match find_last_slash(cs.as_slice()) {
        Some(i) => {
            if i == 0 {
                string_from("/")
            } else {
                let head = slice_chars(cs.as_slice(), 0, i);
                assert(head@ =~= cs@.take(i as int));
                string_from_chars(head.as_slice())
            }
        },
        None => string_from("/"),
    }
}

// ============================================================================
// Requests, replies, pending operations
// ============================================================================

/// Why a filesystem request failed.
#[derive(Clone, Debug)]
pub enum VfsError {
    NotFound,
    AlreadyExists,
    NotAFile,
    NotADirectory,
    InvalidPath(String),
    StorageError(String),
}

/// A filesystem error with its text taken by view.
pub enum VfsErrorView {
    NotFound,
    AlreadyExists,
    NotAFile,
    NotADirectory,
    InvalidPath(Seq<char>),
    StorageError(Seq<char>),
}

impl View for VfsError {
    type V = VfsErrorView;

    open spec fn view(&self) -> VfsErrorView {
        match self {
            VfsError::NotFound => VfsErrorView::NotFound,
            VfsError::AlreadyExists => VfsErrorView::AlreadyExists,
            VfsError::NotAFile => VfsErrorView::NotAFile,
            VfsError::NotADirectory => VfsErrorView::NotADirectory,
            VfsError::InvalidPath(m) => VfsErrorView::InvalidPath(m@),
            VfsError::StorageError(m) => VfsErrorView::StorageError(m@),
        }
    }
}

/// What a stored inode record says the path is, as the host decodes it.
#[derive(Clone, Copy, Debug, PartialEq, Eq, Structural)]
pub enum InodeKind {
    File,
    Directory,
    Other,
}

/// An inode for the host to encode and store.
#[derive(Clone, Debug)]
pub struct NewInode {
    pub path: String,
    pub parent: String,
    pub name: String,
    /// The user that owns the object, if any.
    pub owner: Option<u128>,
    pub is_directory: bool,
    pub size: u64,
    pub now: u64,
}

/// One entry of a directory listing.
#[derive(Clone, Debug)]
pub struct DirEntry {
    pub name: String,
    pub path: String,
    pub is_directory: bool,
    pub is_symlink: bool,
    pub size: u64,
    pub modified_at: u64,
}

/// The answer to a request, for the host to encode.
#[derive(Debug)]
pub enum VfsResponse {
    /// The stored inode record, as it was read.
    Stat(Result<Vec<u8>, VfsError>),
    Exists(bool),
    Read(Result<Vec<u8>, VfsError>),
    Write(Result<(), VfsError>),
    Mkdir(Result<(), VfsError>),
    Rmdir(Result<(), VfsError>),
    Unlink(Result<(), VfsError>),
    Readdir(Result<Vec<DirEntry>, VfsError>),
}

/// A reply to deliver to `to_pid` with `tag` (through the debug channel).
#[derive(Debug)]
pub struct VfsReply {
    pub to_pid: u32,
    pub tag: u32,
    pub response: VfsResponse,
}

/// What an inode read is for.
#[derive(Clone, Debug)]
pub enum InodeOp {
    Stat,
    Exists,
    ReadFile,
    MkdirCheckParent { create_parents: bool },
    WriteFileCheckParent { content: Vec<u8> },
    Rmdir { recursive: bool },
    Unlink,
    Readdir,
}

/// A storage operation awaiting its result.
#[derive(Clone, Debug)]
pub enum VfsPendingOp {
    GetInode { client_pid: u32, path: String, op_type: InodeOp },
    GetContent { client_pid: u32, path: String },
    PutInode { client_pid: u32, response_tag: u32 },
    PutContent { client_pid: u32, path: String },
    DeleteInode { client_pid: u32, response_tag: u32 },
    DeleteContent { client_pid: u32, path: String },
    ListChildren { client_pid: u32, path: String },
    ExistsCheck { client_pid: u32, path: String },
}

/// A storage call for the host to start.
#[derive(Clone, Debug)]
pub enum VfsCall {
    Storage(StorageCall),
    /// Encode `inode` and write it under `key`.
    WriteInode { key: String, inode: NewInode },
}

/// A call together with the operation that awaits its result.
#[derive(Clone, Debug)]
pub struct StartCall {
    pub call: VfsCall,
    pub op: VfsPendingOp,
}

/// What the host does next.
#[derive(Debug)]
pub enum VfsStep {
    Idle,
    /// Start the calls in order, handing each outcome to `storage_started`;
    /// only the last one's failure is reported.
    Start(Vec<StartCall>),
    Respond(VfsReply),
}

/// The VFS service.
pub struct VfsService {
    registered: bool,
    pending_ops: BTreeMap<u32, VfsPendingOp>,
}

/// The service's state: whether it registered, and the operations awaiting
/// storage results by request id.
pub struct VfsServiceView {
    pub registered: bool,
    pub pending: Map<u32, VfsPendingOp>,
}

impl View for VfsService {
    type V = VfsServiceView;

    closed spec fn view(&self) -> VfsServiceView {
        VfsServiceView { registered: self.registered, pending: self.pending_ops@ }
    }
}

// ============================================================================
// Spec helpers for steps
// ============================================================================

/// The operation's name in the error reported when it cannot be started.
pub open spec fn vfs_verb(call: VfsCall) -> Seq<char> {
    match call {
        VfsCall::Storage(c) => storage_verb(c),
        VfsCall::WriteInode { .. } => "write"@,
    }
}

/// A reply to `pid` with `tag` and `response`.
pub open spec fn replies(step: VfsStep, pid: u32, tag: u32, response: VfsResponse) -> bool {
    step matches VfsStep::Respond(r) && r.to_pid == pid && r.tag == tag && r.response == response
}

/// A reply to `pid` with `tag` whose response the predicate accepts.
pub open spec fn replies_with(step: VfsStep, pid: u32, tag: u32, ok: spec_fn(VfsResponse) -> bool) -> bool {
    step matches VfsStep::Respond(r) && r.to_pid == pid && r.tag == tag && ok(r.response)
}

/// An error carrying `m` as its message.
pub open spec fn error_text(e: VfsError) -> Option<Seq<char>> {
    match e {
        VfsError::InvalidPath(m) => Some(m@),
        VfsError::StorageError(m) => Some(m@),
        _ => None,
    }
}

/// A single call: a plain storage call on `key` of the given kind,
/// awaited by an operation the predicate accepts.
pub open spec fn starts_one(step: VfsStep, c: spec_fn(VfsCall) -> bool, o: spec_fn(VfsPendingOp) -> bool) -> bool {
    step matches VfsStep::Start(v) && v@.len() == 1 && c(v@[0].call) && o(v@[0].op)
}

/// A read of `key`.
pub open spec fn is_read(c: VfsCall, key: Seq<char>) -> bool {
    c matches VfsCall::Storage(StorageCall::Read { key: k }) && k@ == key
}

/// An existence check of `key`.
pub open spec fn is_exists(c: VfsCall, key: Seq<char>) -> bool {
    c matches VfsCall::Storage(StorageCall::Exists { key: k }) && k@ == key
}

/// A delete of `key`.
pub open spec fn is_delete(c: VfsCall, key: Seq<char>) -> bool {
    c matches VfsCall::Storage(StorageCall::Delete { key: k }) && k@ == key
}

/// A list of keys under `prefix`.
pub open spec fn is_list(c: VfsCall, prefix: Seq<char>) -> bool {
    c matches VfsCall::Storage(StorageCall::List { prefix: k }) && k@ == prefix
}

/// A write of `value` under `key`.
pub open spec fn is_write(c: VfsCall, key: Seq<char>, value: Seq<u8>) -> bool {
    c matches VfsCall::Storage(StorageCall::Write { key: k, value: v }) && k@ == key && v@ == value
}

/// The write of a new inode for `path` (a directory, or a file of `size`
/// bytes) created at `now`.
pub open spec fn is_inode_write(c: VfsCall, path: Seq<char>, is_directory: bool, size: u64, now: u64) -> bool {
    c matches VfsCall::WriteInode { key, inode } && key@ == "inode:"@ + path && inode.path@ == path
        && inode.parent@ == parent_of(path) && inode.name@ == last_segment(path) && inode.owner is None
        && inode.is_directory == is_directory && inode.size == size && inode.now == now
}

/// An inode read for `op` on behalf of `pid`.
pub open spec fn awaits_inode(op: VfsPendingOp, pid: u32, path: Seq<char>, what: spec_fn(InodeOp) -> bool) -> bool {
    op matches VfsPendingOp::GetInode { client_pid, path: p, op_type } && client_pid == pid && p@ == path
        && what(op_type)
}

// ============================================================================
// Building blocks
// ============================================================================

fn one_call(call: VfsCall, op: VfsPendingOp) -> (step: VfsStep)
    ensures
        step matches VfsStep::Start(v) && v@.len() == 1 && v@[0].call == call && v@[0].op == op,
{
    let mut v: Vec<StartCall> = Vec::new();
    v.push(StartCall { call, op });
    VfsStep::Start(v)
}

fn respond(to_pid: u32, tag: u32, response: VfsResponse) -> (step: VfsStep)
    ensures
        replies(step, to_pid, tag, response),
{
    VfsStep::Respond(VfsReply { to_pid, tag, response })
}

fn inode_key(path: &str) -> (k: String)
    ensures
        k@ == "inode:"@ + path@,
{
    storage_key("inode:", path)
}

fn content_key(path: &str) -> (k: String)
    ensures
        k@ == "content:"@ + path@,
{
    storage_key("content:", path)
}

fn copy_string(s: &String) -> (c: String)
    ensures
        c@ == s@,
{
    string_from(s.as_str())
}

fn copy_bytes(b: &[u8]) -> (c: Vec<u8>)
    ensures
        c@ == b@,
{
    let mut c: Vec<u8> = Vec::new();
    append_bytes(&mut c, b);
    c
}

fn new_inode(path: &str, is_directory: bool, size: u64, now: u64) -> (i: NewInode)
    ensures
        i.path@ == path@,
        i.parent@ == parent_of(path@),
        i.name@ == last_segment(path@),
        i.owner is None,
        i.is_directory == is_directory,
        i.size == size,
        i.now == now,
{
    NewInode {
        path: string_from(path),
        parent: parent_path(path),
        name: path_name(path),
        owner: None,
        is_directory,
        size,
        now,
    }
}

fn lossy_error(data: &[u8]) -> (e: VfsError)
    ensures
        e matches VfsError::StorageError(m) && m@ == utf8_lossy(data@),
{
    VfsError::StorageError(string_from_utf8_lossy(data))
}

impl VfsService {
    /// A service that has not registered and has nothing pending.
    pub fn new() -> (s: Self)
        ensures
            !s@.registered,
            s@.pending == Map::<u32, VfsPendingOp>::empty(),
    {
        VfsService { registered: false, pending_ops: BTreeMap::new() }
    }

    /// Start up: the host registers the service with init under "vfs".
    pub fn init(&mut self)
        ensures
            final(self)@.registered,
            final(self)@.pending == old(self)@.pending,
    {
        self.registered = true;
    }

    /// Record the host's outcome of starting a storage call: the request id
    /// keys the pending operation, and a failure to start is reported.
    pub fn storage_started(&mut self, call: &VfsCall, started: Result<u32, u32>, op: VfsPendingOp) -> (r:
        Result<(), AppError>)
        ensures
            final(self)@.registered == old(self)@.registered,
            match started {
                Ok(id) => r is Ok && final(self)@.pending == old(self)@.pending.insert(id, op),
                Err(code) => final(self)@.pending == old(self)@.pending && (r matches Err(
                    AppError::IpcError(m),
                ) && m@ == failure_text(vfs_verb(*call), code)),
            },
    {
        broadcast use vstd::laws_cmp::group_laws_cmp, vstd::std_specs::btree::group_btree_axioms;

        match started {
            Ok(id) => {
                self.pending_ops.insert(id, op);
                Ok(())
            },
            Err(code) => match call {
                VfsCall::Storage(c) => Err(storage_failure(c, code)),
                VfsCall::WriteInode { key, .. } => {
                    let c = StorageCall::Write { key: copy_string(key), value: Vec::new() };
                    Err(storage_failure(&c, code))
                },
            },
        }
    }

    // ========================================================================
    // Requests
    // ========================================================================

    /// A stat: read the path's inode; an undecodable request is answered
    /// with an invalid-path error.
    pub fn handle_stat(&self, from_pid: u32, request: Result<String, String>) -> (step: VfsStep)
        ensures
            match request {
                Err(e) => step matches VfsStep::Respond(r) && r.to_pid == from_pid && r.tag
                    == MSG_VFS_STAT_RESPONSE && (r.response matches VfsResponse::Stat(Err(VfsError::InvalidPath(m)))
                    && m@ == e@),
                Ok(path) => step matches VfsStep::Start(v) && v@.len() == 1 && is_read(
                    v@[0].call,
                    "inode:"@ + path@,
                ) && (v@[0].op matches VfsPendingOp::GetInode { client_pid, path: p, op_type: InodeOp::Stat }
                    && client_pid == from_pid && p@ == path@),
            },
    {
        match request {
            Err(e) => respond(from_pid, MSG_VFS_STAT_RESPONSE, VfsResponse::Stat(Err(VfsError::InvalidPath(e)))),
            Ok(path) => {
                let key = inode_key(path.as_str());
                one_call(
                    VfsCall::Storage(StorageCall::Read { key }),
                    VfsPendingOp::GetInode { client_pid: from_pid, path, op_type: InodeOp::Stat },
                )
            },
        }
    }

    /// An exists check: ask storage whether the path's inode exists; an
    /// undecodable request is answered "does not exist".
    pub fn handle_exists(&self, from_pid: u32, request: Result<String, String>) -> (step: VfsStep)
        ensures
            match request {
                Err(_) => replies(step, from_pid, MSG_VFS_EXISTS_RESPONSE, VfsResponse::Exists(false)),
                Ok(path) => step matches VfsStep::Start(v) && v@.len() == 1 && is_exists(
                    v@[0].call,
                    "inode:"@ + path@,
                ) && (v@[0].op matches VfsPendingOp::ExistsCheck { client_pid, path: p }
                    && client_pid == from_pid && p@ == path@),
            },
    {
        match request {
            Err(_) => respond(from_pid, MSG_VFS_EXISTS_RESPONSE, VfsResponse::Exists(false)),
            Ok(path) => {
                let key = inode_key(path.as_str());
                one_call(
                    VfsCall::Storage(StorageCall::Exists { key }),
                    VfsPendingOp::ExistsCheck { client_pid: from_pid, path },
                )
            },
        }
    }

    /// A read: first check that the path's inode is a file.
    pub fn handle_read(&self, from_pid: u32, request: Result<String, String>) -> (step: VfsStep)
        ensures
            match request {
                Err(e) => step matches VfsStep::Respond(r) && r.to_pid == from_pid && r.tag
                    == MSG_VFS_READ_RESPONSE && (r.response matches VfsResponse::Read(Err(VfsError::InvalidPath(m)))
                    && m@ == e@),
                Ok(path) => step matches VfsStep::Start(v) && v@.len() == 1 && is_read(
                    v@[0].call,
                    "inode:"@ + path@,
                ) && (v@[0].op matches VfsPendingOp::GetInode { client_pid, path: p, op_type: InodeOp::ReadFile }
                    && client_pid == from_pid && p@ == path@),
            },
    {
        match request {
            Err(e) => respond(from_pid, MSG_VFS_READ_RESPONSE, VfsResponse::Read(Err(VfsError::InvalidPath(e)))),
            Ok(path) => {
                let key = inode_key(path.as_str());
                one_call(
                    VfsCall::Storage(StorageCall::Read { key }),
                    VfsPendingOp::GetInode { client_pid: from_pid, path, op_type: InodeOp::ReadFile },
                )
            },
        }
    }

    /// A write: first check that the parent directory's inode exists.
    pub fn handle_write(&self, from_pid: u32, request: Result<(String, Vec<u8>), String>) -> (step:
        VfsStep)
        ensures
            match request {
                Err(e) => step matches VfsStep::Respond(r) && r.to_pid == from_pid && r.tag
                    == MSG_VFS_WRITE_RESPONSE && (r.response matches VfsResponse::Write(Err(VfsError::InvalidPath(m)))
                    && m@ == e@),
                Ok((path, content)) => step matches VfsStep::Start(v) && v@.len() == 1 && is_read(
                    v@[0].call,
                    "inode:"@ + parent_of(path@),
                ) && (v@[0].op matches VfsPendingOp::GetInode {
                    client_pid,
                    path: p,
                    op_type: InodeOp::WriteFileCheckParent { content: c },
                } && client_pid == from_pid && p@ == path@ && c@ == content@),
            },
    {
        match request {
            Err(e) => respond(from_pid, MSG_VFS_WRITE_RESPONSE, VfsResponse::Write(Err(VfsError::InvalidPath(e)))),
            Ok((path, content)) => {
                let parent = parent_path(path.as_str());
                let key = inode_key(parent.as_str());
                one_call(
                    VfsCall::Storage(StorageCall::Read { key }),
                    VfsPendingOp::GetInode {
                        client_pid: from_pid,
                        path,
                        op_type: InodeOp::WriteFileCheckParent { content },
                    },
                )
            },
        }
    }

    /// A mkdir: first check whether the path already exists.
    pub fn handle_mkdir(&self, from_pid: u32, request: Result<(String, bool), String>) -> (step:
        VfsStep)
        ensures
            match request {
                Err(e) => step matches VfsStep::Respond(r) && r.to_pid == from_pid && r.tag
                    == MSG_VFS_MKDIR_RESPONSE && (r.response matches VfsResponse::Mkdir(Err(VfsError::InvalidPath(m)))
                    && m@ == e@),
                Ok((path, create_parents)) => step matches VfsStep::Start(v) && v@.len() == 1
                    && is_exists(v@[0].call, "inode:"@ + path@) && (v@[0].op matches VfsPendingOp::GetInode {
                    client_pid,
                    path: p,
                    op_type: InodeOp::MkdirCheckParent { create_parents: cp },
                } && client_pid == from_pid && p@ == path@ && cp == create_parents),
            },
    {
        match request {
            Err(e) => respond(from_pid, MSG_VFS_MKDIR_RESPONSE, VfsResponse::Mkdir(Err(VfsError::InvalidPath(e)))),
            Ok((path, create_parents)) => {
                let key = inode_key(path.as_str());
                one_call(
                    VfsCall::Storage(StorageCall::Exists { key }),
                    VfsPendingOp::GetInode {
                        client_pid: from_pid,
                        path,
                        op_type: InodeOp::MkdirCheckParent { create_parents },
                    },
                )
            },
        }
    }

    /// An rmdir: first check that the path's inode is a directory.
    pub fn handle_rmdir(&self, from_pid: u32, request: Result<(String, bool), String>) -> (step:
        VfsStep)
        ensures
            match request {
                Err(e) => step matches VfsStep::Respond(r) && r.to_pid == from_pid && r.tag
                    == MSG_VFS_RMDIR_RESPONSE && (r.response matches VfsResponse::Rmdir(Err(VfsError::InvalidPath(m)))
                    && m@ == e@),
                Ok((path, recursive)) => step matches VfsStep::Start(v) && v@.len() == 1 && is_read(
                    v@[0].call,
                    "inode:"@ + path@,
                ) && (v@[0].op matches VfsPendingOp::GetInode {
                    client_pid,
                    path: p,
                    op_type: InodeOp::Rmdir { recursive: rc },
                } && client_pid == from_pid && p@ == path@ && rc == recursive),
            },
    {
        match request {
            Err(e) => respond(from_pid, MSG_VFS_RMDIR_RESPONSE, VfsResponse::Rmdir(Err(VfsError::InvalidPath(e)))),
            Ok((path, recursive)) => {
                let key = inode_key(path.as_str());
                one_call(
                    VfsCall::Storage(StorageCall::Read { key }),
                    VfsPendingOp::GetInode {
                        client_pid: from_pid,
                        path,
                        op_type: InodeOp::Rmdir { recursive },
                    },
                )
            },
        }
    }

    /// An unlink: first check that the path's inode is a file.
    pub fn handle_unlink(&self, from_pid: u32, request: Result<String, String>) -> (step: VfsStep)
        ensures
            match request {
                Err(e) => step matches VfsStep::Respond(r) && r.to_pid == from_pid && r.tag
                    == MSG_VFS_UNLINK_RESPONSE && (r.response matches VfsResponse::Unlink(Err(VfsError::InvalidPath(m)))
                    && m@ == e@),
                Ok(path) => step matches VfsStep::Start(v) && v@.len() == 1 && is_read(
                    v@[0].call,
                    "inode:"@ + path@,
                ) && (v@[0].op matches VfsPendingOp::GetInode { client_pid, path: p, op_type: InodeOp::Unlink }
                    && client_pid == from_pid && p@ == path@),
            },
    {
        match request {
            Err(e) => respond(from_pid, MSG_VFS_UNLINK_RESPONSE, VfsResponse::Unlink(Err(VfsError::InvalidPath(e)))),
            Ok(path) => {
                let key = inode_key(path.as_str());
                one_call(
                    VfsCall::Storage(StorageCall::Read { key }),
                    VfsPendingOp::GetInode { client_pid: from_pid, path, op_type: InodeOp::Unlink },
                )
            },
        }
    }

    /// A readdir: list the keys under the path's inode key.
    pub fn handle_readdir(&self, from_pid: u32, request: Result<String, String>) -> (step: VfsStep)
        ensures
            match request {
                Err(e) => step matches VfsStep::Respond(r) && r.to_pid == from_pid && r.tag
                    == MSG_VFS_READDIR_RESPONSE && (r.response matches VfsResponse::Readdir(Err(VfsError::InvalidPath(m)))
                    && m@ == e@),
                Ok(path) => step matches VfsStep::Start(v) && v@.len() == 1 && is_list(
                    v@[0].call,
                    "inode:"@ + path@,
                ) && (v@[0].op matches VfsPendingOp::ListChildren { client_pid, path: p }
                    && client_pid == from_pid && p@ == path@),
            },
    {
        match request {
            Err(e) => respond(from_pid, MSG_VFS_READDIR_RESPONSE, VfsResponse::Readdir(Err(VfsError::InvalidPath(e)))),
            Ok(path) => {
                let key = inode_key(path.as_str());
                one_call(
                    VfsCall::Storage(StorageCall::List { prefix: key }),
                    VfsPendingOp::ListChildren { client_pid: from_pid, path },
                )
            },
        }
    }
}

// ============================================================================
// Storage results
// ============================================================================

/// A reply to `pid` with `tag` whose response is `Stat` of the given result.
pub open spec fn stat_reply(step: VfsStep, pid: u32, ok: Option<Seq<u8>>, err: Option<VfsErrorView>) -> bool {
    match step {
        VfsStep::Respond(r) => r.to_pid == pid && r.tag == MSG_VFS_STAT_RESPONSE && match r.response {
            VfsResponse::Stat(Ok(v)) => ok == Some(v@) && err is None,
            VfsResponse::Stat(Err(e)) => ok is None && err == Some(e@),
            _ => false,
        },
        _ => false,
    }
}

/// A reply to `pid` whose response is `Read` of the given result.
pub open spec fn read_reply(step: VfsStep, pid: u32, ok: Option<Seq<u8>>, err: Option<VfsErrorView>) -> bool {
    match step {
        VfsStep::Respond(r) => r.to_pid == pid && r.tag == MSG_VFS_READ_RESPONSE && match r.response {
            VfsResponse::Read(Ok(v)) => ok == Some(v@) && err is None,
            VfsResponse::Read(Err(e)) => ok is None && err == Some(e@),
            _ => false,
        },
        _ => false,
    }
}

/// An error that a storage failure carries: `StorageError` with `m`.
pub open spec fn storage_error(e: VfsError, m: Seq<char>) -> bool {
    e matches VfsError::StorageError(t) && t@ == m
}

/// A reply to `pid` with `tag` carrying `Ok(())` for the operation kind of
/// `tag` when `ok`, and otherwise a storage error with `m`.
pub open spec fn unit_reply(step: VfsStep, pid: u32, tag: u32, ok: bool, m: Seq<char>) -> bool {
    match step {
        VfsStep::Respond(r) => r.to_pid == pid && r.tag == tag && match r.response {
            VfsResponse::Write(res) => tag == MSG_VFS_WRITE_RESPONSE && unit_result(res, ok, m),
            VfsResponse::Mkdir(res) => tag == MSG_VFS_MKDIR_RESPONSE && unit_result(res, ok, m),
            VfsResponse::Rmdir(res) => tag == MSG_VFS_RMDIR_RESPONSE && unit_result(res, ok, m),
            VfsResponse::Unlink(res) => tag == MSG_VFS_UNLINK_RESPONSE && unit_result(res, ok, m),
            _ => false,
        },
        _ => false,
    }
}

/// `Ok(())` when `ok`, else a storage error with `m`.
pub open spec fn unit_result(res: Result<(), VfsError>, ok: bool, m: Seq<char>) -> bool {
    if ok {
        res is Ok
    } else {
        res matches Err(e) && storage_error(e, m)
    }
}

/// A reply to `pid` with `tag` carrying the given error for the operation
/// kind of `tag`.
pub open spec fn error_reply(step: VfsStep, pid: u32, tag: u32, err: VfsErrorView) -> bool {
    match step {
        VfsStep::Respond(r) => r.to_pid == pid && r.tag == tag && match r.response {
            VfsResponse::Write(Err(e)) => tag == MSG_VFS_WRITE_RESPONSE && e@ == err,
            VfsResponse::Mkdir(Err(e)) => tag == MSG_VFS_MKDIR_RESPONSE && e@ == err,
            VfsResponse::Rmdir(Err(e)) => tag == MSG_VFS_RMDIR_RESPONSE && e@ == err,
            VfsResponse::Unlink(Err(e)) => tag == MSG_VFS_UNLINK_RESPONSE && e@ == err,
            VfsResponse::Read(Err(e)) => tag == MSG_VFS_READ_RESPONSE && e@ == err,
            _ => false,
        },
        _ => false,
    }
}

/// The listing of keys: each entry is named after the last segment of its
/// key, and nothing else is known of it.
pub open spec fn entries_of(keys: Seq<Seq<char>>, entries: Seq<DirEntry>) -> bool {
    &&& entries.len() == keys.len()
    &&& forall|i: int|
        0 <= i < keys.len() ==> {
            let e = #[trigger] entries[i];
            &&& e.name@ == last_segment(keys[i])
            &&& e.path@ == keys[i]
            &&& !e.is_directory
            &&& !e.is_symlink
            &&& e.size == 0
            &&& e.modified_at == 0
        }
}

/// Whether an existence check's data says the key exists.
pub open spec fn exists_flag(result_type: u8, data: Seq<u8>) -> bool {
    result_type == EXISTS_OK && data.len() > 0 && data[0] == 1
}

/// How an inode read for `op` on `path` finishes, for client `pid`.
pub open spec fn inode_outcome(
    pid: u32,
    path: Seq<char>,
    op: InodeOp,
    rt: u8,
    data: Seq<u8>,
    inode: Result<InodeKind, String>,
    now: u64,
    step: VfsStep,
) -> bool {
    match op {
        InodeOp::Stat => if rt == READ_OK {
            match inode {
                Ok(_) => stat_reply(step, pid, Some(data), None),
                Err(e) => stat_reply(step, pid, None, Some(VfsErrorView::StorageError(e@))),
            }
        } else if rt == NOT_FOUND {
            stat_reply(step, pid, None, Some(VfsErrorView::NotFound))
        } else {
            step matches VfsStep::Respond(r) && r.to_pid == pid && r.tag == MSG_VFS_STAT_RESPONSE
                && (r.response matches VfsResponse::Stat(Err(e)) && storage_error(e, utf8_lossy(data)))
        },
        InodeOp::Exists => replies(step, pid, MSG_VFS_EXISTS_RESPONSE, VfsResponse::Exists(rt == READ_OK)),
        InodeOp::ReadFile => if rt == READ_OK {
            match inode {
                Ok(InodeKind::File) => step matches VfsStep::Start(v) && v@.len() == 1 && is_read(
                    v@[0].call,
                    "content:"@ + path,
                ) && (v@[0].op matches VfsPendingOp::GetContent { client_pid, path: p } && client_pid == pid
                    && p@ == path),
                Ok(_) => read_reply(step, pid, None, Some(VfsErrorView::NotAFile)),
                Err(e) => read_reply(step, pid, None, Some(VfsErrorView::StorageError(e@))),
            }
        } else if rt == NOT_FOUND {
            read_reply(step, pid, None, Some(VfsErrorView::NotFound))
        } else {
            step matches VfsStep::Respond(r) && r.to_pid == pid && r.tag == MSG_VFS_READ_RESPONSE
                && (r.response matches VfsResponse::Read(Err(e)) && storage_error(e, utf8_lossy(data)))
        },
        InodeOp::MkdirCheckParent { .. } => if exists_flag(rt, data) {
            error_reply(step, pid, MSG_VFS_MKDIR_RESPONSE, VfsErrorView::AlreadyExists)
        } else {
            step matches VfsStep::Start(v) && v@.len() == 1 && is_inode_write(v@[0].call, path, true, 0, now)
                && (v@[0].op matches VfsPendingOp::PutInode { client_pid, response_tag } && client_pid == pid
                && response_tag == MSG_VFS_MKDIR_RESPONSE)
        },
        InodeOp::WriteFileCheckParent { content } => if rt == NOT_FOUND {
            error_reply(step, pid, MSG_VFS_WRITE_RESPONSE, VfsErrorView::NotFound)
        } else {
            step matches VfsStep::Start(v) && v@.len() == 2 && is_inode_write(
                v@[0].call,
                path,
                false,
                content@.len() as u64,
                now,
            ) && (v@[0].op matches VfsPendingOp::PutInode { client_pid, response_tag } && client_pid == 0
                && response_tag == 0) && is_write(v@[1].call, "content:"@ + path, content@) && (
            v@[1].op matches VfsPendingOp::PutContent { client_pid, path: p } && client_pid == pid && p@
                == path)
        },
        InodeOp::Rmdir { .. } => if rt == NOT_FOUND {
            error_reply(step, pid, MSG_VFS_RMDIR_RESPONSE, VfsErrorView::NotFound)
        } else {
            match inode {
                Ok(InodeKind::Directory) => step matches VfsStep::Start(v) && v@.len() == 1 && is_delete(
                    v@[0].call,
                    "inode:"@ + path,
                ) && (v@[0].op matches VfsPendingOp::DeleteInode { client_pid, response_tag }
                    && client_pid == pid && response_tag == MSG_VFS_RMDIR_RESPONSE),
                Ok(_) => error_reply(step, pid, MSG_VFS_RMDIR_RESPONSE, VfsErrorView::NotADirectory),
                Err(e) => error_reply(step, pid, MSG_VFS_RMDIR_RESPONSE, VfsErrorView::StorageError(e@)),
            }
        },
        InodeOp::Unlink => if rt == NOT_FOUND {
            error_reply(step, pid, MSG_VFS_UNLINK_RESPONSE, VfsErrorView::NotFound)
        } else {
            match inode {
                Ok(InodeKind::File) => step matches VfsStep::Start(v) && v@.len() == 2 && is_delete(
                    v@[0].call,
                    "content:"@ + path,
                ) && (v@[0].op matches VfsPendingOp::DeleteContent { client_pid, path: p } && client_pid
                    == 0 && p@ == path) && is_delete(v@[1].call, "inode:"@ + path) && (
                v@[1].op matches VfsPendingOp::DeleteInode { client_pid, response_tag } && client_pid
                    == pid && response_tag == MSG_VFS_UNLINK_RESPONSE),
                Ok(_) => error_reply(step, pid, MSG_VFS_UNLINK_RESPONSE, VfsErrorView::NotAFile),
                Err(e) => error_reply(step, pid, MSG_VFS_UNLINK_RESPONSE, VfsErrorView::StorageError(e@)),
            }
        },
        InodeOp::Readdir => step is Idle,
    }
}

/// How a removed pending operation finishes.
pub open spec fn op_outcome(
    op: VfsPendingOp,
    rt: u8,
    data: Seq<u8>,
    inode: Result<InodeKind, String>,
    now: u64,
    step: VfsStep,
) -> bool {
    match op {
        VfsPendingOp::GetInode { client_pid, path, op_type } => inode_outcome(
            client_pid,
            path@,
            op_type,
            rt,
            data,
            inode,
            now,
            step,
        ),
        VfsPendingOp::GetContent { client_pid, .. } => if rt == READ_OK {
            read_reply(step, client_pid, Some(data), None)
        } else if rt == NOT_FOUND {
            read_reply(step, client_pid, Some(Seq::empty()), None)
        } else {
            step matches VfsStep::Respond(r) && r.to_pid == client_pid && r.tag == MSG_VFS_READ_RESPONSE
                && (r.response matches VfsResponse::Read(Err(e)) && storage_error(e, utf8_lossy(data)))
        },
        VfsPendingOp::PutInode { client_pid, response_tag } => if client_pid == 0 || response_tag
            != MSG_VFS_MKDIR_RESPONSE {
            step is Idle
        } else {
            unit_reply(step, client_pid, MSG_VFS_MKDIR_RESPONSE, rt == WRITE_OK, "Write failed"@)
        },
        VfsPendingOp::PutContent { client_pid, .. } => unit_reply(
            step,
            client_pid,
            MSG_VFS_WRITE_RESPONSE,
            rt == WRITE_OK,
            "Write failed"@,
        ),
        VfsPendingOp::DeleteInode { client_pid, response_tag } => if client_pid == 0 || (response_tag
            != MSG_VFS_RMDIR_RESPONSE && response_tag != MSG_VFS_UNLINK_RESPONSE) {
            step is Idle
        } else {
            unit_reply(step, client_pid, response_tag, rt == WRITE_OK, "Delete failed"@)
        },
        VfsPendingOp::DeleteContent { .. } => step is Idle,
        VfsPendingOp::ListChildren { client_pid, .. } => if rt == LIST_OK {
            match json_string_list(data) {
                Ok(ks) => step matches VfsStep::Respond(r) && r.to_pid == client_pid && r.tag
                    == MSG_VFS_READDIR_RESPONSE && (r.response matches VfsResponse::Readdir(Ok(es))
                    && entries_of(ks, es@)),
                Err(e) => step matches VfsStep::Respond(r) && r.to_pid == client_pid && r.tag
                    == MSG_VFS_READDIR_RESPONSE && (r.response matches VfsResponse::Readdir(Err(x))
                    && x@ == VfsErrorView::StorageError(e)),
            }
        } else {
            step matches VfsStep::Respond(r) && r.to_pid == client_pid && r.tag == MSG_VFS_READDIR_RESPONSE
                && (r.response matches VfsResponse::Readdir(Ok(es)) && es@.len() == 0)
        },
        VfsPendingOp::ExistsCheck { client_pid, .. } => replies(
            step,
            client_pid,
            MSG_VFS_EXISTS_RESPONSE,
            VfsResponse::Exists(exists_flag(rt, data)),
        ),
    }
}

fn handle_stat_inode_result(client_pid: u32, result_type: u8, data: &[u8], inode: &Result<InodeKind, String>) -> (step: VfsStep)
    ensures
        inode_outcome(client_pid, Seq::empty(), InodeOp::Stat, result_type, data@, *inode, 0, step),
{
    let response = if result_type == READ_OK {
        match inode {
            Ok(_) => VfsResponse::Stat(Ok(copy_bytes(data))),
            Err(e) => VfsResponse::Stat(Err(VfsError::StorageError(copy_string(e)))),
        }
    } else if result_type == NOT_FOUND {
        VfsResponse::Stat(Err(VfsError::NotFound))
    } else {
        VfsResponse::Stat(Err(lossy_error(data)))
    };
    VfsStep::Respond(VfsReply { to_pid: client_pid, tag: MSG_VFS_STAT_RESPONSE, response })
}

fn handle_exists_inode_result(client_pid: u32, result_type: u8) -> (step: VfsStep)
    ensures
        replies(step, client_pid, MSG_VFS_EXISTS_RESPONSE, VfsResponse::Exists(result_type == READ_OK)),
{
    respond(client_pid, MSG_VFS_EXISTS_RESPONSE, VfsResponse::Exists(result_type == READ_OK))
}

fn handle_read_file_inode_result(
    client_pid: u32,
    path: &String,
    result_type: u8,
    data: &[u8],
    inode: &Result<InodeKind, String>,
) -> (step: VfsStep)
    ensures
        inode_outcome(client_pid, path@, InodeOp::ReadFile, result_type, data@, *inode, 0, step),
{
    if result_type == READ_OK {
        match inode {
            Ok(InodeKind::File) => one_call(
                VfsCall::Storage(StorageCall::Read { key: content_key(path.as_str()) }),
                VfsPendingOp::GetContent { client_pid, path: copy_string(path) },
            ),
            Ok(_) => respond(client_pid, MSG_VFS_READ_RESPONSE, VfsResponse::Read(Err(VfsError::NotAFile))),
            Err(e) => respond(
                client_pid,
                MSG_VFS_READ_RESPONSE,
                VfsResponse::Read(Err(VfsError::StorageError(copy_string(e)))),
            ),
        }
    } else if result_type == NOT_FOUND {
        respond(client_pid, MSG_VFS_READ_RESPONSE, VfsResponse::Read(Err(VfsError::NotFound)))
    } else {
        respond(client_pid, MSG_VFS_READ_RESPONSE, VfsResponse::Read(Err(lossy_error(data))))
    }
}

fn handle_mkdir_inode_result(
    client_pid: u32,
    path: &String,
    result_type: u8,
    data: &[u8],
    inode: &Result<InodeKind, String>,
    now: u64,
) -> (step: VfsStep)
    ensures
        inode_outcome(
            client_pid,
            path@,
            InodeOp::MkdirCheckParent { create_parents: false },
            result_type,
            data@,
            *inode,
            now,
            step,
        ),
{
    if result_type == EXISTS_OK {
        let exists = data.len() > 0 && data[0] == 1;
        if exists {
            return respond(client_pid, MSG_VFS_MKDIR_RESPONSE, VfsResponse::Mkdir(Err(VfsError::AlreadyExists)));
        }
    }
    let inode = new_inode(path.as_str(), true, 0, now);
    one_call(
        VfsCall::WriteInode { key: inode_key(path.as_str()), inode },
        VfsPendingOp::PutInode { client_pid, response_tag: MSG_VFS_MKDIR_RESPONSE },
    )
}

fn two_calls(c0: VfsCall, o0: VfsPendingOp, c1: VfsCall, o1: VfsPendingOp) -> (step: VfsStep)
    ensures
        step matches VfsStep::Start(v) && v@.len() == 2 && v@[0].call == c0 && v@[0].op == o0
            && v@[1].call == c1 && v@[1].op == o1,
{
    let mut v: Vec<StartCall> = Vec::new();
    v.push(StartCall { call: c0, op: o0 });
    v.push(StartCall { call: c1, op: o1 });
    VfsStep::Start(v)
}

fn handle_write_file_inode_result(
    client_pid: u32,
    path: &String,
    result_type: u8,
    content: Vec<u8>,
    inode: &Result<InodeKind, String>,
    now: u64,
) -> (step: VfsStep)
    ensures
        inode_outcome(
            client_pid,
            path@,
            InodeOp::WriteFileCheckParent { content },
            result_type,
            Seq::empty(),
            *inode,
            now,
            step,
        ),
{
    if result_type == NOT_FOUND {
        return respond(client_pid, MSG_VFS_WRITE_RESPONSE, VfsResponse::Write(Err(VfsError::NotFound)));
    }
    let record = new_inode(path.as_str(), false, content.len() as u64, now);
    let ghost c = content@;
    two_calls(
        VfsCall::WriteInode { key: inode_key(path.as_str()), inode: record },
        VfsPendingOp::PutInode { client_pid: 0, response_tag: 0 },
        VfsCall::Storage(StorageCall::Write { key: content_key(path.as_str()), value: content }),
        VfsPendingOp::PutContent { client_pid, path: copy_string(path) },
    )
}

fn handle_rmdir_inode_result(
    client_pid: u32,
    path: &String,
    result_type: u8,
    inode: &Result<InodeKind, String>,
) -> (step: VfsStep)
    ensures
        inode_outcome(
            client_pid,
            path@,
            InodeOp::Rmdir { recursive: false },
            result_type,
            Seq::empty(),
            *inode,
            0,
            step,
        ),
{
    if result_type == NOT_FOUND {
        return respond(client_pid, MSG_VFS_RMDIR_RESPONSE, VfsResponse::Rmdir(Err(VfsError::NotFound)));
    }
    match inode {
        Ok(InodeKind::Directory) => one_call(
            VfsCall::Storage(StorageCall::Delete { key: inode_key(path.as_str()) }),
            VfsPendingOp::DeleteInode { client_pid, response_tag: MSG_VFS_RMDIR_RESPONSE },
        ),
        Ok(_) => respond(client_pid, MSG_VFS_RMDIR_RESPONSE, VfsResponse::Rmdir(Err(VfsError::NotADirectory))),
        Err(e) => respond(
            client_pid,
            MSG_VFS_RMDIR_RESPONSE,
            VfsResponse::Rmdir(Err(VfsError::StorageError(copy_string(e)))),
        ),
    }
}

fn handle_unlink_inode_result(
    client_pid: u32,
    path: &String,
    result_type: u8,
    inode: &Result<InodeKind, String>,
) -> (step: VfsStep)
    ensures
        inode_outcome(client_pid, path@, InodeOp::Unlink, result_type, Seq::empty(), *inode, 0, step),
{
    if result_type == NOT_FOUND {
        return respond(client_pid, MSG_VFS_UNLINK_RESPONSE, VfsResponse::Unlink(Err(VfsError::NotFound)));
    }
    match inode {
        Ok(InodeKind::File) => two_calls(
            VfsCall::Storage(StorageCall::Delete { key: content_key(path.as_str()) }),
            VfsPendingOp::DeleteContent { client_pid: 0, path: copy_string(path) },
            VfsCall::Storage(StorageCall::Delete { key: inode_key(path.as_str()) }),
            VfsPendingOp::DeleteInode { client_pid, response_tag: MSG_VFS_UNLINK_RESPONSE },
        ),
        Ok(_) => respond(client_pid, MSG_VFS_UNLINK_RESPONSE, VfsResponse::Unlink(Err(VfsError::NotAFile))),
        Err(e) => respond(
            client_pid,
            MSG_VFS_UNLINK_RESPONSE,
            VfsResponse::Unlink(Err(VfsError::StorageError(copy_string(e)))),
        ),
    }
}

fn unit_response(tag: u32, ok: bool, message: &str) -> (r: Result<(), VfsError>)
    ensures
        unit_result(r, ok, message@),
{
    if ok {
        Ok(())
    } else {
        Err(VfsError::StorageError(string_from(message)))
    }
}

fn entries_from_keys(keys: &Vec<String>) -> (entries: Vec<DirEntry>)
    ensures
        entries_of(strings_view(keys@), entries@),
{
    let mut entries: Vec<DirEntry> = Vec::new();
    let mut i: usize = 0;
    while i < keys.len()
        invariant
            i <= keys@.len(),
            entries@.len() == i,
            forall|j: int|
                0 <= j < i ==> {
                    let e = #[trigger] entries@[j];
                    &&& e.name@ == last_segment(keys@[j]@)
                    &&& e.path@ == keys@[j]@
                    &&& !e.is_directory
                    &&& !e.is_symlink
                    &&& e.size == 0
                    &&& e.modified_at == 0
                },
        decreases keys@.len() - i,
    {
        let key = &keys[i];
        entries.push(
            DirEntry {
                name: path_name(key.as_str()),
                path: copy_string(key),
                is_directory: false,
                is_symlink: false,
                size: 0,
                modified_at: 0,
            },
        );
        i = i + 1;
    }
    entries
}

fn finish_op(
    op: VfsPendingOp,
    result_type: u8,
    data: &[u8],
    inode: &Result<InodeKind, String>,
    now: u64,
) -> (step: VfsStep)
    ensures
        op_outcome(op, result_type, data@, *inode, now, step),
{
    match op {
        VfsPendingOp::GetInode { client_pid, path, op_type } => match op_type {
            InodeOp::Stat => handle_stat_inode_result(client_pid, result_type, data, inode),
            InodeOp::Exists => handle_exists_inode_result(client_pid, result_type),
            InodeOp::ReadFile => handle_read_file_inode_result(client_pid, &path, result_type, data, inode),
            InodeOp::MkdirCheckParent { create_parents: _ } => handle_mkdir_inode_result(
                client_pid,
                &path,
                result_type,
                data,
                inode,
                now,
            ),
            InodeOp::WriteFileCheckParent { content } => handle_write_file_inode_result(
                client_pid,
                &path,
                result_type,
                content,
                inode,
                now,
            ),
            InodeOp::Rmdir { recursive: _ } => handle_rmdir_inode_result(client_pid, &path, result_type, inode),
            InodeOp::Unlink => handle_unlink_inode_result(client_pid, &path, result_type, inode),
            InodeOp::Readdir => VfsStep::Idle,
        },
        VfsPendingOp::GetContent { client_pid, path: _ } => {
            let response = if result_type == READ_OK {
                VfsResponse::Read(Ok(copy_bytes(data)))
            } else if result_type == NOT_FOUND {
                VfsResponse::Read(Ok(Vec::new()))
            } else {
                VfsResponse::Read(Err(lossy_error(data)))
            };
            VfsStep::Respond(VfsReply { to_pid: client_pid, tag: MSG_VFS_READ_RESPONSE, response })
        },
        VfsPendingOp::PutInode { client_pid, response_tag } => {
            if client_pid == 0 || response_tag != MSG_VFS_MKDIR_RESPONSE {
                VfsStep::Idle
            } else {
                let r = unit_response(response_tag, result_type == WRITE_OK, "Write failed");
                respond(client_pid, response_tag, VfsResponse::Mkdir(r))
            }
        },
        VfsPendingOp::PutContent { client_pid, path: _ } => {
            let r = unit_response(MSG_VFS_WRITE_RESPONSE, result_type == WRITE_OK, "Write failed");
            respond(client_pid, MSG_VFS_WRITE_RESPONSE, VfsResponse::Write(r))
        },
        VfsPendingOp::DeleteInode { client_pid, response_tag } => {
            if client_pid == 0 {
                VfsStep::Idle
            } else if response_tag == MSG_VFS_RMDIR_RESPONSE {
                let r = unit_response(response_tag, result_type == WRITE_OK, "Delete failed");
                respond(client_pid, response_tag, VfsResponse::Rmdir(r))
            } else if response_tag == MSG_VFS_UNLINK_RESPONSE {
                let r = unit_response(response_tag, result_type == WRITE_OK, "Delete failed");
                respond(client_pid, response_tag, VfsResponse::Unlink(r))
            } else {
                VfsStep::Idle
            }
        },
        VfsPendingOp::DeleteContent { .. } => VfsStep::Idle,
        VfsPendingOp::ListChildren { client_pid, path: _ } => {
            let response = if result_type == LIST_OK {
                match parse_string_list(data) {
                    Ok(ks) => VfsResponse::Readdir(Ok(entries_from_keys(&ks))),
                    Err(e) => VfsResponse::Readdir(Err(VfsError::StorageError(e))),
                }
            } else {
                VfsResponse::Readdir(Ok(Vec::new()))
            };
            VfsStep::Respond(VfsReply { to_pid: client_pid, tag: MSG_VFS_READDIR_RESPONSE, response })
        },
        VfsPendingOp::ExistsCheck { client_pid, path: _ } => {
            let exists = result_type == EXISTS_OK && data.len() > 0 && data[0] == 1;
            respond(client_pid, MSG_VFS_EXISTS_RESPONSE, VfsResponse::Exists(exists))
        },
    }
}

/// A storage result frame `msg` (with the host's decoding of its data as
/// an inode, and the time `now`) takes the service from `s` to `t` with
/// `step`: frames shorter than their header and results nobody awaits
/// change nothing; otherwise the awaiting operation is removed and finished
/// as `op_outcome` says.
pub open spec fn handles_vfs_result(
    s: VfsServiceView,
    msg: Seq<u8>,
    inode: Result<InodeKind, String>,
    now: u64,
    t: VfsServiceView,
    step: VfsStep,
) -> bool {
    &&& t.registered == s.registered
    &&& if msg.len() < 9 {
        t.pending == s.pending && step is Idle
    } else {
        let id = le32_value(msg[0], msg[1], msg[2], msg[3]);
        if !s.pending.contains_key(id) {
            t.pending == s.pending && step is Idle
        } else {
            &&& t.pending == s.pending.remove(id)
            &&& op_outcome(s.pending[id], msg[4], frame_data(msg), inode, now, step)
        }
    }
}

/// Each storage result is acted on once: the same result frame handed over
/// again, with nothing started in between, does nothing.
pub proof fn lemma_vfs_result_acted_on_once(
    s0: VfsServiceView,
    msg: Seq<u8>,
    inode: Result<InodeKind, String>,
    now: u64,
    s1: VfsServiceView,
    step1: VfsStep,
    later: u64,
    s2: VfsServiceView,
    step2: VfsStep,
)
    requires
        handles_vfs_result(s0, msg, inode, now, s1, step1),
        handles_vfs_result(s1, msg, inode, later, s2, step2),
    ensures
        step2 is Idle,
        s2.pending == s1.pending,
{
}

impl VfsService {
    /// A completed storage operation. The host hands over the message,
    /// what it decoded from the frame's data as an inode record (or the
    /// decode error), and the wall-clock time for new inodes. Frames shorter than their header and unknown ids are
    /// ignored; otherwise the pending operation is removed and finished as
    /// `op_outcome` says.
    pub fn handle_storage_result(
        &mut self,
        msg: &crate::app::Message,
        inode: &Result<InodeKind, String>,
        now: u64,
    ) -> (step: VfsStep)
        ensures
            handles_vfs_result(old(self)@, msg.data@, *inode, now, final(self)@, step),
    {
        broadcast use vstd::laws_cmp::group_laws_cmp, vstd::std_specs::btree::group_btree_axioms;

        let frame = match parse_result_frame(msg.data.as_slice()) {
            Some(f) => f,
            None => {
                return VfsStep::Idle;
            },
        };
        let op = match self.pending_ops.remove(&frame.request_id) {
            Some(op) => op,
            None => {
                assert(self.pending_ops@ =~= old(self).pending_ops@);
                return VfsStep::Idle;
            },
        };
        finish_op(op, frame.result_type, frame.data.as_slice(), inode, now)
    }
}

} // verus!
