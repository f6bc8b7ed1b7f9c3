//! The identity service's storage round trips: each storage operation the
//! service awaits, and what its result leads to: an answer to the client,
//! the next storage call, a record for the host to decode, or a hand-over to
//! the flows that derive keys and speak to the ZID server.
//!
//! Records (key stores, machine keys, credentials, ZID tokens) travel in the
//! encoding the host gave them; where an operation needs what a record
//! holds, the host decodes it and the operation goes on with the outcome.

use std::collections::BTreeMap;

use vstd::prelude::*;

use crate::error::AppError;
use crate::identity::{
    json_content_keys, listed_paths, listed_paths_exec, machine_key_reads, machine_read_failure,
    machine_read_kind, storage_read_failure, ZidEnrollReadResult, ZidFailure, ZidLoginReadResult,
};
use crate::service::{
    frame_data, json_string_list, parse_result_frame, storage_failure, storage_key, strings_view,
    failure_text, StorageCall, EXISTS_OK, LIST_OK, READ_OK, WRITE_OK,
};
use crate::crypto::{bytes_to_hex, hex_string};
use crate::text::{decimal, push_decimal, push_str, string_from};
use crate::vfs_service::{
    is_write, last_segment, last_slash, parent_of, parent_path, path_name, vfs_verb, NewInode, VfsCall,
};
use crate::wire::{append_bytes, le32_bytes, le32_value, push_u32_le};

verus! {

// ============================================================================
// Failures, answers, hand-overs
// ============================================================================

/// Why a key operation failed.
#[derive(Clone, Debug)]
pub enum KeyFailure {
    /// The request could not be decoded.
    DerivationFailed,
    /// No identity key is stored for the user.
    IdentityKeyRequired,
    /// No such machine key is stored.
    MachineKeyNotFound,
    /// Fewer shards than a recovery needs.
    InsufficientShards,
    InvalidShard(String),
    /// A neural key is already stored for the user.
    IdentityKeyAlreadyExists,
    /// Generating, deriving or splitting keys failed.
    CryptoError(String),
    /// The shards do not rebuild the stored identity (the check's error).
    Verification(String),
    StorageError(String),
}

/// Why a credential operation failed.
#[derive(Clone, Debug)]
pub enum CredentialFailure {
    /// The request, or the email in it, is malformed.
    InvalidFormat,
    NotFound,
    StorageError(String),
}

/// The answer to a client's request, for the host to encode and send with
/// the request's response tag.
#[derive(Debug)]
pub enum IdentityAnswer {
    /// The generated neural key (its encoding), or why not.
    GenerateNeuralKey(Result<Vec<u8>, KeyFailure>),
    RecoverNeuralKey(Result<Vec<u8>, KeyFailure>),
    /// The stored key store, `None` when there is none.
    GetIdentityKey(Result<Option<Vec<u8>>, KeyFailure>),
    CreateMachineKey(Result<Vec<u8>, KeyFailure>),
    /// The machine-key records that were read and decoded.
    ListMachineKeys(Vec<Vec<u8>>),
    GetMachineKey(Result<Option<Vec<u8>>, KeyFailure>),
    RevokeMachineKey(Result<(), KeyFailure>),
    RotateMachineKey(Result<Vec<u8>, KeyFailure>),
    AttachEmail(Result<(), CredentialFailure>),
    /// The linked credentials, `None` for an empty list.
    GetCredentials(Option<Vec<u8>>),
    UnlinkCredential(Result<(), CredentialFailure>),
    /// The session tokens, or why not.
    ZidLogin(Result<Vec<u8>, ZidFailure>),
    ZidEnroll(Result<Vec<u8>, ZidFailure>),
    /// The new default key scheme was stored, or why not.
    SetDefaultKeyScheme(Result<(), KeyFailure>),
}

/// An answer to `to_pid`, through the first of `cap_slots` when there is one.
#[derive(Debug)]
pub struct IdentityReply {
    pub to_pid: u32,
    pub cap_slots: Vec<u32>,
    pub answer: IdentityAnswer,
}

/// What the host decodes a record into.
#[derive(Clone, Copy, Debug, PartialEq, Eq, Structural)]
pub enum RecordKind {
    /// The whole local key store.
    KeyStore,
    /// The identity signing public key a key store holds.
    IdentityPublicKey,
    /// A machine-key record.
    MachineKey,
    /// The whole credential store.
    CredentialStore,
    /// The linked credentials a credential store holds.
    CredentialList,
}

/// A hand-over to a flow that stands with the host: it derives, rotates or
/// checks keys, edits records, or speaks to the ZID server, and starts the
/// next operation itself.
#[derive(Debug)]
pub enum IdentityFlow {
    /// Generate a neural key, derive the identity key and split the neural
    /// key into shards, and go on with `continue_generate_after_derivation`.
    DeriveNeuralKey { client_pid: u32, user_id: u128, key_path: String, cap_slots: Vec<u32> },
    /// Encode the new neural key's records and go on with
    /// `start_key_store_write`.
    StoreNeuralKey {
        client_pid: u32,
        user_id: u128,
        key_path: String,
        result: NeuralKeyRecord,
        key_store: KeyStoreRecord,
        cap_slots: Vec<u32>,
        recovered: bool,
    },
    /// Recover the neural key from `shards`, checked against the stored key,
    /// and go on with `continue_recover_after_derivation`.
    RecoverAfterIdentityRead {
        client_pid: u32,
        user_id: u128,
        key_path: String,
        shards: Vec<String>,
        identity_public_key: Vec<u8>,
        cap_slots: Vec<u32>,
    },
    /// Encode the new machine key's record and go on with
    /// `start_machine_key_write`.
    StoreMachineKey { client_pid: u32, user_id: u128, record: MachineKeyRecord, cap_slots: Vec<u32> },
    /// Encode the rotated machine key's record and go on with
    /// `start_machine_key_write`.
    StoreRotatedKey { client_pid: u32, user_id: u128, machine_id: u128, record: MachineKeyRecord, cap_slots: Vec<u32> },
    /// Decode the request into its user, shards and `MachineKeyRequest`,
    /// rebuild the neural key from the shards (checked against the stored
    /// identity key), draw a machine id and derive the machine key, and go
    /// on with `continue_create_machine_after_derivation`.
    CreateMachineAfterIdentityRead {
        client_pid: u32,
        request: Vec<u8>,
        identity_public_key: Vec<u8>,
        cap_slots: Vec<u32>,
    },
    /// Decode the stored record `data` into a `MachineKeyRecord`, draw new
    /// seeds and make the new key pair, and go on with
    /// `continue_rotate_after_derivation`.
    RotateAfterRead { client_pid: u32, user_id: u128, machine_id: u128, data: Vec<u8>, cap_slots: Vec<u32> },
    /// Link `email`, adding to the `existing` credential store if any.
    AttachEmailAfterRead {
        client_pid: u32,
        user_id: u128,
        email: String,
        existing: Option<Vec<u8>>,
        cap_slots: Vec<u32>,
    },
    /// Remove the credential of `credential_type` from the store `data`.
    UnlinkAfterRead {
        client_pid: u32,
        user_id: u128,
        credential_type: String,
        data: Vec<u8>,
        cap_slots: Vec<u32>,
    },
    /// Go on with a ZID login after its machine-key lookup.
    ZidLogin(ZidLoginReadResult),
    /// Go on with a ZID enrollment after its machine-key lookup.
    ZidEnroll(ZidEnrollReadResult),
    /// The ZID session's content write ended with `result_type`.
    ZidSessionContentWritten {
        client_pid: u32,
        user_id: u128,
        tokens: Vec<u8>,
        json_bytes: Vec<u8>,
        cap_slots: Vec<u32>,
        result_type: u8,
    },
    /// The identity preferences read ended with `result_type` and `data`.
    PreferencesRead { client_pid: u32, user_id: u128, cap_slots: Vec<u32>, result_type: u8, data: Vec<u8> },
    /// Store `new_key_scheme` in the `existing` preferences (or the defaults).
    UpdatePreferences {
        client_pid: u32,
        user_id: u128,
        existing: Option<Vec<u8>>,
        new_key_scheme: String,
        cap_slots: Vec<u32>,
    },
    /// The preferences' inode write ended with `result_type`.
    PreferencesInodeWritten { client_pid: u32, cap_slots: Vec<u32>, result_type: u8 },
}

/// A storage operation awaiting its result. Paths are the records' storage
/// paths, chosen by the flow that started the operation.
#[derive(Debug)]
pub enum PendingStorageOp {
    CheckIdentityDirectory { client_pid: u32, user_id: u128, key_path: String, cap_slots: Vec<u32> },
    /// Create `directories` in order, then check for the key at `key_path`.
    CreateIdentityDirectory {
        client_pid: u32,
        user_id: u128,
        key_path: String,
        cap_slots: Vec<u32>,
        directories: Vec<String>,
    },
    CheckKeyExists { client_pid: u32, user_id: u128, key_path: String, cap_slots: Vec<u32> },
    WriteKeyStoreContent {
        client_pid: u32,
        user_id: u128,
        path: String,
        result: Vec<u8>,
        json_bytes: Vec<u8>,
        cap_slots: Vec<u32>,
    },
    WriteKeyStoreInode { client_pid: u32, result: Vec<u8>, cap_slots: Vec<u32> },
    GetIdentityKey { client_pid: u32, cap_slots: Vec<u32> },
    /// Read the stored identity (at `key_path`) before recovering from
    /// `shards` (hex).
    ReadIdentityForRecovery {
        client_pid: u32,
        user_id: u128,
        key_path: String,
        shards: Vec<String>,
        cap_slots: Vec<u32>,
    },
    WriteRecoveredKeyStoreContent {
        client_pid: u32,
        user_id: u128,
        path: String,
        result: Vec<u8>,
        json_bytes: Vec<u8>,
        cap_slots: Vec<u32>,
    },
    WriteRecoveredKeyStoreInode { client_pid: u32, result: Vec<u8>, cap_slots: Vec<u32> },
    ReadIdentityForMachine { client_pid: u32, request: Vec<u8>, cap_slots: Vec<u32> },
    WriteMachineKeyContent {
        client_pid: u32,
        user_id: u128,
        path: String,
        record: Vec<u8>,
        json_bytes: Vec<u8>,
        cap_slots: Vec<u32>,
    },
    WriteMachineKeyInode { client_pid: u32, record: Vec<u8>, cap_slots: Vec<u32> },
    ListMachineKeys { client_pid: u32, user_id: u128, cap_slots: Vec<u32> },
    /// Read the records at `remaining_paths` one by one, collecting them.
    ReadMachineKey {
        client_pid: u32,
        user_id: u128,
        remaining_paths: Vec<String>,
        records: Vec<Vec<u8>>,
        cap_slots: Vec<u32>,
    },
    DeleteMachineKey { client_pid: u32, user_id: u128, machine_id: u128, path: String, cap_slots: Vec<u32> },
    DeleteMachineKeyInode { client_pid: u32, cap_slots: Vec<u32> },
    ReadMachineForRotate { client_pid: u32, user_id: u128, machine_id: u128, cap_slots: Vec<u32> },
    WriteRotatedMachineKeyContent {
        client_pid: u32,
        user_id: u128,
        path: String,
        record: Vec<u8>,
        json_bytes: Vec<u8>,
        cap_slots: Vec<u32>,
    },
    WriteRotatedMachineKeyInode { client_pid: u32, record: Vec<u8>, cap_slots: Vec<u32> },
    ReadSingleMachineKey { client_pid: u32, cap_slots: Vec<u32> },
    ReadCredentialsForAttach { client_pid: u32, user_id: u128, email: String, cap_slots: Vec<u32> },
    GetCredentials { client_pid: u32, cap_slots: Vec<u32> },
    ReadCredentialsForUnlink { client_pid: u32, user_id: u128, credential_type: String, cap_slots: Vec<u32> },
    WriteUnlinkedCredentialContent {
        client_pid: u32,
        user_id: u128,
        path: String,
        json_bytes: Vec<u8>,
        cap_slots: Vec<u32>,
    },
    WriteUnlinkedCredentialInode { client_pid: u32, cap_slots: Vec<u32> },
    WriteEmailCredentialContent {
        client_pid: u32,
        user_id: u128,
        path: String,
        json_bytes: Vec<u8>,
        cap_slots: Vec<u32>,
    },
    WriteEmailCredentialInode { client_pid: u32, cap_slots: Vec<u32> },
    ReadMachineKeyForZidLogin { client_pid: u32, user_id: u128, zid_endpoint: String, cap_slots: Vec<u32> },
    WriteZidSessionContent {
        client_pid: u32,
        user_id: u128,
        tokens: Vec<u8>,
        json_bytes: Vec<u8>,
        cap_slots: Vec<u32>,
    },
    WriteZidSessionInode { client_pid: u32, tokens: Vec<u8>, cap_slots: Vec<u32> },
    ReadMachineKeyForZidEnroll { client_pid: u32, user_id: u128, zid_endpoint: String, cap_slots: Vec<u32> },
    WriteZidEnrollSessionContent {
        client_pid: u32,
        user_id: u128,
        tokens: Vec<u8>,
        json_bytes: Vec<u8>,
        cap_slots: Vec<u32>,
    },
    WriteZidEnrollSessionInode { client_pid: u32, tokens: Vec<u8>, cap_slots: Vec<u32> },
    ReadIdentityPreferences { client_pid: u32, user_id: u128, cap_slots: Vec<u32> },
    ReadPreferencesForUpdate { client_pid: u32, user_id: u128, new_key_scheme: String, cap_slots: Vec<u32> },
    WritePreferencesContent {
        client_pid: u32,
        user_id: u128,
        path: String,
        json_bytes: Vec<u8>,
        cap_slots: Vec<u32>,
    },
    WritePreferencesInode { client_pid: u32, cap_slots: Vec<u32> },
}

/// What the host does next.
#[derive(Debug)]
pub enum IdentityStep {
    /// Nothing: a frame too short to read, or a result nobody awaits.
    Idle,
    Reply(IdentityReply),
    /// Start `call`; `op` awaits its result.
    Start { call: VfsCall, op: PendingStorageOp },
    /// Decode `data` as `kind` and hand the outcome to `dispatch_decoded`
    /// together with `op`.
    Decode { kind: RecordKind, data: Vec<u8>, op: PendingStorageOp },
    Continue(IdentityFlow),
}

// ============================================================================
// Spec helpers
// ============================================================================

/// An answer to `pid` through `slots` that the predicate accepts.
pub open spec fn answers(step: IdentityStep, pid: u32, slots: Vec<u32>, ok: spec_fn(IdentityAnswer) -> bool) -> bool {
    step matches IdentityStep::Reply(r) && r.to_pid == pid && r.cap_slots == slots && ok(r.answer)
}

/// A storage error carrying `m`.
pub open spec fn key_error(e: KeyFailure, m: Seq<char>) -> bool {
    e matches KeyFailure::StorageError(t) && t@ == m
}

/// A credential storage error carrying `m`.
pub open spec fn credential_error(e: CredentialFailure, m: Seq<char>) -> bool {
    e matches CredentialFailure::StorageError(t) && t@ == m
}

/// A call the predicate accepts, awaited by `op`.
pub open spec fn starts(step: IdentityStep, c: spec_fn(VfsCall) -> bool, op: PendingStorageOp) -> bool {
    step matches IdentityStep::Start { call, op: o } && c(call) && o == op
}

/// The write of the inode of `path` owned by `owner`: a directory, or a
/// file of `size` bytes, created at `now`.
pub open spec fn owned_inode_write(c: VfsCall, path: Seq<char>, owner: u128, is_directory: bool, size: int, now: u64) -> bool {
    c matches VfsCall::WriteInode { key, inode } && key@ == "inode:"@ + path && inode.path@ == path
        && inode.parent@ == parent_of(path) && inode.name@ == last_segment(path) && inode.owner
        == Some(owner) && inode.is_directory == is_directory && inode.size == size && inode.now
        == now
}

/// A storage call of the given kind on `key`.
pub open spec fn is_storage(c: VfsCall, verb: Seq<char>, key: Seq<char>) -> bool {
    c matches VfsCall::Storage(s) && match s {
        StorageCall::Read { key: k } => verb == "read"@ && k@ == key,
        StorageCall::Delete { key: k } => verb == "delete"@ && k@ == key,
        StorageCall::Exists { key: k } => verb == "exists"@ && k@ == key,
        StorageCall::List { prefix: k } => verb == "list"@ && k@ == key,
        StorageCall::Write { .. } => false,
    }
}

/// After a record's content write: on success, write its file inode (of
/// `size` bytes, owned by `owner`) and await `next`; otherwise answer as
/// `failed` says.
pub open spec fn content_then_inode(
    step: IdentityStep,
    result_type: u8,
    path: Seq<char>,
    owner: u128,
    size: int,
    now: u64,
    next: PendingStorageOp,
    pid: u32,
    slots: Vec<u32>,
    failed: spec_fn(IdentityAnswer) -> bool,
) -> bool {
    if result_type == WRITE_OK {
        starts(step, |c: VfsCall| owned_inode_write(c, path, owner, false, size, now), next)
    } else {
        answers(step, pid, slots, failed)
    }
}

/// After a final write: answer as `done` says on success, as `failed`
/// says otherwise.
pub open spec fn final_write(
    step: IdentityStep,
    result_type: u8,
    pid: u32,
    slots: Vec<u32>,
    done: spec_fn(IdentityAnswer) -> bool,
    failed: spec_fn(IdentityAnswer) -> bool,
) -> bool {
    answers(step, pid, slots, if result_type == WRITE_OK { done } else { failed })
}

/// Whether an existence check found the key.
pub open spec fn found(result_type: u8, data: Seq<u8>) -> bool {
    result_type == EXISTS_OK && data.len() > 0 && data[0] == 1
}

/// Whether a read returned some data.
pub open spec fn read_some(result_type: u8, data: Seq<u8>) -> bool {
    result_type == READ_OK && data.len() > 0
}

/// `/home/<user id in decimal>` followed by `rest`.
pub open spec fn home_path(user_id: u128, rest: Seq<char>) -> Seq<char> {
    "/home/"@ + decimal(user_id as nat) + rest
}

/// The directories a new identity needs, in the order they are created.
pub open spec fn identity_directories_spec(user_id: u128) -> Seq<Seq<char>> {
    seq![
        home_path(user_id, ""@),
        home_path(user_id, "/.zos"@),
        home_path(user_id, "/.zos/identity"@),
        home_path(user_id, "/.zos/identity/machine"@),
    ]
}

/// The machine-key records to read after a listing: the content keys of
/// its JSON paths; none when the listing failed or did not parse.
pub open spec fn listed_machine_keys(result_type: u8, data: Seq<u8>) -> Seq<Seq<char>> {
    if result_type == LIST_OK {
        match json_string_list(data) {
            Ok(ps) => json_content_keys(ps),
            Err(_) => Seq::empty(),
        }
    } else {
        Seq::empty()
    }
}

/// After a listing: read the first listed record, awaiting the rest, or
/// answer with no keys when none is listed.
pub open spec fn lists_machine_keys(step: IdentityStep, client_pid: u32, user_id: u128, cap_slots: Vec<u32>, result_type: u8, data: Seq<u8>) -> bool {
    let keys = listed_machine_keys(result_type, data);
    if keys.len() == 0 {
        answers(
            step,
            client_pid,
            cap_slots,
            |a: IdentityAnswer| a matches IdentityAnswer::ListMachineKeys(v) && v@.len() == 0,
        )
    } else {
        step matches IdentityStep::Start { call, op } && is_storage(call, "read"@, keys[0]) && (
        op matches PendingStorageOp::ReadMachineKey {
            client_pid: p,
            user_id: u,
            remaining_paths,
            records,
            cap_slots: c,
        } && p == client_pid && u == user_id && c == cap_slots && strings_view(remaining_paths@)
            == keys.drop_first() && records@.len() == 0)
    }
}

/// After one record read: `record` joins the collected ones when present;
/// then the next path is read, or the records are the answer.
pub open spec fn reads_machine_keys(
    step: IdentityStep,
    client_pid: u32,
    user_id: u128,
    remaining_paths: Vec<String>,
    records: Vec<Vec<u8>>,
    cap_slots: Vec<u32>,
    record: Option<Vec<u8>>,
) -> bool {
    let kept = match record {
        Some(x) => records@.push(x),
        None => records@,
    };
    if remaining_paths@.len() == 0 {
        answers(
            step,
            client_pid,
            cap_slots,
            |a: IdentityAnswer| a matches IdentityAnswer::ListMachineKeys(v) && v@ == kept,
        )
    } else {
        step matches IdentityStep::Start { call, op } && is_storage(call, "read"@, remaining_paths@[0]@) && (
        op matches PendingStorageOp::ReadMachineKey {
            client_pid: p,
            user_id: u,
            remaining_paths: rest,
            records: rs,
            cap_slots: c,
        } && p == client_pid && u == user_id && c == cap_slots && rest@ == remaining_paths@.drop_first()
            && rs@ == kept)
    }
}

/// After a machine key's content delete: delete its inode, or answer with
/// the failure.
pub open spec fn deletes_machine_key(step: IdentityStep, client_pid: u32, path: String, cap_slots: Vec<u32>, result_type: u8) -> bool {
    if result_type == WRITE_OK {
        starts(
            step,
            |c: VfsCall| is_storage(c, "delete"@, "inode:"@ + path@),
            (PendingStorageOp::DeleteMachineKeyInode { client_pid, cap_slots }),
        )
    } else {
        answers(
            step,
            client_pid,
            cap_slots,
            |a: IdentityAnswer| a matches IdentityAnswer::RevokeMachineKey(Err(e)) && key_error(e, "Delete failed"@),
        )
    }
}

// ============================================================================
// Building blocks
// ============================================================================

fn reply(to_pid: u32, cap_slots: Vec<u32>, answer: IdentityAnswer) -> (step: IdentityStep)
    ensures
        step matches IdentityStep::Reply(r) && r.to_pid == to_pid && r.cap_slots == cap_slots
            && r.answer == answer,
{
    IdentityStep::Reply(IdentityReply { to_pid, cap_slots, answer })
}

fn key_storage_error(m: &str) -> (e: KeyFailure)
    ensures
        key_error(e, m@),
{
    KeyFailure::StorageError(string_from(m))
}

fn credential_storage_error(m: &str) -> (e: CredentialFailure)
    ensures
        credential_error(e, m@),
{
    CredentialFailure::StorageError(string_from(m))
}

fn owned_inode(path: &str, owner: u128, is_directory: bool, size: u64, now: u64) -> (c: VfsCall)
    ensures
        owned_inode_write(c, path@, owner, is_directory, size as int, now),
{
    let inode = NewInode {
        path: string_from(path),
        parent: parent_path(path),
        name: path_name(path),
        owner: Some(owner),
        is_directory,
        size,
        now,
    };
    VfsCall::WriteInode { key: storage_key("inode:", path), inode }
}

fn file_inode(path: &str, owner: u128, content: &Vec<u8>, now: u64) -> (c: VfsCall)
    ensures
        owned_inode_write(c, path@, owner, false, content@.len() as int, now),
{
    owned_inode(path, owner, false, content.len() as u64, now)
}

fn copy_bytes(b: &[u8]) -> (c: Vec<u8>)
    ensures
        c@ == b@,
{
    let mut c: Vec<u8> = Vec::new();
    append_bytes(&mut c, b);
    c
}

fn home(user_id: u128, rest: &str) -> (p: String)
    ensures
        p@ == home_path(user_id, rest@),
{
    let mut p = string_from("/home/");
    push_decimal(&mut p, user_id);
    push_str(&mut p, rest);
    p
}

/// The directories a new identity needs (see `identity_directories_spec`).
pub fn identity_directories(user_id: u128) -> (dirs: Vec<String>)
    ensures
        dirs@.len() == 4,
        strings_view(dirs@) == identity_directories_spec(user_id),
{
    let mut dirs: Vec<String> = Vec::new();
    dirs.push(home(user_id, ""));
    dirs.push(home(user_id, "/.zos"));
    dirs.push(home(user_id, "/.zos/identity"));
    dirs.push(home(user_id, "/.zos/identity/machine"));
    assert(strings_view(dirs@) =~= identity_directories_spec(user_id));
    dirs
}

// ============================================================================
// Creating the identity's directories
// ============================================================================

/// The existence check of the key store at `key_path`, awaited for `client_pid`.
pub open spec fn checks_key(step: IdentityStep, client_pid: u32, user_id: u128, key_path: String, cap_slots: Vec<u32>) -> bool {
    starts(
        step,
        |c: VfsCall| is_storage(c, "exists"@, "inode:"@ + key_path@),
        (PendingStorageOp::CheckKeyExists { client_pid, user_id, key_path, cap_slots }),
    )
}

/// The creation of the first of `directories` (a directory inode owned by
/// the user), awaiting the creation of the rest.
pub open spec fn creates_directory(
    step: IdentityStep,
    client_pid: u32,
    user_id: u128,
    key_path: String,
    cap_slots: Vec<u32>,
    directories: Seq<Seq<char>>,
    now: u64,
) -> bool {
    step matches IdentityStep::Start { call, op } && owned_inode_write(call, directories[0], user_id, true, 0, now)
        && (op matches PendingStorageOp::CreateIdentityDirectory {
        client_pid: p,
        user_id: u,
        key_path: k,
        cap_slots: c,
        directories: rest,
    } && p == client_pid && u == user_id && k == key_path && c == cap_slots && strings_view(rest@)
        == directories.drop_first())
}

fn check_key(client_pid: u32, user_id: u128, key_path: String, cap_slots: Vec<u32>) -> (step: IdentityStep)
    ensures
        checks_key(step, client_pid, user_id, key_path, cap_slots),
{
    let key = storage_key("inode:", key_path.as_str());
    IdentityStep::Start {
        call: VfsCall::Storage(StorageCall::Exists { key }),
        op: PendingStorageOp::CheckKeyExists { client_pid, user_id, key_path, cap_slots },
    }
}

/// Create the identity's directories one by one; when none is left, check
/// whether the key store exists.
pub fn continue_create_directories(
    client_pid: u32,
    user_id: u128,
    key_path: String,
    directories: Vec<String>,
    cap_slots: Vec<u32>,
    now: u64,
) -> (step: IdentityStep)
    ensures
        directories@.len() == 0 ==> checks_key(step, client_pid, user_id, key_path, cap_slots),
        directories@.len() > 0 ==> creates_directory(
            step,
            client_pid,
            user_id,
            key_path,
            cap_slots,
            strings_view(directories@),
            now,
        ),
{
    if directories.len() == 0 {
        return check_key(client_pid, user_id, key_path, cap_slots);
    }
    let mut rest = directories;
    let dir = rest.remove(0);
    assert(strings_view(rest@) =~= strings_view(directories@).drop_first());
    let call = owned_inode(dir.as_str(), user_id, true, 0, now);
    IdentityStep::Start {
        call,
        op: PendingStorageOp::CreateIdentityDirectory { client_pid, user_id, key_path, cap_slots, directories: rest },
    }
}

/// After checking for the identity directory: when it exists, check for the
/// key store; otherwise create the directories first.
pub fn continue_generate_after_directory_check(
    client_pid: u32,
    user_id: u128,
    key_path: String,
    exists: bool,
    cap_slots: Vec<u32>,
    now: u64,
) -> (step: IdentityStep)
    ensures
        exists ==> checks_key(step, client_pid, user_id, key_path, cap_slots),
        !exists ==> creates_directory(
            step,
            client_pid,
            user_id,
            key_path,
            cap_slots,
            identity_directories_spec(user_id),
            now,
        ),
{
    if exists {
        check_key(client_pid, user_id, key_path, cap_slots)
    } else {
        let dirs = identity_directories(user_id);
        continue_create_directories(client_pid, user_id, key_path, dirs, cap_slots, now)
    }
}

/// A request to generate a neural key, decoded by the host into the user
/// and that user's key-store path: check for the identity directory first.
/// A request that does not decode is refused.
pub fn start_generate_neural_key(from_pid: u32, cap_slots: Vec<u32>, request: Option<(u128, String)>) -> (step: IdentityStep)
    ensures
        match request {
            None => answers(
                step,
                from_pid,
                cap_slots,
                |a: IdentityAnswer| a matches IdentityAnswer::GenerateNeuralKey(Err(KeyFailure::DerivationFailed)),
            ),
            Some((user_id, key_path)) => starts(
                step,
                |c: VfsCall| is_storage(c, "exists"@, "inode:"@ + home_path(user_id, "/.zos/identity"@)),
                (PendingStorageOp::CheckIdentityDirectory { client_pid: from_pid, user_id, key_path, cap_slots }),
            ),
        },
{
    match request {
        None => reply(from_pid, cap_slots, IdentityAnswer::GenerateNeuralKey(Err(KeyFailure::DerivationFailed))),
        Some((user_id, key_path)) => {
            let dir = home(user_id, "/.zos/identity");
            let key = storage_key("inode:", dir.as_str());
            IdentityStep::Start {
                call: VfsCall::Storage(StorageCall::Exists { key }),
                op: PendingStorageOp::CheckIdentityDirectory { client_pid: from_pid, user_id, key_path, cap_slots },
            }
        },
    }
}

/// A request to list a user's machine keys (the user, as the host decoded
/// it): list the machine-key directory. A request that does not decode is
/// answered with no keys.
pub fn start_list_machine_keys(from_pid: u32, cap_slots: Vec<u32>, request: Option<u128>) -> (step: IdentityStep)
    ensures
        match request {
            None => answers(
                step,
                from_pid,
                cap_slots,
                |a: IdentityAnswer| a matches IdentityAnswer::ListMachineKeys(v) && v@.len() == 0,
            ),
            Some(user_id) => starts(
                step,
                |c: VfsCall| is_storage(c, "list"@, "inode:"@ + home_path(user_id, "/.zos/identity/machine"@)),
                (PendingStorageOp::ListMachineKeys { client_pid: from_pid, user_id, cap_slots }),
            ),
        },
{
    match request {
        None => reply(from_pid, cap_slots, IdentityAnswer::ListMachineKeys(Vec::new())),
        Some(user_id) => {
            let dir = home(user_id, "/.zos/identity/machine");
            let prefix = storage_key("inode:", dir.as_str());
            IdentityStep::Start {
                call: VfsCall::Storage(StorageCall::List { prefix }),
                op: PendingStorageOp::ListMachineKeys { client_pid: from_pid, user_id, cap_slots },
            }
        },
    }
}

// ============================================================================
// Email credentials and the ZID flows' first step
// ============================================================================

/// Whether an email is well formed enough to submit: it holds an '@' and at
/// least five bytes.
pub open spec fn email_format_ok(email: Seq<char>) -> bool {
    email.contains('@') && vstd::utf8::encode_utf8(email).len() >= 5
}

/// Whether a password is long enough to submit: at least twelve bytes.
pub open spec fn password_ok(password: Seq<char>) -> bool {
    vstd::utf8::encode_utf8(password).len() >= 12
}

/// Check an email credential before it is submitted to the ZID server: a
/// malformed email is an invalid format; a short password a storage error
/// that says so.
pub fn check_attach_email(email: &str, password: &str) -> (r: Result<(), CredentialFailure>)
    ensures
        r is Ok <==> email_format_ok(email@) && password_ok(password@),
        !email_format_ok(email@) ==> r matches Err(CredentialFailure::InvalidFormat),
        email_format_ok(email@) && !password_ok(password@) ==> (r matches Err(e) && credential_error(
            e,
            "Password must be at least 12 characters"@,
        )),
{
    let cs = crate::text::chars_of(email);
    let has_at = crate::words::contains_char(cs.as_slice(), '@');
    if !has_at || email.as_bytes().len() < 5 {
        return Err(CredentialFailure::InvalidFormat);
    }
    if password.as_bytes().len() < 12 {
        return Err(credential_storage_error("Password must be at least 12 characters"));
    }
    Ok(())
}

/// The fields of a ZID login or enrollment request.
#[derive(Clone, Debug)]
pub struct ZidRequestFields {
    pub user_id: u128,
    pub zid_endpoint: String,
}

/// The first step of a ZID login (`enroll` false) or enrollment (`enroll`
/// true): a request that does not parse (`Err` with the parser's message)
/// is answered with the network error "Invalid request: <message>";
/// otherwise the user's machine-key directory is listed.
pub open spec fn zid_start_spec(
    step: IdentityStep,
    enroll: bool,
    client_pid: u32,
    cap_slots: Vec<u32>,
    request: Result<ZidRequestFields, String>,
) -> bool {
    match request {
        Err(e) => answers(
            step,
            client_pid,
            cap_slots,
            |a: IdentityAnswer| {
                let bad = |r: Result<Vec<u8>, ZidFailure>|
                    r matches Err(ZidFailure::NetworkError(m)) && m@ == "Invalid request: "@ + e@;
                if enroll {
                    a matches IdentityAnswer::ZidEnroll(r) && bad(r)
                } else {
                    a matches IdentityAnswer::ZidLogin(r) && bad(r)
                }
            },
        ),
        Ok(r) => step matches IdentityStep::Start { call, op } && is_storage(
            call,
            "list"@,
            crate::identity::zid_machine_dir_spec(r.user_id),
        ) && if enroll {
            op matches PendingStorageOp::ReadMachineKeyForZidEnroll { client_pid: p, user_id: u, zid_endpoint: z, cap_slots: c }
                && p == client_pid && u == r.user_id && z@ == r.zid_endpoint@ && c == cap_slots
        } else {
            op matches PendingStorageOp::ReadMachineKeyForZidLogin { client_pid: p, user_id: u, zid_endpoint: z, cap_slots: c }
                && p == client_pid && u == r.user_id && z@ == r.zid_endpoint@ && c == cap_slots
        },
    }
}

/// Begin a ZID login (`enroll` false) or a machine enrollment (`enroll`
/// true) (see `zid_start_spec`).
pub fn start_zid_flow(
    enroll: bool,
    client_pid: u32,
    cap_slots: Vec<u32>,
    request: Result<ZidRequestFields, String>,
) -> (step: IdentityStep)
    ensures
        zid_start_spec(step, enroll, client_pid, cap_slots, request),
{
    match request {
        Err(e) => {
            let mut m = string_from("Invalid request: ");
            push_str(&mut m, e.as_str());
            let failure = Err(ZidFailure::NetworkError(m));
            let answer = if enroll {
                IdentityAnswer::ZidEnroll(failure)
            } else {
                IdentityAnswer::ZidLogin(failure)
            };
            reply(client_pid, cap_slots, answer)
        },
        Ok(r) => {
            let prefix = crate::identity::zid_machine_dir(r.user_id);
            let op = if enroll {
                PendingStorageOp::ReadMachineKeyForZidEnroll {
                    client_pid,
                    user_id: r.user_id,
                    zid_endpoint: r.zid_endpoint,
                    cap_slots,
                }
            } else {
                PendingStorageOp::ReadMachineKeyForZidLogin {
                    client_pid,
                    user_id: r.user_id,
                    zid_endpoint: r.zid_endpoint,
                    cap_slots,
                }
            };
            IdentityStep::Start { call: VfsCall::Storage(StorageCall::List { prefix }), op }
        },
    }
}

// ============================================================================
// Generating and recovering the neural key
// ============================================================================

/// One shard of a neural key as the client receives it: its position,
/// counting from 1, and its hex form.
#[derive(Clone, Debug)]
pub struct NeuralShardRecord {
    pub index: u8,
    pub hex: String,
}

/// A new (or recovered) neural key as the client receives it: the public
/// keys as `0x` and hex, the shards, and when it was made.
#[derive(Clone, Debug)]
pub struct NeuralKeyRecord {
    pub identity_signing_pub_key: String,
    pub machine_signing_pub_key: String,
    pub machine_encryption_pub_key: String,
    pub shards: Vec<NeuralShardRecord>,
    pub created_at: u64,
}

/// The local key store as it is written: the user's identity signing key,
/// and zeros in place of machine keys (those are made per machine).
#[derive(Clone, Copy, Debug)]
pub struct KeyStoreRecord {
    pub user_id: u128,
    pub identity_signing_public_key: [u8; 32],
    pub machine_signing_public_key: [u8; 32],
    pub machine_encryption_public_key: [u8; 32],
    pub created_at: u64,
}

/// What the key derivations gave: the identity signing public key and the
/// neural key's shards (hex), in order.
#[derive(Clone, Debug)]
pub struct DerivedIdentity {
    pub identity_signing_public_key: [u8; 32],
    pub shards: Vec<String>,
}

/// Where the key derivations failed, with the error's text.
#[derive(Clone, Debug)]
pub enum DerivationFailure {
    /// The shards do not rebuild the stored identity.
    Verification(String),
    /// Generating a neural key failed.
    Generate(String),
    /// Deriving the identity signing key failed.
    Derive(String),
    /// Splitting the neural key into shards failed.
    Split(String),
}

/// `0x` followed by the key's bytes in hex.
pub open spec fn hex_key(k: Seq<u8>) -> Seq<char> {
    "0x"@ + hex_string(k)
}

/// Thirty-two zero bytes.
pub open spec fn zero_key() -> Seq<u8> {
    Seq::new(32, |i: int| 0u8)
}

/// The shards numbered from 1, in order.
pub open spec fn numbered_shards(hexes: Seq<String>, records: Seq<NeuralShardRecord>) -> bool {
    records.len() == hexes.len() && forall|i: int|
        0 <= i < records.len() ==> #[trigger] records[i].index == (i + 1) as u8 && records[i].hex@ == hexes[i]@
}

/// The records of a neural key derived as `d` for `user_id` at `created_at`.
pub open spec fn neural_key_records_spec(user_id: u128, d: DerivedIdentity, created_at: u64, r: NeuralKeyRecord, k: KeyStoreRecord) -> bool {
    &&& r.identity_signing_pub_key@ == hex_key(d.identity_signing_public_key@)
    &&& r.machine_signing_pub_key@ == hex_key(zero_key())
    &&& r.machine_encryption_pub_key@ == hex_key(zero_key())
    &&& numbered_shards(d.shards@, r.shards@)
    &&& r.created_at == created_at
    &&& k.user_id == user_id
    &&& k.identity_signing_public_key == d.identity_signing_public_key
    &&& k.machine_signing_public_key@ == zero_key()
    &&& k.machine_encryption_public_key@ == zero_key()
    &&& k.created_at == created_at
}

fn hex_key_text(k: &[u8; 32]) -> (s: String)
    ensures
        s@ == hex_key(k@),
{
    let mut s = string_from("0x");
    let h = bytes_to_hex(k);
    push_str(&mut s, h.as_str());
    s
}

/// The records of a derived neural key (see `neural_key_records_spec`).
pub fn neural_key_records(user_id: u128, derived: &DerivedIdentity, created_at: u64) -> (r: (NeuralKeyRecord, KeyStoreRecord))
    ensures
        neural_key_records_spec(user_id, *derived, created_at, r.0, r.1),
{
    let zeros: [u8; 32] = [0u8; 32];
    assert(zeros@ =~= zero_key());
    let mut shards: Vec<NeuralShardRecord> = Vec::new();
    let mut i: usize = 0;
    while i < derived.shards.len()
        invariant
            i <= derived.shards@.len(),
            shards@.len() == i,
            forall|j: int|
                0 <= j < i ==> #[trigger] shards@[j].index == (j + 1) as u8 && shards@[j].hex@
                    == derived.shards@[j]@,
        decreases derived.shards@.len() - i,
    {
        let index: u8 = ((i as u64 + 1) % 256) as u8;
        assert(index == (i + 1) as u8) by (bit_vector)
            requires
                index == ((i as u64 + 1) % 256) as u8,
                i < 0xffff_ffff_ffff_ffffu64,
        ;
        shards.push(NeuralShardRecord { index, hex: string_from(derived.shards[i].as_str()) });
        i = i + 1;
    }
    let record = NeuralKeyRecord {
        identity_signing_pub_key: hex_key_text(&derived.identity_signing_public_key),
        machine_signing_pub_key: hex_key_text(&zeros),
        machine_encryption_pub_key: hex_key_text(&zeros),
        shards,
        created_at,
    };
    let store = KeyStoreRecord {
        user_id,
        identity_signing_public_key: derived.identity_signing_public_key,
        machine_signing_public_key: zeros,
        machine_encryption_public_key: zeros,
        created_at,
    };
    (record, store)
}

/// After the key-store check: refuse when a neural key exists; otherwise
/// the keys are to be derived.
pub open spec fn generates_unless_exists(
    step: IdentityStep,
    client_pid: u32,
    user_id: u128,
    key_path: String,
    exists: bool,
    cap_slots: Vec<u32>,
) -> bool {
    if exists {
        answers(
            step,
            client_pid,
            cap_slots,
            |a: IdentityAnswer| a matches IdentityAnswer::GenerateNeuralKey(Err(KeyFailure::IdentityKeyAlreadyExists)),
        )
    } else {
        step == IdentityStep::Continue(IdentityFlow::DeriveNeuralKey { client_pid, user_id, key_path, cap_slots })
    }
}

/// After checking for a stored neural key (see `generates_unless_exists`).
pub fn continue_generate_after_exists_check(
    client_pid: u32,
    user_id: u128,
    key_path: String,
    exists: bool,
    cap_slots: Vec<u32>,
) -> (step: IdentityStep)
    ensures
        generates_unless_exists(step, client_pid, user_id, key_path, exists, cap_slots),
{
    if exists {
        reply(client_pid, cap_slots, IdentityAnswer::GenerateNeuralKey(Err(KeyFailure::IdentityKeyAlreadyExists)))
    } else {
        IdentityStep::Continue(IdentityFlow::DeriveNeuralKey { client_pid, user_id, key_path, cap_slots })
    }
}

/// The error a failed derivation is answered with; `during` names the
/// operation ("generation" or "recovery").
pub open spec fn derivation_error(f: DerivationFailure, during: Seq<char>, e: KeyFailure) -> bool {
    match f {
        DerivationFailure::Verification(m) => e matches KeyFailure::Verification(t) && t@ == m@,
        DerivationFailure::Generate(m) => e matches KeyFailure::CryptoError(t) && t@ == "Neural Key generation failed: "@
            + m@,
        DerivationFailure::Derive(m) => e matches KeyFailure::CryptoError(t) && t@
            == "Identity key derivation failed during "@ + during + ": "@ + m@,
        DerivationFailure::Split(m) => e matches KeyFailure::CryptoError(t) && t@ == "Shamir split failed: "@ + m@,
    }
}

fn derivation_failure(f: DerivationFailure, during: &str) -> (e: KeyFailure)
    ensures
        derivation_error(f, during@, e),
{
    match f {
        DerivationFailure::Verification(m) => KeyFailure::Verification(m),
        DerivationFailure::Generate(m) => {
            let mut t = string_from("Neural Key generation failed: ");
            push_str(&mut t, m.as_str());
            KeyFailure::CryptoError(t)
        },
        DerivationFailure::Derive(m) => {
            let mut t = string_from("Identity key derivation failed during ");
            push_str(&mut t, during);
            push_str(&mut t, ": ");
            push_str(&mut t, m.as_str());
            KeyFailure::CryptoError(t)
        },
        DerivationFailure::Split(m) => {
            let mut t = string_from("Shamir split failed: ");
            push_str(&mut t, m.as_str());
            KeyFailure::CryptoError(t)
        },
    }
}

/// After the derivations for a new (`recovered` false) or recovered neural
/// key: a failure is answered; otherwise the records are to be encoded and
/// stored.
pub open spec fn derived_outcome(
    step: IdentityStep,
    client_pid: u32,
    user_id: u128,
    key_path: String,
    cap_slots: Vec<u32>,
    derivation: Result<DerivedIdentity, DerivationFailure>,
    created_at: u64,
    recovered: bool,
) -> bool {
    match derivation {
        Err(f) => answers(
            step,
            client_pid,
            cap_slots,
            |a: IdentityAnswer| if recovered {
                a matches IdentityAnswer::RecoverNeuralKey(Err(e)) && derivation_error(f, "recovery"@, e)
            } else {
                a matches IdentityAnswer::GenerateNeuralKey(Err(e)) && derivation_error(f, "generation"@, e)
            },
        ),
        Ok(d) => step matches IdentityStep::Continue(
            IdentityFlow::StoreNeuralKey { client_pid: p, user_id: u, key_path: k, result, key_store, cap_slots: c, recovered: rc },
        ) && p == client_pid && u == user_id && k == key_path && c == cap_slots && rc == recovered
            && neural_key_records_spec(user_id, d, created_at, result, key_store),
    }
}

fn after_derivation(
    client_pid: u32,
    user_id: u128,
    key_path: String,
    cap_slots: Vec<u32>,
    derivation: Result<DerivedIdentity, DerivationFailure>,
    created_at: u64,
    recovered: bool,
) -> (step: IdentityStep)
    ensures
        derived_outcome(step, client_pid, user_id, key_path, cap_slots, derivation, created_at, recovered),
{
    match derivation {
        Err(f) => {
            if recovered {
                let e = derivation_failure(f, "recovery");
                reply(client_pid, cap_slots, IdentityAnswer::RecoverNeuralKey(Err(e)))
            } else {
                let e = derivation_failure(f, "generation");
                reply(client_pid, cap_slots, IdentityAnswer::GenerateNeuralKey(Err(e)))
            }
        },
        Ok(d) => {
            let (result, key_store) = neural_key_records(user_id, &d, created_at);
            IdentityStep::Continue(
                IdentityFlow::StoreNeuralKey { client_pid, user_id, key_path, result, key_store, cap_slots, recovered },
            )
        },
    }
}

/// A new neural key was generated, its identity key derived and its
/// shards split (or one of these failed), at `created_at` (see
/// `derived_outcome`).
pub fn continue_generate_after_derivation(
    client_pid: u32,
    user_id: u128,
    key_path: String,
    cap_slots: Vec<u32>,
    derivation: Result<DerivedIdentity, DerivationFailure>,
    created_at: u64,
) -> (step: IdentityStep)
    ensures
        derived_outcome(step, client_pid, user_id, key_path, cap_slots, derivation, created_at, false),
{
    after_derivation(client_pid, user_id, key_path, cap_slots, derivation, created_at, false)
}

/// The neural key was rebuilt from the shards and checked against the
/// stored identity, its identity key derived and new shards split (or one
/// of these failed), at `created_at` (see `derived_outcome`).
pub fn continue_recover_after_derivation(
    client_pid: u32,
    user_id: u128,
    key_path: String,
    cap_slots: Vec<u32>,
    derivation: Result<DerivedIdentity, DerivationFailure>,
    created_at: u64,
) -> (step: IdentityStep)
    ensures
        derived_outcome(step, client_pid, user_id, key_path, cap_slots, derivation, created_at, true),
{
    after_derivation(client_pid, user_id, key_path, cap_slots, derivation, created_at, true)
}

/// The host encoded a neural key's records: `result` for the client, and
/// the key store (or why it could not be encoded). The key store's content
/// is written at `key_path` next, then its inode.
pub fn start_key_store_write(
    client_pid: u32,
    user_id: u128,
    key_path: String,
    result: Vec<u8>,
    key_store: Result<Vec<u8>, String>,
    cap_slots: Vec<u32>,
    recovered: bool,
) -> (step: IdentityStep)
    ensures
        match key_store {
            Err(e) => answers(
                step,
                client_pid,
                cap_slots,
                |a: IdentityAnswer| if recovered {
                    a matches IdentityAnswer::RecoverNeuralKey(Err(f)) && key_error(f, "Serialization failed: "@ + e@)
                } else {
                    a matches IdentityAnswer::GenerateNeuralKey(Err(f)) && key_error(f, "Serialization failed: "@ + e@)
                },
            ),
            Ok(json) => step matches IdentityStep::Start { call, op } && is_write(call, "content:"@ + key_path@, json@)
                && op == if recovered {
                PendingStorageOp::WriteRecoveredKeyStoreContent { client_pid, user_id, path: key_path, result, json_bytes: json, cap_slots }
            } else {
                PendingStorageOp::WriteKeyStoreContent { client_pid, user_id, path: key_path, result, json_bytes: json, cap_slots }
            },
        },
{
    match key_store {
        Err(e) => {
            let mut m = string_from("Serialization failed: ");
            push_str(&mut m, e.as_str());
            let f = KeyFailure::StorageError(m);
            if recovered {
                reply(client_pid, cap_slots, IdentityAnswer::RecoverNeuralKey(Err(f)))
            } else {
                reply(client_pid, cap_slots, IdentityAnswer::GenerateNeuralKey(Err(f)))
            }
        },
        Ok(json) => {
            let key = storage_key("content:", key_path.as_str());
            let value = copy_bytes(json.as_slice());
            let op = if recovered {
                PendingStorageOp::WriteRecoveredKeyStoreContent { client_pid, user_id, path: key_path, result, json_bytes: json, cap_slots }
            } else {
                PendingStorageOp::WriteKeyStoreContent { client_pid, user_id, path: key_path, result, json_bytes: json, cap_slots }
            };
            IdentityStep::Start { call: VfsCall::Storage(StorageCall::Write { key, value }), op }
        },
    }
}

// ============================================================================
// Creating and rotating machine keys
// ============================================================================

/// The key scheme of a machine key.
#[derive(Clone, Copy, Debug, PartialEq, Eq, Structural)]
pub enum KeyScheme {
    Classical,
    /// Classical keys together with post-quantum ones.
    PqHybrid,
}

/// What a request for a new machine key asks for, beside the shards.
#[derive(Clone, Debug)]
pub struct MachineKeyRequest {
    /// The capabilities granted to the machine, as the host encodes them;
    /// they are carried into the record unchanged.
    pub capabilities: Vec<u8>,
    pub machine_name: Option<String>,
    pub key_scheme: KeyScheme,
}

/// A machine key as it is stored.
#[derive(Clone, Debug)]
pub struct MachineKeyRecord {
    pub machine_id: u128,
    pub signing_public_key: [u8; 32],
    pub encryption_public_key: [u8; 32],
    /// Secret seeds; none for keys derived from the neural key.
    pub signing_sk: Option<[u8; 32]>,
    pub encryption_sk: Option<[u8; 32]>,
    pub authorized_at: u64,
    pub authorized_by: u128,
    /// The machine's capabilities, as the host encodes them.
    pub capabilities: Vec<u8>,
    pub machine_name: Option<String>,
    pub last_seen_at: u64,
    pub epoch: u64,
    pub key_scheme: KeyScheme,
    pub pq_signing_public_key: Option<Vec<u8>>,
    pub pq_encryption_public_key: Option<Vec<u8>>,
}

/// An optional text taken by view.
pub open spec fn opt_text(t: Option<String>) -> Option<Seq<char>> {
    match t {
        Some(s) => Some(s@),
        None => None,
    }
}

/// An optional key taken by view.
pub open spec fn opt_bytes(b: Option<Vec<u8>>) -> Option<Seq<u8>> {
    match b {
        Some(v) => Some(v@),
        None => None,
    }
}

/// The record of a new machine key of `user_id`, made at `now` from the
/// request: its id and public keys, no secret or post-quantum keys, the
/// first epoch, authorized and last seen now by the user, and the
/// request's capabilities, name and key scheme.
pub open spec fn new_machine_record(
    r: MachineKeyRecord,
    user_id: u128,
    machine_id: u128,
    signing: [u8; 32],
    encryption: [u8; 32],
    request: MachineKeyRequest,
    now: u64,
) -> bool {
    &&& r.machine_id == machine_id
    &&& r.signing_public_key == signing
    &&& r.encryption_public_key == encryption
    &&& r.signing_sk is None
    &&& r.encryption_sk is None
    &&& r.authorized_at == now
    &&& r.authorized_by == user_id
    &&& r.capabilities@ == request.capabilities@
    &&& opt_text(r.machine_name) == opt_text(request.machine_name)
    &&& r.last_seen_at == now
    &&& r.epoch == 1
    &&& r.key_scheme == request.key_scheme
    &&& r.pq_signing_public_key is None
    &&& r.pq_encryption_public_key is None
}

/// The record of a new machine key (see `new_machine_record`).
pub fn new_machine_key_record(
    user_id: u128,
    machine_id: u128,
    signing: [u8; 32],
    encryption: [u8; 32],
    request: MachineKeyRequest,
    now: u64,
) -> (r: MachineKeyRecord)
    ensures
        new_machine_record(r, user_id, machine_id, signing, encryption, request, now),
{
    MachineKeyRecord {
        machine_id,
        signing_public_key: signing,
        encryption_public_key: encryption,
        signing_sk: None,
        encryption_sk: None,
        authorized_at: now,
        authorized_by: user_id,
        capabilities: request.capabilities,
        machine_name: request.machine_name,
        last_seen_at: now,
        epoch: 1,
        key_scheme: request.key_scheme,
        pq_signing_public_key: None,
        pq_encryption_public_key: None,
    }
}

/// The stored record `old` after a rotation at `now`: the new public keys,
/// the next epoch and last seen now; a post-quantum record loses its
/// post-quantum keys; everything else (machine id, secret seeds,
/// authorization, capabilities, name, scheme) is kept.
pub open spec fn rotated_record(
    r: MachineKeyRecord,
    old: MachineKeyRecord,
    signing: [u8; 32],
    encryption: [u8; 32],
    now: u64,
) -> bool {
    &&& r.machine_id == old.machine_id
    &&& r.signing_public_key == signing
    &&& r.encryption_public_key == encryption
    &&& r.signing_sk == old.signing_sk
    &&& r.encryption_sk == old.encryption_sk
    &&& r.authorized_at == old.authorized_at
    &&& r.authorized_by == old.authorized_by
    &&& r.capabilities@ == old.capabilities@
    &&& opt_text(r.machine_name) == opt_text(old.machine_name)
    &&& r.last_seen_at == now
    &&& r.epoch == old.epoch + 1
    &&& r.key_scheme == old.key_scheme
    &&& opt_bytes(r.pq_signing_public_key) == if old.key_scheme == KeyScheme::PqHybrid {
        None
    } else {
        opt_bytes(old.pq_signing_public_key)
    }
    &&& opt_bytes(r.pq_encryption_public_key) == if old.key_scheme == KeyScheme::PqHybrid {
        None
    } else {
        opt_bytes(old.pq_encryption_public_key)
    }
}

/// The stored record after a rotation (see `rotated_record`). The epoch
/// must have a next one, as the increment overflows otherwise.
pub fn rotate_machine_key_record(old: MachineKeyRecord, signing: [u8; 32], encryption: [u8; 32], now: u64) -> (r:
    MachineKeyRecord)
    requires
        old.epoch < u64::MAX,
    ensures
        rotated_record(r, old, signing, encryption, now),
{
    let pq = old.key_scheme == KeyScheme::PqHybrid;
    MachineKeyRecord {
        machine_id: old.machine_id,
        signing_public_key: signing,
        encryption_public_key: encryption,
        signing_sk: old.signing_sk,
        encryption_sk: old.encryption_sk,
        authorized_at: old.authorized_at,
        authorized_by: old.authorized_by,
        capabilities: old.capabilities,
        machine_name: old.machine_name,
        last_seen_at: now,
        epoch: old.epoch + 1,
        key_scheme: old.key_scheme,
        pq_signing_public_key: if pq {
            None
        } else {
            old.pq_signing_public_key
        },
        pq_encryption_public_key: if pq {
            None
        } else {
            old.pq_encryption_public_key
        },
    }
}

/// Where making a machine key failed.
#[derive(Clone, Debug)]
pub enum MachineKeyFailure {
    /// A shard of the request is not valid hex (the error's text).
    InvalidShard(String),
    /// The shards do not rebuild the stored identity: the check's error,
    /// answered as it is.
    Verification(KeyFailure),
    /// No entropy for the machine id.
    Entropy,
    /// Deriving the machine key pair failed (the error's text).
    Derive(String),
}

/// The machine id drawn from entropy: its first sixteen bytes, little
/// endian.
pub open spec fn machine_id_spec(entropy: Seq<u8>) -> u128 {
    le_value(entropy.take(16)) as u128
}

/// The value of little-endian bytes.
pub open spec fn le_value(b: Seq<u8>) -> nat
    decreases b.len(),
{
    if b.len() == 0 {
        0
    } else {
        b[0] as nat + 256 * le_value(b.drop_first())
    }
}

/// 256 to the power `n`.
pub open spec fn p256(n: nat) -> nat
    decreases n,
{
    if n == 0 {
        1
    } else {
        256 * p256((n - 1) as nat)
    }
}

proof fn lemma_le_value_bound(b: Seq<u8>)
    ensures
        le_value(b) < p256(b.len()),
    decreases b.len(),
{
    if b.len() > 0 {
        lemma_le_value_bound(b.drop_first());
        assert(le_value(b) < 256 * p256((b.len() - 1) as nat)) by (nonlinear_arith)
            requires
                le_value(b) == b[0] as nat + 256 * le_value(b.drop_first()),
                le_value(b.drop_first()) < p256((b.len() - 1) as nat),
                b[0] < 256,
        ;
    }
}

proof fn lemma_p256_monotone(m: nat, n: nat)
    requires
        m <= n,
    ensures
        p256(m) <= p256(n),
    decreases n,
{
    if m < n {
        lemma_p256_monotone(m, (n - 1) as nat);
    }
}

/// The machine id a fresh draw of entropy gives (see `machine_id_spec`).
pub fn machine_id_from_entropy(entropy: &[u8; 32]) -> (id: u128)
    ensures
        id == machine_id_spec(entropy@),
{
    let mut id: u128 = 0;
    let mut i: usize = 16;
    proof {
        assert(entropy@.take(16).skip(16) =~= Seq::<u8>::empty());
    }
    while i > 0
        invariant
            i <= 16,
            entropy@.len() == 32,
            id == le_value(entropy@.take(16).skip(i as int)),
        decreases i,
    {
        i = i - 1;
        let ghost rest = entropy@.take(16).skip(i as int);
        assert(rest.drop_first() =~= entropy@.take(16).skip(i + 1));
        proof {
            lemma_le_value_bound(rest.drop_first());
            lemma_p256_monotone((rest.len() - 1) as nat, 15);
            reveal_with_fuel(p256, 16);
            assert(p256(15) == 0x1_00_0000_0000_0000_0000_0000_0000_0000);
        }
        id = (entropy[i] as u128) + 256 * id;
    }
    assert(entropy@.take(16).skip(0) =~= entropy@.take(16));
    id
}

/// The error a failed machine-key derivation is answered with.
pub open spec fn machine_key_error(f: MachineKeyFailure, e: KeyFailure) -> bool {
    match f {
        MachineKeyFailure::InvalidShard(m) => e matches KeyFailure::InvalidShard(t) && t@ == "Invalid shard format: "@ + m@,
        MachineKeyFailure::Verification(k) => e == k,
        MachineKeyFailure::Entropy => e matches KeyFailure::CryptoError(t) && t@ == "Failed to generate machine ID"@,
        MachineKeyFailure::Derive(m) => e matches KeyFailure::CryptoError(t) && t@ == "Machine keypair derivation failed: "@
            + m@,
    }
}

/// After the derivations for a new machine key of `user_id` at `now`: a
/// failure is answered; otherwise the new record (see
/// `new_machine_record`) is to be encoded and stored.
pub fn continue_create_machine_after_derivation(
    client_pid: u32,
    user_id: u128,
    request: MachineKeyRequest,
    derivation: Result<(u128, [u8; 32], [u8; 32]), MachineKeyFailure>,
    now: u64,
    cap_slots: Vec<u32>,
) -> (step: IdentityStep)
    ensures
        match derivation {
            Err(f) => answers(
                step,
                client_pid,
                cap_slots,
                |a: IdentityAnswer| a matches IdentityAnswer::CreateMachineKey(Err(e)) && machine_key_error(f, e),
            ),
            Ok((machine_id, signing, encryption)) => step matches IdentityStep::Continue(
                IdentityFlow::StoreMachineKey { client_pid: p, user_id: u, record, cap_slots: c },
            ) && p == client_pid && u == user_id && c == cap_slots && new_machine_record(
                record,
                user_id,
                machine_id,
                signing,
                encryption,
                request,
                now,
            ),
        },
{
    match derivation {
        Err(f) => {
            let e = match f {
                MachineKeyFailure::InvalidShard(m) => {
                    let mut t = string_from("Invalid shard format: ");
                    push_str(&mut t, m.as_str());
                    KeyFailure::InvalidShard(t)
                },
                MachineKeyFailure::Verification(k) => k,
                MachineKeyFailure::Entropy => KeyFailure::CryptoError(string_from("Failed to generate machine ID")),
                MachineKeyFailure::Derive(m) => {
                    let mut t = string_from("Machine keypair derivation failed: ");
                    push_str(&mut t, m.as_str());
                    KeyFailure::CryptoError(t)
                },
            };
            reply(client_pid, cap_slots, IdentityAnswer::CreateMachineKey(Err(e)))
        },
        Ok((machine_id, signing, encryption)) => {
            let record = new_machine_key_record(user_id, machine_id, signing, encryption, request, now);
            IdentityStep::Continue(IdentityFlow::StoreMachineKey { client_pid, user_id, record, cap_slots })
        },
    }
}

/// The host encoded a machine-key record (or could not); its content is
/// written at `path` next, then its inode. `rotated` tells a rotation from
/// a creation.
pub fn start_machine_key_write(
    client_pid: u32,
    user_id: u128,
    path: String,
    record: Result<Vec<u8>, String>,
    cap_slots: Vec<u32>,
    rotated: bool,
) -> (step: IdentityStep)
    ensures
        match record {
            Err(e) => answers(
                step,
                client_pid,
                cap_slots,
                |a: IdentityAnswer| if rotated {
                    a matches IdentityAnswer::RotateMachineKey(Err(f)) && key_error(f, "Serialization failed: "@ + e@)
                } else {
                    a matches IdentityAnswer::CreateMachineKey(Err(f)) && key_error(f, "Serialization failed: "@ + e@)
                },
            ),
            Ok(json) => step matches IdentityStep::Start { call, op } && is_write(call, "content:"@ + path@, json@) && if rotated {
                op matches PendingStorageOp::WriteRotatedMachineKeyContent { client_pid: p, user_id: u, path: q, record: r, json_bytes, cap_slots: c }
                    && p == client_pid && u == user_id && q == path && r@ == json@ && json_bytes == json && c == cap_slots
            } else {
                op matches PendingStorageOp::WriteMachineKeyContent { client_pid: p, user_id: u, path: q, record: r, json_bytes, cap_slots: c }
                    && p == client_pid && u == user_id && q == path && r@ == json@ && json_bytes == json && c == cap_slots
            },
        },
{
    match record {
        Err(e) => {
            let mut m = string_from("Serialization failed: ");
            push_str(&mut m, e.as_str());
            let f = KeyFailure::StorageError(m);
            if rotated {
                reply(client_pid, cap_slots, IdentityAnswer::RotateMachineKey(Err(f)))
            } else {
                reply(client_pid, cap_slots, IdentityAnswer::CreateMachineKey(Err(f)))
            }
        },
        Ok(json) => {
            let key = storage_key("content:", path.as_str());
            let value = copy_bytes(json.as_slice());
            let record = copy_bytes(json.as_slice());
            let op = if rotated {
                PendingStorageOp::WriteRotatedMachineKeyContent { client_pid, user_id, path, record, json_bytes: json, cap_slots }
            } else {
                PendingStorageOp::WriteMachineKeyContent { client_pid, user_id, path, record, json_bytes: json, cap_slots }
            };
            IdentityStep::Start { call: VfsCall::Storage(StorageCall::Write { key, value }), op }
        },
    }
}

/// Where rotating a machine key failed.
#[derive(Clone, Debug)]
pub enum RotationFailure {
    /// The stored record does not decode (the error's text).
    Parse(String),
    SigningSeed,
    EncryptionSeed,
    /// Making the new key pair failed (the error's text).
    Keypair(String),
}

/// The error a failed rotation is answered with.
pub open spec fn rotation_error(f: RotationFailure, e: KeyFailure) -> bool {
    match f {
        RotationFailure::Parse(m) => key_error(e, "Parse failed: "@ + m@),
        RotationFailure::SigningSeed => e matches KeyFailure::CryptoError(t) && t@ == "Failed to generate signing seed"@,
        RotationFailure::EncryptionSeed => e matches KeyFailure::CryptoError(t) && t@ == "Failed to generate encryption seed"@,
        RotationFailure::Keypair(m) => e matches KeyFailure::CryptoError(t) && t@ == "Machine keypair rotation failed: "@ + m@,
    }
}

/// After the rotation's derivations at `now`, for the stored record `old`
/// (as the host decoded it): a failure is answered; otherwise the rotated
/// record (see `rotated_record`) is to be encoded and stored.
pub fn continue_rotate_after_derivation(
    client_pid: u32,
    user_id: u128,
    machine_id: u128,
    derivation: Result<(MachineKeyRecord, [u8; 32], [u8; 32]), RotationFailure>,
    now: u64,
    cap_slots: Vec<u32>,
) -> (step: IdentityStep)
    requires
        derivation matches Ok((old, _, _)) ==> old.epoch < u64::MAX,
    ensures
        match derivation {
            Err(f) => answers(
                step,
                client_pid,
                cap_slots,
                |a: IdentityAnswer| a matches IdentityAnswer::RotateMachineKey(Err(e)) && rotation_error(f, e),
            ),
            Ok((old, signing, encryption)) => step matches IdentityStep::Continue(
                IdentityFlow::StoreRotatedKey { client_pid: p, user_id: u, machine_id: m, record, cap_slots: c },
            ) && p == client_pid && u == user_id && m == machine_id && c == cap_slots && rotated_record(
                record,
                old,
                signing,
                encryption,
                now,
            ),
        },
{
    match derivation {
        Err(f) => {
            let e = match f {
                RotationFailure::Parse(m) => {
                    let mut t = string_from("Parse failed: ");
                    push_str(&mut t, m.as_str());
                    KeyFailure::StorageError(t)
                },
                RotationFailure::SigningSeed => KeyFailure::CryptoError(string_from("Failed to generate signing seed")),
                RotationFailure::EncryptionSeed => KeyFailure::CryptoError(
                    string_from("Failed to generate encryption seed"),
                ),
                RotationFailure::Keypair(m) => {
                    let mut t = string_from("Machine keypair rotation failed: ");
                    push_str(&mut t, m.as_str());
                    KeyFailure::CryptoError(t)
                },
            };
            reply(client_pid, cap_slots, IdentityAnswer::RotateMachineKey(Err(e)))
        },
        Ok((old, signing, encryption)) => {
            let record = rotate_machine_key_record(old, signing, encryption, now);
            IdentityStep::Continue(IdentityFlow::StoreRotatedKey { client_pid, user_id, machine_id, record, cap_slots })
        },
    }
}

// ============================================================================
// Requests that start with a storage call
// ============================================================================

fn read_content(path: &str, op: PendingStorageOp) -> (step: IdentityStep)
    ensures
        starts(step, |c: VfsCall| is_storage(c, "read"@, "content:"@ + path@), op),
{
    IdentityStep::Start { call: VfsCall::Storage(StorageCall::Read { key: storage_key("content:", path) }), op }
}

/// A request for the stored identity key; the host decoded it into the
/// user's key-store path.
pub fn start_get_identity_key(from_pid: u32, cap_slots: Vec<u32>, key_path: Option<String>) -> (step: IdentityStep)
    ensures
        match key_path {
            None => answers(
                step,
                from_pid,
                cap_slots,
                |a: IdentityAnswer| a matches IdentityAnswer::GetIdentityKey(Err(KeyFailure::DerivationFailed)),
            ),
            Some(p) => starts(
                step,
                |c: VfsCall| is_storage(c, "read"@, "content:"@ + p@),
                (PendingStorageOp::GetIdentityKey { client_pid: from_pid, cap_slots }),
            ),
        },
{
    match key_path {
        None => reply(from_pid, cap_slots, IdentityAnswer::GetIdentityKey(Err(KeyFailure::DerivationFailed))),
        Some(p) => read_content(p.as_str(), PendingStorageOp::GetIdentityKey { client_pid: from_pid, cap_slots }),
    }
}

/// A request to recover the neural key; the host decoded it into the user,
/// the shards (hex) and the user's key-store path, and `shard_check` is
/// whether every shard parses (or why not). At least three shards are
/// needed; then the stored identity is read to check the recovery against.
pub fn start_recover_neural_key(
    from_pid: u32,
    cap_slots: Vec<u32>,
    request: Option<(u128, Vec<String>, String)>,
    shard_check: Result<(), String>,
) -> (step: IdentityStep)
    ensures
        match request {
            None => answers(
                step,
                from_pid,
                cap_slots,
                |a: IdentityAnswer| a matches IdentityAnswer::RecoverNeuralKey(Err(KeyFailure::DerivationFailed)),
            ),
            Some((user_id, shards, key_path)) => if shards@.len() < 3 {
                answers(
                    step,
                    from_pid,
                    cap_slots,
                    |a: IdentityAnswer| a matches IdentityAnswer::RecoverNeuralKey(Err(KeyFailure::InsufficientShards)),
                )
            } else {
                match shard_check {
                    Err(e) => answers(
                        step,
                        from_pid,
                        cap_slots,
                        |a: IdentityAnswer| a matches IdentityAnswer::RecoverNeuralKey(Err(KeyFailure::InvalidShard(m)))
                            && m@ == "Invalid shard format: "@ + e@,
                    ),
                    Ok(()) => starts(
                        step,
                        |c: VfsCall| is_storage(c, "read"@, "content:"@ + key_path@),
                        (PendingStorageOp::ReadIdentityForRecovery {
                            client_pid: from_pid,
                            user_id,
                            key_path,
                            shards,
                            cap_slots,
                        }),
                    ),
                }
            },
        },
{
    match request {
        None => reply(from_pid, cap_slots, IdentityAnswer::RecoverNeuralKey(Err(KeyFailure::DerivationFailed))),
        Some((user_id, shards, key_path)) => {
            if shards.len() < 3 {
                return reply(
                    from_pid,
                    cap_slots,
                    IdentityAnswer::RecoverNeuralKey(Err(KeyFailure::InsufficientShards)),
                );
            }
            match shard_check {
                Err(e) => {
                    let mut m = string_from("Invalid shard format: ");
                    push_str(&mut m, e.as_str());
                    reply(from_pid, cap_slots, IdentityAnswer::RecoverNeuralKey(Err(KeyFailure::InvalidShard(m))))
                },
                Ok(()) => {
                    let key = storage_key("content:", key_path.as_str());
                    IdentityStep::Start {
                        call: VfsCall::Storage(StorageCall::Read { key }),
                        op: PendingStorageOp::ReadIdentityForRecovery { client_pid: from_pid, user_id, key_path, shards, cap_slots },
                    }
                },
            }
        },
    }
}

/// A request to create a machine key; the host decoded it (kept in its
/// encoding) and found the user's key-store path. The stored identity is
/// read first, to check the request's shards against.
pub fn start_create_machine_key(from_pid: u32, cap_slots: Vec<u32>, request: Option<(Vec<u8>, String)>) -> (step: IdentityStep)
    ensures
        match request {
            None => answers(
                step,
                from_pid,
                cap_slots,
                |a: IdentityAnswer| a matches IdentityAnswer::CreateMachineKey(Err(KeyFailure::DerivationFailed)),
            ),
            Some((req, key_path)) => starts(
                step,
                |c: VfsCall| is_storage(c, "read"@, "content:"@ + key_path@),
                (PendingStorageOp::ReadIdentityForMachine { client_pid: from_pid, request: req, cap_slots }),
            ),
        },
{
    match request {
        None => reply(from_pid, cap_slots, IdentityAnswer::CreateMachineKey(Err(KeyFailure::DerivationFailed))),
        Some((req, key_path)) => read_content(
            key_path.as_str(),
            PendingStorageOp::ReadIdentityForMachine { client_pid: from_pid, request: req, cap_slots },
        ),
    }
}

/// A request to revoke a machine key; the host decoded it into the user,
/// the machine and the record's path. The record's content is deleted
/// first, then its inode.
pub fn start_revoke_machine_key(from_pid: u32, cap_slots: Vec<u32>, request: Option<(u128, u128, String)>) -> (step: IdentityStep)
    ensures
        match request {
            None => answers(
                step,
                from_pid,
                cap_slots,
                |a: IdentityAnswer| a matches IdentityAnswer::RevokeMachineKey(Err(KeyFailure::DerivationFailed)),
            ),
            Some((user_id, machine_id, path)) => step matches IdentityStep::Start { call, op } && is_storage(
                call,
                "delete"@,
                "content:"@ + path@,
            ) && op == (PendingStorageOp::DeleteMachineKey { client_pid: from_pid, user_id, machine_id, path, cap_slots }),
        },
{
    match request {
        None => reply(from_pid, cap_slots, IdentityAnswer::RevokeMachineKey(Err(KeyFailure::DerivationFailed))),
        Some((user_id, machine_id, path)) => {
            let key = storage_key("content:", path.as_str());
            IdentityStep::Start {
                call: VfsCall::Storage(StorageCall::Delete { key }),
                op: PendingStorageOp::DeleteMachineKey { client_pid: from_pid, user_id, machine_id, path, cap_slots },
            }
        },
    }
}

/// A request to rotate a machine key; the host decoded it into the user,
/// the machine and the record's path. The record is read first.
pub fn start_rotate_machine_key(from_pid: u32, cap_slots: Vec<u32>, request: Option<(u128, u128, String)>) -> (step: IdentityStep)
    ensures
        match request {
            None => answers(
                step,
                from_pid,
                cap_slots,
                |a: IdentityAnswer| a matches IdentityAnswer::RotateMachineKey(Err(KeyFailure::DerivationFailed)),
            ),
            Some((user_id, machine_id, path)) => starts(
                step,
                |c: VfsCall| is_storage(c, "read"@, "content:"@ + path@),
                (PendingStorageOp::ReadMachineForRotate { client_pid: from_pid, user_id, machine_id, cap_slots }),
            ),
        },
{
    match request {
        None => reply(from_pid, cap_slots, IdentityAnswer::RotateMachineKey(Err(KeyFailure::DerivationFailed))),
        Some((user_id, machine_id, path)) => read_content(
            path.as_str(),
            PendingStorageOp::ReadMachineForRotate { client_pid: from_pid, user_id, machine_id, cap_slots },
        ),
    }
}

/// A request for one machine key; the host decoded it into the record's
/// path.
pub fn start_get_machine_key(from_pid: u32, cap_slots: Vec<u32>, path: Option<String>) -> (step: IdentityStep)
    ensures
        match path {
            None => answers(
                step,
                from_pid,
                cap_slots,
                |a: IdentityAnswer| a matches IdentityAnswer::GetMachineKey(Err(KeyFailure::DerivationFailed)),
            ),
            Some(p) => starts(
                step,
                |c: VfsCall| is_storage(c, "read"@, "content:"@ + p@),
                (PendingStorageOp::ReadSingleMachineKey { client_pid: from_pid, cap_slots }),
            ),
        },
{
    match path {
        None => reply(from_pid, cap_slots, IdentityAnswer::GetMachineKey(Err(KeyFailure::DerivationFailed))),
        Some(p) => read_content(p.as_str(), PendingStorageOp::ReadSingleMachineKey { client_pid: from_pid, cap_slots }),
    }
}

// ============================================================================
// Storage results: neural keys
// ============================================================================

/// The generated key store's content was written: write its inode next.
pub fn handle_write_key_store_content(
    client_pid: u32,
    user_id: u128,
    path: String,
    result: Vec<u8>,
    json_bytes: Vec<u8>,
    cap_slots: Vec<u32>,
    result_type: u8,
    now: u64,
) -> (step: IdentityStep)
    ensures
        content_then_inode(
            step,
            result_type,
            path@,
            user_id,
            json_bytes@.len() as int,
            now,
            (PendingStorageOp::WriteKeyStoreInode { client_pid, result, cap_slots }),
            client_pid,
            cap_slots,
            |a: IdentityAnswer| a matches IdentityAnswer::GenerateNeuralKey(Err(e)) && key_error(e, "Content write failed"@),
        ),
{
    if result_type != WRITE_OK {
        return reply(
            client_pid,
            cap_slots,
            IdentityAnswer::GenerateNeuralKey(Err(key_storage_error("Content write failed"))),
        );
    }
    let call = file_inode(path.as_str(), user_id, &json_bytes, now);
    IdentityStep::Start { call, op: PendingStorageOp::WriteKeyStoreInode { client_pid, result, cap_slots } }
}

/// The generated key store's inode was written: answer with the result.
pub fn handle_write_key_store_inode(client_pid: u32, result: Vec<u8>, cap_slots: Vec<u32>, result_type: u8) -> (step: IdentityStep)
    ensures
        final_write(
            step,
            result_type,
            client_pid,
            cap_slots,
            |a: IdentityAnswer| a == IdentityAnswer::GenerateNeuralKey(Ok(result)),
            |a: IdentityAnswer| a matches IdentityAnswer::GenerateNeuralKey(Err(e)) && key_error(e, "Inode write failed"@),
        ),
{
    if result_type == WRITE_OK {
        reply(client_pid, cap_slots, IdentityAnswer::GenerateNeuralKey(Ok(result)))
    } else {
        reply(client_pid, cap_slots, IdentityAnswer::GenerateNeuralKey(Err(key_storage_error("Inode write failed"))))
    }
}

/// The recovered key store's content was written: write its inode next.
pub fn handle_write_recovered_content(
    client_pid: u32,
    user_id: u128,
    path: String,
    result: Vec<u8>,
    json_bytes: Vec<u8>,
    cap_slots: Vec<u32>,
    result_type: u8,
    now: u64,
) -> (step: IdentityStep)
    ensures
        content_then_inode(
            step,
            result_type,
            path@,
            user_id,
            json_bytes@.len() as int,
            now,
            (PendingStorageOp::WriteRecoveredKeyStoreInode { client_pid, result, cap_slots }),
            client_pid,
            cap_slots,
            |a: IdentityAnswer| a matches IdentityAnswer::RecoverNeuralKey(Err(e)) && key_error(e, "Content write failed"@),
        ),
{
    if result_type != WRITE_OK {
        return reply(
            client_pid,
            cap_slots,
            IdentityAnswer::RecoverNeuralKey(Err(key_storage_error("Content write failed"))),
        );
    }
    let call = file_inode(path.as_str(), user_id, &json_bytes, now);
    IdentityStep::Start { call, op: PendingStorageOp::WriteRecoveredKeyStoreInode { client_pid, result, cap_slots } }
}

/// The recovered key store's inode was written: answer with the result.
pub fn handle_write_recovered_inode(client_pid: u32, result: Vec<u8>, cap_slots: Vec<u32>, result_type: u8) -> (step: IdentityStep)
    ensures
        final_write(
            step,
            result_type,
            client_pid,
            cap_slots,
            |a: IdentityAnswer| a == IdentityAnswer::RecoverNeuralKey(Ok(result)),
            |a: IdentityAnswer| a matches IdentityAnswer::RecoverNeuralKey(Err(e)) && key_error(e, "Inode write failed"@),
        ),
{
    if result_type == WRITE_OK {
        reply(client_pid, cap_slots, IdentityAnswer::RecoverNeuralKey(Ok(result)))
    } else {
        reply(client_pid, cap_slots, IdentityAnswer::RecoverNeuralKey(Err(key_storage_error("Inode write failed"))))
    }
}

// ============================================================================
// Storage results: machine keys
// ============================================================================

/// A new machine key's content was written: write its inode next.
pub fn handle_write_machine_key_content(
    client_pid: u32,
    user_id: u128,
    path: String,
    record: Vec<u8>,
    json_bytes: Vec<u8>,
    cap_slots: Vec<u32>,
    result_type: u8,
    now: u64,
) -> (step: IdentityStep)
    ensures
        content_then_inode(
            step,
            result_type,
            path@,
            user_id,
            json_bytes@.len() as int,
            now,
            (PendingStorageOp::WriteMachineKeyInode { client_pid, record, cap_slots }),
            client_pid,
            cap_slots,
            |a: IdentityAnswer| a matches IdentityAnswer::CreateMachineKey(Err(e)) && key_error(e, "Content write failed"@),
        ),
{
    if result_type != WRITE_OK {
        return reply(
            client_pid,
            cap_slots,
            IdentityAnswer::CreateMachineKey(Err(key_storage_error("Content write failed"))),
        );
    }
    let call = file_inode(path.as_str(), user_id, &json_bytes, now);
    IdentityStep::Start { call, op: PendingStorageOp::WriteMachineKeyInode { client_pid, record, cap_slots } }
}

/// A new machine key's inode was written: answer with the record.
pub fn handle_write_machine_key_inode(client_pid: u32, record: Vec<u8>, cap_slots: Vec<u32>, result_type: u8) -> (step: IdentityStep)
    ensures
        final_write(
            step,
            result_type,
            client_pid,
            cap_slots,
            |a: IdentityAnswer| a == IdentityAnswer::CreateMachineKey(Ok(record)),
            |a: IdentityAnswer| a matches IdentityAnswer::CreateMachineKey(Err(e)) && key_error(e, "Inode write failed"@),
        ),
{
    if result_type == WRITE_OK {
        reply(client_pid, cap_slots, IdentityAnswer::CreateMachineKey(Ok(record)))
    } else {
        reply(client_pid, cap_slots, IdentityAnswer::CreateMachineKey(Err(key_storage_error("Inode write failed"))))
    }
}

/// The machine-key directory was listed: read the JSON records it holds one
/// by one, or answer with no keys when there is none (or the listing failed
/// or did not parse).
pub fn handle_list_machine_keys(client_pid: u32, user_id: u128, cap_slots: Vec<u32>, result_type: u8, data: &[u8]) -> (step: IdentityStep)
    ensures
        lists_machine_keys(step, client_pid, user_id, cap_slots, result_type, data@),
{
    let keys = machine_key_reads(result_type, data);
    if keys.len() == 0 {
        return reply(client_pid, cap_slots, IdentityAnswer::ListMachineKeys(Vec::new()));
    }
    let mut rest = keys;
    let first = rest.remove(0);
    assert(strings_view(rest@) =~= strings_view(keys@).drop_first());
    assert(strings_view(keys@)[0] == first@);
    IdentityStep::Start {
        call: VfsCall::Storage(StorageCall::Read { key: first }),
        op: PendingStorageOp::ReadMachineKey {
            client_pid,
            user_id,
            remaining_paths: rest,
            records: Vec::new(),
            cap_slots,
        },
    }
}

/// One machine-key record read ended: keep `record` (the host's decoding of
/// it, when it was read and decoded), then read the next path, or answer
/// with the records when none is left.
pub fn continue_machine_key_reads(
    client_pid: u32,
    user_id: u128,
    remaining_paths: Vec<String>,
    records: Vec<Vec<u8>>,
    cap_slots: Vec<u32>,
    record: Option<Vec<u8>>,
) -> (step: IdentityStep)
    ensures
        reads_machine_keys(step, client_pid, user_id, remaining_paths, records, cap_slots, record),
{
    let mut records = records;
    match record {
        Some(x) => records.push(x),
        None => {},
    }
    if remaining_paths.len() == 0 {
        return reply(client_pid, cap_slots, IdentityAnswer::ListMachineKeys(records));
    }
    let mut rest = remaining_paths;
    let key = rest.remove(0);
    IdentityStep::Start {
        call: VfsCall::Storage(StorageCall::Read { key }),
        op: PendingStorageOp::ReadMachineKey { client_pid, user_id, remaining_paths: rest, records, cap_slots },
    }
}

/// A machine key's content was deleted: delete its inode next.
pub fn handle_delete_machine_key(
    client_pid: u32,
    user_id: u128,
    machine_id: u128,
    path: String,
    cap_slots: Vec<u32>,
    result_type: u8,
) -> (step: IdentityStep)
    ensures
        deletes_machine_key(step, client_pid, path, cap_slots, result_type),
{
    if result_type == WRITE_OK {
        let key = storage_key("inode:", path.as_str());
        IdentityStep::Start {
            call: VfsCall::Storage(StorageCall::Delete { key }),
            op: PendingStorageOp::DeleteMachineKeyInode { client_pid, cap_slots },
        }
    } else {
        reply(client_pid, cap_slots, IdentityAnswer::RevokeMachineKey(Err(key_storage_error("Delete failed"))))
    }
}

/// A machine key's inode was deleted: answer.
pub fn handle_delete_machine_key_inode(client_pid: u32, cap_slots: Vec<u32>, result_type: u8) -> (step: IdentityStep)
    ensures
        final_write(
            step,
            result_type,
            client_pid,
            cap_slots,
            |a: IdentityAnswer| a matches IdentityAnswer::RevokeMachineKey(Ok(())),
            |a: IdentityAnswer| a matches IdentityAnswer::RevokeMachineKey(Err(e)) && key_error(e, "Inode delete failed"@),
        ),
{
    if result_type == WRITE_OK {
        reply(client_pid, cap_slots, IdentityAnswer::RevokeMachineKey(Ok(())))
    } else {
        reply(client_pid, cap_slots, IdentityAnswer::RevokeMachineKey(Err(key_storage_error("Inode delete failed"))))
    }
}

/// A rotated machine key's content was written: write its inode next.
pub fn handle_write_rotated_content(
    client_pid: u32,
    user_id: u128,
    path: String,
    record: Vec<u8>,
    json_bytes: Vec<u8>,
    cap_slots: Vec<u32>,
    result_type: u8,
    now: u64,
) -> (step: IdentityStep)
    ensures
        content_then_inode(
            step,
            result_type,
            path@,
            user_id,
            json_bytes@.len() as int,
            now,
            (PendingStorageOp::WriteRotatedMachineKeyInode { client_pid, record, cap_slots }),
            client_pid,
            cap_slots,
            |a: IdentityAnswer| a matches IdentityAnswer::RotateMachineKey(Err(e)) && key_error(e, "Content write failed"@),
        ),
{
    if result_type != WRITE_OK {
        return reply(
            client_pid,
            cap_slots,
            IdentityAnswer::RotateMachineKey(Err(key_storage_error("Content write failed"))),
        );
    }
    let call = file_inode(path.as_str(), user_id, &json_bytes, now);
    IdentityStep::Start { call, op: PendingStorageOp::WriteRotatedMachineKeyInode { client_pid, record, cap_slots } }
}

/// A rotated machine key's inode was written: answer with the record.
pub fn handle_write_rotated_inode(client_pid: u32, record: Vec<u8>, cap_slots: Vec<u32>, result_type: u8) -> (step: IdentityStep)
    ensures
        final_write(
            step,
            result_type,
            client_pid,
            cap_slots,
            |a: IdentityAnswer| a == IdentityAnswer::RotateMachineKey(Ok(record)),
            |a: IdentityAnswer| a matches IdentityAnswer::RotateMachineKey(Err(e)) && key_error(e, "Inode write failed"@),
        ),
{
    if result_type == WRITE_OK {
        reply(client_pid, cap_slots, IdentityAnswer::RotateMachineKey(Ok(record)))
    } else {
        reply(client_pid, cap_slots, IdentityAnswer::RotateMachineKey(Err(key_storage_error("Inode write failed"))))
    }
}

// ============================================================================
// Storage results: credentials and sessions
// ============================================================================

/// The credential store without the unlinked credential was written: write
/// its inode next.
pub fn handle_write_unlinked_content(
    client_pid: u32,
    user_id: u128,
    path: String,
    json_bytes: Vec<u8>,
    cap_slots: Vec<u32>,
    result_type: u8,
    now: u64,
) -> (step: IdentityStep)
    ensures
        content_then_inode(
            step,
            result_type,
            path@,
            user_id,
            json_bytes@.len() as int,
            now,
            (PendingStorageOp::WriteUnlinkedCredentialInode { client_pid, cap_slots }),
            client_pid,
            cap_slots,
            |a: IdentityAnswer| a matches IdentityAnswer::UnlinkCredential(Err(e)) && credential_error(e, "Content write failed"@),
        ),
{
    if result_type != WRITE_OK {
        return reply(
            client_pid,
            cap_slots,
            IdentityAnswer::UnlinkCredential(Err(credential_storage_error("Content write failed"))),
        );
    }
    let call = file_inode(path.as_str(), user_id, &json_bytes, now);
    IdentityStep::Start { call, op: PendingStorageOp::WriteUnlinkedCredentialInode { client_pid, cap_slots } }
}

/// The credential store's inode was written after an unlink: answer.
pub fn handle_write_unlinked_inode(client_pid: u32, cap_slots: Vec<u32>, result_type: u8) -> (step: IdentityStep)
    ensures
        final_write(
            step,
            result_type,
            client_pid,
            cap_slots,
            |a: IdentityAnswer| a matches IdentityAnswer::UnlinkCredential(Ok(())),
            |a: IdentityAnswer| a matches IdentityAnswer::UnlinkCredential(Err(e)) && credential_error(e, "Inode write failed"@),
        ),
{
    if result_type == WRITE_OK {
        reply(client_pid, cap_slots, IdentityAnswer::UnlinkCredential(Ok(())))
    } else {
        reply(client_pid, cap_slots, IdentityAnswer::UnlinkCredential(Err(credential_storage_error("Inode write failed"))))
    }
}

/// The credential store with the new email was written: write its inode
/// next.
pub fn handle_write_email_cred_content(
    client_pid: u32,
    user_id: u128,
    path: String,
    json_bytes: Vec<u8>,
    cap_slots: Vec<u32>,
    result_type: u8,
    now: u64,
) -> (step: IdentityStep)
    ensures
        content_then_inode(
            step,
            result_type,
            path@,
            user_id,
            json_bytes@.len() as int,
            now,
            (PendingStorageOp::WriteEmailCredentialInode { client_pid, cap_slots }),
            client_pid,
            cap_slots,
            |a: IdentityAnswer| a matches IdentityAnswer::AttachEmail(Err(e)) && credential_error(e, "Content write failed"@),
        ),
{
    if result_type != WRITE_OK {
        return reply(
            client_pid,
            cap_slots,
            IdentityAnswer::AttachEmail(Err(credential_storage_error("Content write failed"))),
        );
    }
    let call = file_inode(path.as_str(), user_id, &json_bytes, now);
    IdentityStep::Start { call, op: PendingStorageOp::WriteEmailCredentialInode { client_pid, cap_slots } }
}

/// The credential store's inode was written after attaching an email:
/// answer.
pub fn handle_write_email_cred_inode(client_pid: u32, cap_slots: Vec<u32>, result_type: u8) -> (step: IdentityStep)
    ensures
        final_write(
            step,
            result_type,
            client_pid,
            cap_slots,
            |a: IdentityAnswer| a matches IdentityAnswer::AttachEmail(Ok(())),
            |a: IdentityAnswer| a matches IdentityAnswer::AttachEmail(Err(e)) && credential_error(e, "Inode write failed"@),
        ),
{
    if result_type == WRITE_OK {
        reply(client_pid, cap_slots, IdentityAnswer::AttachEmail(Ok(())))
    } else {
        reply(client_pid, cap_slots, IdentityAnswer::AttachEmail(Err(credential_storage_error("Inode write failed"))))
    }
}

/// The ZID session's inode was written after a login: answer with the
/// tokens.
pub fn handle_write_zid_session_inode(client_pid: u32, tokens: Vec<u8>, cap_slots: Vec<u32>, result_type: u8) -> (step: IdentityStep)
    ensures
        final_write(
            step,
            result_type,
            client_pid,
            cap_slots,
            |a: IdentityAnswer| a == IdentityAnswer::ZidLogin(Ok(tokens)),
            |a: IdentityAnswer| a matches IdentityAnswer::ZidLogin(Err(ZidFailure::NetworkError(m))) && m@ == "Session inode write failed"@,
        ),
{
    if result_type == WRITE_OK {
        reply(client_pid, cap_slots, IdentityAnswer::ZidLogin(Ok(tokens)))
    } else {
        reply(
            client_pid,
            cap_slots,
            IdentityAnswer::ZidLogin(Err(ZidFailure::NetworkError(string_from("Session inode write failed")))),
        )
    }
}

/// The ZID session's inode was written after an enrollment: answer with
/// the tokens.
pub fn handle_write_zid_enroll_session_inode(client_pid: u32, tokens: Vec<u8>, cap_slots: Vec<u32>, result_type: u8) -> (step: IdentityStep)
    ensures
        final_write(
            step,
            result_type,
            client_pid,
            cap_slots,
            |a: IdentityAnswer| a == IdentityAnswer::ZidEnroll(Ok(tokens)),
            |a: IdentityAnswer| a matches IdentityAnswer::ZidEnroll(Err(ZidFailure::EnrollmentFailed(m))) && m@ == "Session inode write failed"@,
        ),
{
    if result_type == WRITE_OK {
        reply(client_pid, cap_slots, IdentityAnswer::ZidEnroll(Ok(tokens)))
    } else {
        reply(
            client_pid,
            cap_slots,
            IdentityAnswer::ZidEnroll(Err(ZidFailure::EnrollmentFailed(string_from("Session inode write failed")))),
        )
    }
}

// ============================================================================
// Dispatching a storage result
// ============================================================================

/// A record for the host to decode as `kind`, awaited by `op`.
pub open spec fn decodes(step: IdentityStep, kind: RecordKind, data: Seq<u8>, op: PendingStorageOp) -> bool {
    step matches IdentityStep::Decode { kind: k, data: d, op: o } && k == kind && d@ == data && o == op
}

/// What the result (`result_type`, `data`) of the storage operation `op`
/// leads to, at time `now`.
pub open spec fn storage_outcome(op: PendingStorageOp, result_type: u8, data: Seq<u8>, now: u64, step: IdentityStep) -> bool {
    match op {
        PendingStorageOp::CheckIdentityDirectory { client_pid, user_id, key_path, cap_slots } => if found(
            result_type,
            data,
        ) {
            checks_key(step, client_pid, user_id, key_path, cap_slots)
        } else {
            creates_directory(step, client_pid, user_id, key_path, cap_slots, identity_directories_spec(user_id), now)
        },
        PendingStorageOp::CreateIdentityDirectory { client_pid, user_id, key_path, cap_slots, directories } =>
            if result_type != WRITE_OK {
            answers(
                step,
                client_pid,
                cap_slots,
                |a: IdentityAnswer| a matches IdentityAnswer::GenerateNeuralKey(Err(e)) && key_error(e, "Failed to create identity directory"@),
            )
        } else if directories@.len() == 0 {
            checks_key(step, client_pid, user_id, key_path, cap_slots)
        } else {
            creates_directory(step, client_pid, user_id, key_path, cap_slots, strings_view(directories@), now)
        },
        PendingStorageOp::CheckKeyExists { client_pid, user_id, key_path, cap_slots } => generates_unless_exists(
            step,
            client_pid,
            user_id,
            key_path,
            found(result_type, data),
            cap_slots,
        ),
        PendingStorageOp::WriteKeyStoreContent { client_pid, user_id, path, result, json_bytes, cap_slots } =>
            content_then_inode(
            step,
            result_type,
            path@,
            user_id,
            json_bytes@.len() as int,
            now,
            (PendingStorageOp::WriteKeyStoreInode { client_pid, result, cap_slots }),
            client_pid,
            cap_slots,
            |a: IdentityAnswer| a matches IdentityAnswer::GenerateNeuralKey(Err(e)) && key_error(e, "Content write failed"@),
        ),
        PendingStorageOp::WriteKeyStoreInode { client_pid, result, cap_slots } => final_write(
            step,
            result_type,
            client_pid,
            cap_slots,
            |a: IdentityAnswer| a == IdentityAnswer::GenerateNeuralKey(Ok(result)),
            |a: IdentityAnswer| a matches IdentityAnswer::GenerateNeuralKey(Err(e)) && key_error(e, "Inode write failed"@),
        ),
        PendingStorageOp::GetIdentityKey { client_pid, cap_slots } => if result_type == READ_OK {
            decodes(step, RecordKind::KeyStore, data, op)
        } else {
            answers(step, client_pid, cap_slots, |a: IdentityAnswer| a matches IdentityAnswer::GetIdentityKey(Ok(None)))
        },
        PendingStorageOp::ReadIdentityForRecovery { client_pid, cap_slots, .. } => if read_some(result_type, data) {
            decodes(step, RecordKind::IdentityPublicKey, data, op)
        } else {
            answers(
                step,
                client_pid,
                cap_slots,
                |a: IdentityAnswer| a matches IdentityAnswer::RecoverNeuralKey(Err(KeyFailure::IdentityKeyRequired)),
            )
        },
        PendingStorageOp::WriteRecoveredKeyStoreContent { client_pid, user_id, path, result, json_bytes, cap_slots } =>
            content_then_inode(
            step,
            result_type,
            path@,
            user_id,
            json_bytes@.len() as int,
            now,
            (PendingStorageOp::WriteRecoveredKeyStoreInode { client_pid, result, cap_slots }),
            client_pid,
            cap_slots,
            |a: IdentityAnswer| a matches IdentityAnswer::RecoverNeuralKey(Err(e)) && key_error(e, "Content write failed"@),
        ),
        PendingStorageOp::WriteRecoveredKeyStoreInode { client_pid, result, cap_slots } => final_write(
            step,
            result_type,
            client_pid,
            cap_slots,
            |a: IdentityAnswer| a == IdentityAnswer::RecoverNeuralKey(Ok(result)),
            |a: IdentityAnswer| a matches IdentityAnswer::RecoverNeuralKey(Err(e)) && key_error(e, "Inode write failed"@),
        ),
        PendingStorageOp::ReadIdentityForMachine { client_pid, cap_slots, .. } => if read_some(result_type, data) {
            decodes(step, RecordKind::IdentityPublicKey, data, op)
        } else {
            answers(
                step,
                client_pid,
                cap_slots,
                |a: IdentityAnswer| a matches IdentityAnswer::CreateMachineKey(Err(KeyFailure::IdentityKeyRequired)),
            )
        },
        PendingStorageOp::WriteMachineKeyContent { client_pid, user_id, path, record, json_bytes, cap_slots } =>
            content_then_inode(
            step,
            result_type,
            path@,
            user_id,
            json_bytes@.len() as int,
            now,
            (PendingStorageOp::WriteMachineKeyInode { client_pid, record, cap_slots }),
            client_pid,
            cap_slots,
            |a: IdentityAnswer| a matches IdentityAnswer::CreateMachineKey(Err(e)) && key_error(e, "Content write failed"@),
        ),
        PendingStorageOp::WriteMachineKeyInode { client_pid, record, cap_slots } => final_write(
            step,
            result_type,
            client_pid,
            cap_slots,
            |a: IdentityAnswer| a == IdentityAnswer::CreateMachineKey(Ok(record)),
            |a: IdentityAnswer| a matches IdentityAnswer::CreateMachineKey(Err(e)) && key_error(e, "Inode write failed"@),
        ),
        PendingStorageOp::ListMachineKeys { client_pid, user_id, cap_slots } => lists_machine_keys(
            step,
            client_pid,
            user_id,
            cap_slots,
            result_type,
            data,
        ),
        PendingStorageOp::ReadMachineKey { client_pid, user_id, remaining_paths, records, cap_slots } =>
            if result_type == READ_OK {
            decodes(step, RecordKind::MachineKey, data, op)
        } else {
            reads_machine_keys(step, client_pid, user_id, remaining_paths, records, cap_slots, None)
        },
        PendingStorageOp::DeleteMachineKey { client_pid, path, cap_slots, .. } => deletes_machine_key(
            step,
            client_pid,
            path,
            cap_slots,
            result_type,
        ),
        PendingStorageOp::DeleteMachineKeyInode { client_pid, cap_slots } => final_write(
            step,
            result_type,
            client_pid,
            cap_slots,
            |a: IdentityAnswer| a matches IdentityAnswer::RevokeMachineKey(Ok(())),
            |a: IdentityAnswer| a matches IdentityAnswer::RevokeMachineKey(Err(e)) && key_error(e, "Inode delete failed"@),
        ),
        PendingStorageOp::ReadMachineForRotate { client_pid, user_id, machine_id, cap_slots } => if result_type
            == READ_OK {
            step matches IdentityStep::Continue(
                IdentityFlow::RotateAfterRead { client_pid: p, user_id: u, machine_id: m, data: d, cap_slots: c },
            ) && p == client_pid && u == user_id && m == machine_id && d@ == data && c == cap_slots
        } else {
            answers(
                step,
                client_pid,
                cap_slots,
                |a: IdentityAnswer| a matches IdentityAnswer::RotateMachineKey(Err(KeyFailure::MachineKeyNotFound)),
            )
        },
        PendingStorageOp::WriteRotatedMachineKeyContent { client_pid, user_id, path, record, json_bytes, cap_slots } =>
            content_then_inode(
            step,
            result_type,
            path@,
            user_id,
            json_bytes@.len() as int,
            now,
            (PendingStorageOp::WriteRotatedMachineKeyInode { client_pid, record, cap_slots }),
            client_pid,
            cap_slots,
            |a: IdentityAnswer| a matches IdentityAnswer::RotateMachineKey(Err(e)) && key_error(e, "Content write failed"@),
        ),
        PendingStorageOp::WriteRotatedMachineKeyInode { client_pid, record, cap_slots } => final_write(
            step,
            result_type,
            client_pid,
            cap_slots,
            |a: IdentityAnswer| a == IdentityAnswer::RotateMachineKey(Ok(record)),
            |a: IdentityAnswer| a matches IdentityAnswer::RotateMachineKey(Err(e)) && key_error(e, "Inode write failed"@),
        ),
        PendingStorageOp::ReadSingleMachineKey { client_pid, cap_slots } => if result_type == READ_OK {
            decodes(step, RecordKind::MachineKey, data, op)
        } else {
            answers(step, client_pid, cap_slots, |a: IdentityAnswer| a matches IdentityAnswer::GetMachineKey(Ok(None)))
        },
        PendingStorageOp::ReadCredentialsForAttach { client_pid, user_id, email, cap_slots } => if read_some(
            result_type,
            data,
        ) {
            decodes(step, RecordKind::CredentialStore, data, op)
        } else {
            step == IdentityStep::Continue(
                IdentityFlow::AttachEmailAfterRead { client_pid, user_id, email, existing: None, cap_slots },
            )
        },
        PendingStorageOp::GetCredentials { client_pid, cap_slots } => if read_some(result_type, data) {
            decodes(step, RecordKind::CredentialList, data, op)
        } else {
            answers(step, client_pid, cap_slots, |a: IdentityAnswer| a matches IdentityAnswer::GetCredentials(None))
        },
        PendingStorageOp::ReadCredentialsForUnlink { client_pid, user_id, credential_type, cap_slots } =>
            if read_some(result_type, data) {
            step matches IdentityStep::Continue(
                IdentityFlow::UnlinkAfterRead { client_pid: p, user_id: u, credential_type: t, data: d, cap_slots: c },
            ) && p == client_pid && u == user_id && t == credential_type && d@ == data && c == cap_slots
        } else {
            answers(
                step,
                client_pid,
                cap_slots,
                |a: IdentityAnswer| a matches IdentityAnswer::UnlinkCredential(Err(CredentialFailure::NotFound)),
            )
        },
        PendingStorageOp::WriteUnlinkedCredentialContent { client_pid, user_id, path, json_bytes, cap_slots } =>
            content_then_inode(
            step,
            result_type,
            path@,
            user_id,
            json_bytes@.len() as int,
            now,
            (PendingStorageOp::WriteUnlinkedCredentialInode { client_pid, cap_slots }),
            client_pid,
            cap_slots,
            |a: IdentityAnswer| a matches IdentityAnswer::UnlinkCredential(Err(e)) && credential_error(e, "Content write failed"@),
        ),
        PendingStorageOp::WriteUnlinkedCredentialInode { client_pid, cap_slots } => final_write(
            step,
            result_type,
            client_pid,
            cap_slots,
            |a: IdentityAnswer| a matches IdentityAnswer::UnlinkCredential(Ok(())),
            |a: IdentityAnswer| a matches IdentityAnswer::UnlinkCredential(Err(e)) && credential_error(e, "Inode write failed"@),
        ),
        PendingStorageOp::WriteEmailCredentialContent { client_pid, user_id, path, json_bytes, cap_slots } =>
            content_then_inode(
            step,
            result_type,
            path@,
            user_id,
            json_bytes@.len() as int,
            now,
            (PendingStorageOp::WriteEmailCredentialInode { client_pid, cap_slots }),
            client_pid,
            cap_slots,
            |a: IdentityAnswer| a matches IdentityAnswer::AttachEmail(Err(e)) && credential_error(e, "Content write failed"@),
        ),
        PendingStorageOp::WriteEmailCredentialInode { client_pid, cap_slots } => final_write(
            step,
            result_type,
            client_pid,
            cap_slots,
            |a: IdentityAnswer| a matches IdentityAnswer::AttachEmail(Ok(())),
            |a: IdentityAnswer| a matches IdentityAnswer::AttachEmail(Err(e)) && credential_error(e, "Inode write failed"@),
        ),
        PendingStorageOp::ReadMachineKeyForZidLogin { client_pid, user_id, zid_endpoint, cap_slots } => {
            let kind = machine_read_kind(result_type, data);
            if kind == 0 {
                step matches IdentityStep::Continue(
                    IdentityFlow::ZidLogin(
                        ZidLoginReadResult::PathList { paths, client_pid: p, user_id: u, zid_endpoint: z, cap_slots: c },
                    ),
                ) && strings_view(paths@) == listed_paths(data) && p == client_pid && u == user_id && z
                    == zid_endpoint && c == cap_slots
            } else if kind == 1 {
                step matches IdentityStep::Continue(
                    IdentityFlow::ZidLogin(
                        ZidLoginReadResult::MachineKeyData { data: d, client_pid: p, user_id: u, zid_endpoint: z, cap_slots: c },
                    ),
                ) && d@ == data && p == client_pid && u == user_id && z == zid_endpoint && c == cap_slots
            } else {
                answers(
                    step,
                    client_pid,
                    cap_slots,
                    |a: IdentityAnswer| a matches IdentityAnswer::ZidLogin(Err(f)) && machine_read_failure(f, result_type),
                )
            }
        },
        PendingStorageOp::WriteZidSessionContent { client_pid, user_id, tokens, json_bytes, cap_slots } => step
            == IdentityStep::Continue(
            IdentityFlow::ZidSessionContentWritten { client_pid, user_id, tokens, json_bytes, cap_slots, result_type },
        ),
        PendingStorageOp::WriteZidSessionInode { client_pid, tokens, cap_slots } => final_write(
            step,
            result_type,
            client_pid,
            cap_slots,
            |a: IdentityAnswer| a == IdentityAnswer::ZidLogin(Ok(tokens)),
            |a: IdentityAnswer| a matches IdentityAnswer::ZidLogin(Err(ZidFailure::NetworkError(m))) && m@ == "Session inode write failed"@,
        ),
        PendingStorageOp::ReadMachineKeyForZidEnroll { client_pid, user_id, zid_endpoint, cap_slots } => {
            let kind = machine_read_kind(result_type, data);
            if kind == 0 {
                step matches IdentityStep::Continue(
                    IdentityFlow::ZidEnroll(
                        ZidEnrollReadResult::PathList { paths, client_pid: p, user_id: u, zid_endpoint: z, cap_slots: c },
                    ),
                ) && strings_view(paths@) == listed_paths(data) && p == client_pid && u == user_id && z
                    == zid_endpoint && c == cap_slots
            } else if kind == 1 {
                step matches IdentityStep::Continue(
                    IdentityFlow::ZidEnroll(
                        ZidEnrollReadResult::MachineKeyData { data: d, client_pid: p, user_id: u, zid_endpoint: z, cap_slots: c },
                    ),
                ) && d@ == data && p == client_pid && u == user_id && z == zid_endpoint && c == cap_slots
            } else {
                answers(
                    step,
                    client_pid,
                    cap_slots,
                    |a: IdentityAnswer| a matches IdentityAnswer::ZidEnroll(Err(f)) && machine_read_failure(f, result_type),
                )
            }
        },
        PendingStorageOp::WriteZidEnrollSessionContent { client_pid, user_id, tokens, json_bytes, cap_slots } =>
            if result_type == WRITE_OK {
            starts(
                step,
                |c: VfsCall| is_write(c, "inode:"@ + home_path(user_id, "/.zos/identity/zid_session.json"@), json_bytes@),
                (PendingStorageOp::WriteZidEnrollSessionInode { client_pid, tokens, cap_slots }),
            )
        } else {
            answers(
                step,
                client_pid,
                cap_slots,
                |a: IdentityAnswer| a matches IdentityAnswer::ZidEnroll(Err(ZidFailure::EnrollmentFailed(m))) && m@ == "Session write failed"@,
            )
        },
        PendingStorageOp::WriteZidEnrollSessionInode { client_pid, tokens, cap_slots } => final_write(
            step,
            result_type,
            client_pid,
            cap_slots,
            |a: IdentityAnswer| a == IdentityAnswer::ZidEnroll(Ok(tokens)),
            |a: IdentityAnswer| a matches IdentityAnswer::ZidEnroll(Err(ZidFailure::EnrollmentFailed(m))) && m@ == "Session inode write failed"@,
        ),
        PendingStorageOp::ReadIdentityPreferences { client_pid, user_id, cap_slots } => step matches IdentityStep::Continue(
            IdentityFlow::PreferencesRead { client_pid: p, user_id: u, cap_slots: c, result_type: t, data: d },
        ) && p == client_pid && u == user_id && c == cap_slots && t == result_type && d@ == data,
        PendingStorageOp::ReadPreferencesForUpdate { client_pid, user_id, new_key_scheme, cap_slots } => step matches IdentityStep::Continue(
            IdentityFlow::UpdatePreferences { client_pid: p, user_id: u, existing, new_key_scheme: k, cap_slots: c },
        ) && p == client_pid && u == user_id && k == new_key_scheme && c == cap_slots && (if read_some(
            result_type,
            data,
        ) {
            existing matches Some(e) && e@ == data
        } else {
            existing is None
        }),
        PendingStorageOp::WritePreferencesContent { client_pid, path, json_bytes, cap_slots, .. } => if result_type
            == WRITE_OK {
            starts(
                step,
                |c: VfsCall| is_write(c, "inode:"@ + path@, json_bytes@),
                (PendingStorageOp::WritePreferencesInode { client_pid, cap_slots }),
            )
        } else {
            answers(
                step,
                client_pid,
                cap_slots,
                |a: IdentityAnswer| a matches IdentityAnswer::SetDefaultKeyScheme(Err(e)) && key_error(e, "Content write failed"@),
            )
        },
        PendingStorageOp::WritePreferencesInode { client_pid, cap_slots } => step == IdentityStep::Continue(
            IdentityFlow::PreferencesInodeWritten { client_pid, cap_slots, result_type },
        ),
    }
}

fn decode(kind: RecordKind, data: &[u8], op: PendingStorageOp) -> (step: IdentityStep)
    ensures
        decodes(step, kind, data@, op),
{
    IdentityStep::Decode { kind, data: copy_bytes(data), op }
}

fn zid_login_step(
    client_pid: u32,
    user_id: u128,
    zid_endpoint: String,
    cap_slots: Vec<u32>,
    result_type: u8,
    data: &[u8],
) -> (step: IdentityStep)
    ensures
        storage_outcome(
            (PendingStorageOp::ReadMachineKeyForZidLogin { client_pid, user_id, zid_endpoint, cap_slots }),
            result_type,
            data@,
            0,
            step,
        ),
{
    if result_type == LIST_OK {
        let paths = listed_paths_exec(data);
        IdentityStep::Continue(
            IdentityFlow::ZidLogin(ZidLoginReadResult::PathList { paths, client_pid, user_id, zid_endpoint, cap_slots }),
        )
    } else if result_type == READ_OK && data.len() > 0 {
        IdentityStep::Continue(
            IdentityFlow::ZidLogin(
                ZidLoginReadResult::MachineKeyData { data: copy_bytes(data), client_pid, user_id, zid_endpoint, cap_slots },
            ),
        )
    } else {
        reply(client_pid, cap_slots, IdentityAnswer::ZidLogin(Err(storage_read_failure(result_type))))
    }
}

fn zid_enroll_step(
    client_pid: u32,
    user_id: u128,
    zid_endpoint: String,
    cap_slots: Vec<u32>,
    result_type: u8,
    data: &[u8],
) -> (step: IdentityStep)
    ensures
        storage_outcome(
            (PendingStorageOp::ReadMachineKeyForZidEnroll { client_pid, user_id, zid_endpoint, cap_slots }),
            result_type,
            data@,
            0,
            step,
        ),
{
    if result_type == LIST_OK {
        let paths = listed_paths_exec(data);
        IdentityStep::Continue(
            IdentityFlow::ZidEnroll(ZidEnrollReadResult::PathList { paths, client_pid, user_id, zid_endpoint, cap_slots }),
        )
    } else if result_type == READ_OK && data.len() > 0 {
        IdentityStep::Continue(
            IdentityFlow::ZidEnroll(
                ZidEnrollReadResult::MachineKeyData { data: copy_bytes(data), client_pid, user_id, zid_endpoint, cap_slots },
            ),
        )
    } else {
        reply(client_pid, cap_slots, IdentityAnswer::ZidEnroll(Err(storage_read_failure(result_type))))
    }
}

/// What the result of `op` leads to (see `storage_outcome`).
#[verifier::rlimit(40)]
pub fn dispatch_storage_result(op: PendingStorageOp, result_type: u8, data: &[u8], now: u64) -> (step: IdentityStep)
    ensures
        storage_outcome(op, result_type, data@, now, step),
{
    let exists = result_type == EXISTS_OK && data.len() > 0 && data[0] == 1;
    let some = result_type == READ_OK && data.len() > 0;
    match op {
        PendingStorageOp::CheckIdentityDirectory { client_pid, user_id, key_path, cap_slots } =>
            continue_generate_after_directory_check(client_pid, user_id, key_path, exists, cap_slots, now),
        PendingStorageOp::CreateIdentityDirectory { client_pid, user_id, key_path, cap_slots, directories } => {
            if result_type == WRITE_OK {
                continue_create_directories(client_pid, user_id, key_path, directories, cap_slots, now)
            } else {
                reply(
                    client_pid,
                    cap_slots,
                    IdentityAnswer::GenerateNeuralKey(Err(key_storage_error("Failed to create identity directory"))),
                )
            }
        },
        PendingStorageOp::CheckKeyExists { client_pid, user_id, key_path, cap_slots } =>
            continue_generate_after_exists_check(client_pid, user_id, key_path, exists, cap_slots),
        PendingStorageOp::WriteKeyStoreContent { client_pid, user_id, path, result, json_bytes, cap_slots } =>
            handle_write_key_store_content(client_pid, user_id, path, result, json_bytes, cap_slots, result_type, now),
        PendingStorageOp::WriteKeyStoreInode { client_pid, result, cap_slots } =>
            handle_write_key_store_inode(client_pid, result, cap_slots, result_type),
        PendingStorageOp::GetIdentityKey { client_pid, cap_slots } => {
            if result_type == READ_OK {
                decode(RecordKind::KeyStore, data, PendingStorageOp::GetIdentityKey { client_pid, cap_slots })
            } else {
                reply(client_pid, cap_slots, IdentityAnswer::GetIdentityKey(Ok(None)))
            }
        },
        PendingStorageOp::ReadIdentityForRecovery { client_pid, user_id, key_path, shards, cap_slots } => {
            if some {
                decode(
                    RecordKind::IdentityPublicKey,
                    data,
                    PendingStorageOp::ReadIdentityForRecovery { client_pid, user_id, key_path, shards, cap_slots },
                )
            } else {
                reply(client_pid, cap_slots, IdentityAnswer::RecoverNeuralKey(Err(KeyFailure::IdentityKeyRequired)))
            }
        },
        PendingStorageOp::WriteRecoveredKeyStoreContent { client_pid, user_id, path, result, json_bytes, cap_slots } =>
            handle_write_recovered_content(client_pid, user_id, path, result, json_bytes, cap_slots, result_type, now),
        PendingStorageOp::WriteRecoveredKeyStoreInode { client_pid, result, cap_slots } =>
            handle_write_recovered_inode(client_pid, result, cap_slots, result_type),
        PendingStorageOp::ReadIdentityForMachine { client_pid, request, cap_slots } => {
            if some {
                decode(
                    RecordKind::IdentityPublicKey,
                    data,
                    PendingStorageOp::ReadIdentityForMachine { client_pid, request, cap_slots },
                )
            } else {
                reply(client_pid, cap_slots, IdentityAnswer::CreateMachineKey(Err(KeyFailure::IdentityKeyRequired)))
            }
        },
        PendingStorageOp::WriteMachineKeyContent { client_pid, user_id, path, record, json_bytes, cap_slots } =>
            handle_write_machine_key_content(client_pid, user_id, path, record, json_bytes, cap_slots, result_type, now),
        PendingStorageOp::WriteMachineKeyInode { client_pid, record, cap_slots } =>
            handle_write_machine_key_inode(client_pid, record, cap_slots, result_type),
        PendingStorageOp::ListMachineKeys { client_pid, user_id, cap_slots } =>
            handle_list_machine_keys(client_pid, user_id, cap_slots, result_type, data),
        PendingStorageOp::ReadMachineKey { client_pid, user_id, remaining_paths, records, cap_slots } => {
            if result_type == READ_OK {
                decode(
                    RecordKind::MachineKey,
                    data,
                    PendingStorageOp::ReadMachineKey { client_pid, user_id, remaining_paths, records, cap_slots },
                )
            } else {
                continue_machine_key_reads(client_pid, user_id, remaining_paths, records, cap_slots, None)
            }
        },
        PendingStorageOp::DeleteMachineKey { client_pid, user_id, machine_id, path, cap_slots } =>
            handle_delete_machine_key(client_pid, user_id, machine_id, path, cap_slots, result_type),
        PendingStorageOp::DeleteMachineKeyInode { client_pid, cap_slots } =>
            handle_delete_machine_key_inode(client_pid, cap_slots, result_type),
        PendingStorageOp::ReadMachineForRotate { client_pid, user_id, machine_id, cap_slots } => {
            if result_type == READ_OK {
                IdentityStep::Continue(
                    IdentityFlow::RotateAfterRead { client_pid, user_id, machine_id, data: copy_bytes(data), cap_slots },
                )
            } else {
                reply(client_pid, cap_slots, IdentityAnswer::RotateMachineKey(Err(KeyFailure::MachineKeyNotFound)))
            }
        },
        PendingStorageOp::WriteRotatedMachineKeyContent { client_pid, user_id, path, record, json_bytes, cap_slots } =>
            handle_write_rotated_content(client_pid, user_id, path, record, json_bytes, cap_slots, result_type, now),
        PendingStorageOp::WriteRotatedMachineKeyInode { client_pid, record, cap_slots } =>
            handle_write_rotated_inode(client_pid, record, cap_slots, result_type),
        PendingStorageOp::ReadSingleMachineKey { client_pid, cap_slots } => {
            if result_type == READ_OK {
                decode(RecordKind::MachineKey, data, PendingStorageOp::ReadSingleMachineKey { client_pid, cap_slots })
            } else {
                reply(client_pid, cap_slots, IdentityAnswer::GetMachineKey(Ok(None)))
            }
        },
        PendingStorageOp::ReadCredentialsForAttach { client_pid, user_id, email, cap_slots } => {
            if some {
                decode(
                    RecordKind::CredentialStore,
                    data,
                    PendingStorageOp::ReadCredentialsForAttach { client_pid, user_id, email, cap_slots },
                )
            } else {
                IdentityStep::Continue(
                    IdentityFlow::AttachEmailAfterRead { client_pid, user_id, email, existing: None, cap_slots },
                )
            }
        },
        PendingStorageOp::GetCredentials { client_pid, cap_slots } => {
            if some {
                decode(RecordKind::CredentialList, data, PendingStorageOp::GetCredentials { client_pid, cap_slots })
            } else {
                reply(client_pid, cap_slots, IdentityAnswer::GetCredentials(None))
            }
        },
        PendingStorageOp::ReadCredentialsForUnlink { client_pid, user_id, credential_type, cap_slots } => {
            if some {
                IdentityStep::Continue(
                    IdentityFlow::UnlinkAfterRead {
                        client_pid,
                        user_id,
                        credential_type,
                        data: copy_bytes(data),
                        cap_slots,
                    },
                )
            } else {
                reply(client_pid, cap_slots, IdentityAnswer::UnlinkCredential(Err(CredentialFailure::NotFound)))
            }
        },
        PendingStorageOp::WriteUnlinkedCredentialContent { client_pid, user_id, path, json_bytes, cap_slots } =>
            handle_write_unlinked_content(client_pid, user_id, path, json_bytes, cap_slots, result_type, now),
        PendingStorageOp::WriteUnlinkedCredentialInode { client_pid, cap_slots } =>
            handle_write_unlinked_inode(client_pid, cap_slots, result_type),
        PendingStorageOp::WriteEmailCredentialContent { client_pid, user_id, path, json_bytes, cap_slots } =>
            handle_write_email_cred_content(client_pid, user_id, path, json_bytes, cap_slots, result_type, now),
        PendingStorageOp::WriteEmailCredentialInode { client_pid, cap_slots } =>
            handle_write_email_cred_inode(client_pid, cap_slots, result_type),
        PendingStorageOp::ReadMachineKeyForZidLogin { client_pid, user_id, zid_endpoint, cap_slots } =>
            zid_login_step(client_pid, user_id, zid_endpoint, cap_slots, result_type, data),
        PendingStorageOp::WriteZidSessionContent { client_pid, user_id, tokens, json_bytes, cap_slots } =>
            IdentityStep::Continue(
                IdentityFlow::ZidSessionContentWritten { client_pid, user_id, tokens, json_bytes, cap_slots, result_type },
            ),
        PendingStorageOp::WriteZidSessionInode { client_pid, tokens, cap_slots } =>
            handle_write_zid_session_inode(client_pid, tokens, cap_slots, result_type),
        PendingStorageOp::ReadMachineKeyForZidEnroll { client_pid, user_id, zid_endpoint, cap_slots } =>
            zid_enroll_step(client_pid, user_id, zid_endpoint, cap_slots, result_type, data),
        PendingStorageOp::WriteZidEnrollSessionContent { client_pid, user_id, tokens, json_bytes, cap_slots } => {
            if result_type == WRITE_OK {
                let path = home(user_id, "/.zos/identity/zid_session.json");
                let key = storage_key("inode:", path.as_str());
                IdentityStep::Start {
                    call: VfsCall::Storage(StorageCall::Write { key, value: json_bytes }),
                    op: PendingStorageOp::WriteZidEnrollSessionInode { client_pid, tokens, cap_slots },
                }
            } else {
                reply(
                    client_pid,
                    cap_slots,
                    IdentityAnswer::ZidEnroll(Err(ZidFailure::EnrollmentFailed(string_from("Session write failed")))),
                )
            }
        },
        PendingStorageOp::WriteZidEnrollSessionInode { client_pid, tokens, cap_slots } =>
            handle_write_zid_enroll_session_inode(client_pid, tokens, cap_slots, result_type),
        PendingStorageOp::ReadIdentityPreferences { client_pid, user_id, cap_slots } => IdentityStep::Continue(
            IdentityFlow::PreferencesRead { client_pid, user_id, cap_slots, result_type, data: copy_bytes(data) },
        ),
        PendingStorageOp::ReadPreferencesForUpdate { client_pid, user_id, new_key_scheme, cap_slots } => {
            let existing = if some {
                Some(copy_bytes(data))
            } else {
                None
            };
            IdentityStep::Continue(
                IdentityFlow::UpdatePreferences { client_pid, user_id, existing, new_key_scheme, cap_slots },
            )
        },
        PendingStorageOp::WritePreferencesContent { client_pid, path, json_bytes, cap_slots, .. } => {
            if result_type == WRITE_OK {
                let key = storage_key("inode:", path.as_str());
                IdentityStep::Start {
                    call: VfsCall::Storage(StorageCall::Write { key, value: json_bytes }),
                    op: PendingStorageOp::WritePreferencesInode { client_pid, cap_slots },
                }
            } else {
                reply(
                    client_pid,
                    cap_slots,
                    IdentityAnswer::SetDefaultKeyScheme(Err(key_storage_error("Content write failed"))),
                )
            }
        },
        PendingStorageOp::WritePreferencesInode { client_pid, cap_slots } => IdentityStep::Continue(
            IdentityFlow::PreferencesInodeWritten { client_pid, cap_slots, result_type },
        ),
    }
}

// ============================================================================
// Going on after the host decoded a record
// ============================================================================

/// What the host's decoding of a record (its outcome, or the parse error's
/// text) leads to for the operation that awaited it; operations that await
/// no record do nothing.
pub open spec fn decoded_outcome(op: PendingStorageOp, decoded: Result<Vec<u8>, String>, step: IdentityStep) -> bool {
    match op {
        PendingStorageOp::GetIdentityKey { client_pid, cap_slots } => match decoded {
            Ok(store) => answers(
                step,
                client_pid,
                cap_slots,
                |a: IdentityAnswer| a == IdentityAnswer::GetIdentityKey(Ok(Some(store))),
            ),
            Err(e) => answers(
                step,
                client_pid,
                cap_slots,
                |a: IdentityAnswer| a matches IdentityAnswer::GetIdentityKey(Err(f)) && key_error(f, "Parse failed: "@ + e@),
            ),
        },
        PendingStorageOp::ReadIdentityForRecovery { client_pid, user_id, key_path, shards, cap_slots } => match decoded {
            Ok(key) => step == IdentityStep::Continue(
                IdentityFlow::RecoverAfterIdentityRead {
                    client_pid,
                    user_id,
                    key_path,
                    shards,
                    identity_public_key: key,
                    cap_slots,
                },
            ),
            Err(_) => answers(
                step,
                client_pid,
                cap_slots,
                |a: IdentityAnswer| a matches IdentityAnswer::RecoverNeuralKey(Err(f)) && key_error(f, "Corrupted identity key store"@),
            ),
        },
        PendingStorageOp::ReadIdentityForMachine { client_pid, request, cap_slots } => match decoded {
            Ok(key) => step == IdentityStep::Continue(
                IdentityFlow::CreateMachineAfterIdentityRead { client_pid, request, identity_public_key: key, cap_slots },
            ),
            Err(_) => answers(
                step,
                client_pid,
                cap_slots,
                |a: IdentityAnswer| a matches IdentityAnswer::CreateMachineKey(Err(f)) && key_error(f, "Corrupted identity key store"@),
            ),
        },
        PendingStorageOp::ReadMachineKey { client_pid, user_id, remaining_paths, records, cap_slots } =>
            reads_machine_keys(
            step,
            client_pid,
            user_id,
            remaining_paths,
            records,
            cap_slots,
            match decoded {
                Ok(r) => Some(r),
                Err(_) => None,
            },
        ),
        PendingStorageOp::ReadSingleMachineKey { client_pid, cap_slots } => match decoded {
            Ok(record) => answers(
                step,
                client_pid,
                cap_slots,
                |a: IdentityAnswer| a == IdentityAnswer::GetMachineKey(Ok(Some(record))),
            ),
            Err(e) => answers(
                step,
                client_pid,
                cap_slots,
                |a: IdentityAnswer| a matches IdentityAnswer::GetMachineKey(Err(f)) && key_error(f, "Parse failed: "@ + e@),
            ),
        },
        PendingStorageOp::ReadCredentialsForAttach { client_pid, user_id, email, cap_slots } => step
            == IdentityStep::Continue(
            IdentityFlow::AttachEmailAfterRead {
                client_pid,
                user_id,
                email,
                existing: match decoded {
                    Ok(store) => Some(store),
                    Err(_) => None,
                },
                cap_slots,
            },
        ),
        PendingStorageOp::GetCredentials { client_pid, cap_slots } => answers(
            step,
            client_pid,
            cap_slots,
            |a: IdentityAnswer| a == IdentityAnswer::GetCredentials(
                match decoded {
                    Ok(list) => Some(list),
                    Err(_) => None,
                },
            ),
        ),
        _ => step is Idle,
    }
}

fn parse_failed(e: &String) -> (f: KeyFailure)
    ensures
        key_error(f, "Parse failed: "@ + e@),
{
    let mut m = string_from("Parse failed: ");
    push_str(&mut m, e.as_str());
    KeyFailure::StorageError(m)
}

/// Go on after the host decoded the record `op` awaited (see
/// `decoded_outcome`).
pub fn dispatch_decoded(op: PendingStorageOp, decoded: Result<Vec<u8>, String>) -> (step: IdentityStep)
    ensures
        decoded_outcome(op, decoded, step),
{
    match op {
        PendingStorageOp::GetIdentityKey { client_pid, cap_slots } => match decoded {
            Ok(store) => reply(client_pid, cap_slots, IdentityAnswer::GetIdentityKey(Ok(Some(store)))),
            Err(e) => reply(client_pid, cap_slots, IdentityAnswer::GetIdentityKey(Err(parse_failed(&e)))),
        },
        PendingStorageOp::ReadIdentityForRecovery { client_pid, user_id, key_path, shards, cap_slots } => match decoded {
            Ok(key) => IdentityStep::Continue(
                IdentityFlow::RecoverAfterIdentityRead {
                    client_pid,
                    user_id,
                    key_path,
                    shards,
                    identity_public_key: key,
                    cap_slots,
                },
            ),
            Err(_) => reply(
                client_pid,
                cap_slots,
                IdentityAnswer::RecoverNeuralKey(Err(key_storage_error("Corrupted identity key store"))),
            ),
        },
        PendingStorageOp::ReadIdentityForMachine { client_pid, request, cap_slots } => match decoded {
            Ok(key) => IdentityStep::Continue(
                IdentityFlow::CreateMachineAfterIdentityRead { client_pid, request, identity_public_key: key, cap_slots },
            ),
            Err(_) => reply(
                client_pid,
                cap_slots,
                IdentityAnswer::CreateMachineKey(Err(key_storage_error("Corrupted identity key store"))),
            ),
        },
        PendingStorageOp::ReadMachineKey { client_pid, user_id, remaining_paths, records, cap_slots } => {
            let record = match decoded {
                Ok(r) => Some(r),
                Err(_) => None,
            };
            continue_machine_key_reads(client_pid, user_id, remaining_paths, records, cap_slots, record)
        },
        PendingStorageOp::ReadSingleMachineKey { client_pid, cap_slots } => match decoded {
            Ok(record) => reply(client_pid, cap_slots, IdentityAnswer::GetMachineKey(Ok(Some(record)))),
            Err(e) => reply(client_pid, cap_slots, IdentityAnswer::GetMachineKey(Err(parse_failed(&e)))),
        },
        PendingStorageOp::ReadCredentialsForAttach { client_pid, user_id, email, cap_slots } => {
            let existing = match decoded {
                Ok(store) => Some(store),
                Err(_) => None,
            };
            IdentityStep::Continue(IdentityFlow::AttachEmailAfterRead { client_pid, user_id, email, existing, cap_slots })
        },
        PendingStorageOp::GetCredentials { client_pid, cap_slots } => {
            let list = match decoded {
                Ok(list) => Some(list),
                Err(_) => None,
            };
            reply(client_pid, cap_slots, IdentityAnswer::GetCredentials(list))
        },
        _ => IdentityStep::Idle,
    }
}

// ============================================================================
// Network operations
// ============================================================================

/// The key material an enrollment carries through its network round trips.
#[derive(Clone, Debug)]
pub struct EnrollKeys {
    pub machine_id: u128,
    pub identity_signing_public_key: [u8; 32],
    pub machine_signing_public_key: [u8; 32],
    pub machine_encryption_public_key: [u8; 32],
    pub machine_signing_sk: [u8; 32],
    pub machine_encryption_sk: [u8; 32],
}

/// A request to the ZID server awaiting its response.
#[derive(Debug)]
pub enum PendingNetworkOp {
    /// Asked for a login challenge, to sign with `machine_key` (encoded).
    RequestZidChallenge {
        client_pid: u32,
        user_id: u128,
        zid_endpoint: String,
        machine_key: Vec<u8>,
        cap_slots: Vec<u32>,
    },
    SubmitZidLogin { client_pid: u32, user_id: u128, zid_endpoint: String, cap_slots: Vec<u32> },
    SubmitEmailToZid { client_pid: u32, user_id: u128, email: String, cap_slots: Vec<u32> },
    SubmitZidEnroll {
        client_pid: u32,
        user_id: u128,
        zid_endpoint: String,
        cap_slots: Vec<u32>,
        identity_id: u128,
        keys: EnrollKeys,
    },
    RequestZidChallengeAfterEnroll {
        client_pid: u32,
        user_id: u128,
        zid_endpoint: String,
        cap_slots: Vec<u32>,
        keys: EnrollKeys,
    },
    SubmitZidLoginAfterEnroll {
        client_pid: u32,
        user_id: u128,
        zid_endpoint: String,
        cap_slots: Vec<u32>,
        keys: EnrollKeys,
    },
}

/// A network result for the host: the request it answers, and the body
/// to decode as the server's response, or `None` when the fetch failed.
#[derive(Debug)]
pub enum NetworkOutcome {
    /// A frame too short to read, or a result nobody awaits.
    Idle,
    Response { op: PendingNetworkOp, body: Option<Vec<u8>> },
}

// ============================================================================
// The service
// ============================================================================

/// The identity service: whether it registered with init, and the storage
/// and network operations awaiting results, by request id.
pub struct IdentityService {
    registered: bool,
    pending_ops: BTreeMap<u32, PendingStorageOp>,
    pending_net_ops: BTreeMap<u32, PendingNetworkOp>,
}

/// The service's state.
pub struct IdentityServiceView {
    pub registered: bool,
    pub pending: Map<u32, PendingStorageOp>,
    pub pending_net: Map<u32, PendingNetworkOp>,
}

impl View for IdentityService {
    type V = IdentityServiceView;

    closed spec fn view(&self) -> IdentityServiceView {
        IdentityServiceView {
            registered: self.registered,
            pending: self.pending_ops@,
            pending_net: self.pending_net_ops@,
        }
    }
}

/// A storage result frame `msg` handled at `now` takes the service from
/// `s` to `t` with `step`: frames shorter than their header and results
/// nobody awaits change nothing; otherwise the awaiting operation is
/// removed and goes on as `storage_outcome` says.
pub open spec fn handles_storage_result(s: IdentityServiceView, msg: Seq<u8>, now: u64, t: IdentityServiceView, step: IdentityStep) -> bool {
    &&& t.registered == s.registered
    &&& t.pending_net == s.pending_net
    &&& if msg.len() < 9 {
        t.pending == s.pending && step is Idle
    } else {
        let id = le32_value(msg[0], msg[1], msg[2], msg[3]);
        if !s.pending.contains_key(id) {
            t.pending == s.pending && step is Idle
        } else {
            &&& t.pending == s.pending.remove(id)
            &&& storage_outcome(s.pending[id], msg[4], frame_data(msg), now, step)
        }
    }
}

/// The eight little-endian bytes of a 64-bit value.
pub open spec fn le64_bytes(v: u64) -> Seq<u8> {
    le32_bytes((v % 0x1_0000_0000) as u32) + le32_bytes((v / 0x1_0000_0000) as u32)
}

/// The registration message: the name's length, the name, and the input
/// endpoint's slot (1 when the process has none) as eight little-endian
/// bytes.
pub open spec fn identity_registration_bytes(input_endpoint: Option<u32>) -> Seq<u8> {
    let slot: u64 = match input_endpoint {
        Some(s) => s as u64,
        None => 1,
    };
    seq![16u8] + "identity_service"@.map_values(|c: char| c as u8) + le64_bytes(slot)
}

fn push_name(data: &mut Vec<u8>)
    ensures
        final(data)@ == old(data)@ + "identity_service"@.map_values(|c: char| c as u8),
{
    proof {
        reveal_strlit("identity_service");
    }
    let name: [u8; 16] = [
        105, 100, 101, 110, 116, 105, 116, 121, 95, 115, 101, 114, 118, 105, 99, 101,
    ];
    append_bytes(data, &name);
    assert(name@ =~= "identity_service"@.map_values(|c: char| c as u8));
}

/// `Network fetch failed: <code>`.
pub open spec fn fetch_failure_text(code: u32) -> Seq<char> {
    "Network fetch failed: "@ + decimal(code as nat)
}

fn fetch_failure(code: u32) -> (e: AppError)
    ensures
        e matches AppError::IpcError(m) && m@ == fetch_failure_text(code),
{
    let mut m = string_from("Network fetch failed: ");
    push_decimal(&mut m, code as u128);
    AppError::IpcError(m)
}

impl IdentityService {
    /// A service that has not registered and awaits nothing.
    pub fn new() -> (s: Self)
        ensures
            !s@.registered,
            s@.pending == Map::<u32, PendingStorageOp>::empty(),
            s@.pending_net == Map::<u32, PendingNetworkOp>::empty(),
    {
        IdentityService { registered: false, pending_ops: BTreeMap::new(), pending_net_ops: BTreeMap::new() }
    }

    /// Each turn: the message to register with init under
    /// "identity_service", until the registration was sent.
    pub fn registration(&self, input_endpoint: Option<u32>) -> (msg: Option<Vec<u8>>)
        ensures
            self@.registered ==> msg is None,
            !self@.registered ==> (msg matches Some(m) && m@ == identity_registration_bytes(input_endpoint)),
    {
        if self.registered {
            return None;
        }
        let slot: u64 = match input_endpoint {
            Some(s) => s as u64,
            None => 1,
        };
        let mut data: Vec<u8> = Vec::new();
        data.push(16u8);
        push_name(&mut data);
        push_u32_le(&mut data, (slot % 0x1_0000_0000) as u32);
        push_u32_le(&mut data, (slot / 0x1_0000_0000) as u32);
        assert(data@ =~= identity_registration_bytes(input_endpoint));
        Some(data)
    }

    /// The registration message was sent.
    pub fn registration_sent(&mut self)
        ensures
            final(self)@.registered,
            final(self)@.pending == old(self)@.pending,
            final(self)@.pending_net == old(self)@.pending_net,
    {
        self.registered = true;
    }

    /// Record the host's outcome of starting a storage call: the request id
    /// keys the operation that awaits it, and a failure to start is
    /// reported.
    pub fn storage_started(&mut self, call: &VfsCall, started: Result<u32, u32>, op: PendingStorageOp) -> (r: Result<(), AppError>)
        ensures
            final(self)@.registered == old(self)@.registered,
            final(self)@.pending_net == old(self)@.pending_net,
            match started {
                Ok(id) => r is Ok && final(self)@.pending == old(self)@.pending.insert(id, op),
                Err(code) => final(self)@.pending == old(self)@.pending && (r matches Err(
                    AppError::IpcError(m),
                ) && m@ == failure_text(vfs_verb(*call), code)),
            },
    {
        broadcast use vstd::laws_cmp::group_laws_cmp, vstd::std_specs::btree::group_btree_axioms;

        match started {
            Ok(id) => {
                self.pending_ops.insert(id, op);
                Ok(())
            },
            Err(code) => match call {
                VfsCall::Storage(c) => Err(storage_failure(c, code)),
                VfsCall::WriteInode { key, .. } => {
                    let c = StorageCall::Write { key: string_from(key.as_str()), value: Vec::new() };
                    Err(storage_failure(&c, code))
                },
            },
        }
    }

    /// Record the host's outcome of starting a network fetch.
    pub fn fetch_started(&mut self, started: Result<u32, u32>, op: PendingNetworkOp) -> (r: Result<(), AppError>)
        ensures
            final(self)@.registered == old(self)@.registered,
            final(self)@.pending == old(self)@.pending,
            match started {
                Ok(id) => r is Ok && final(self)@.pending_net == old(self)@.pending_net.insert(id, op),
                Err(code) => final(self)@.pending_net == old(self)@.pending_net && (r matches Err(
                    AppError::IpcError(m),
                ) && m@ == fetch_failure_text(code)),
            },
    {
        broadcast use vstd::laws_cmp::group_laws_cmp, vstd::std_specs::btree::group_btree_axioms;

        match started {
            Ok(id) => {
                self.pending_net_ops.insert(id, op);
                Ok(())
            },
            Err(code) => Err(fetch_failure(code)),
        }
    }

    /// A storage result frame. Frames shorter than their header and results
    /// nobody awaits are ignored; otherwise the awaiting operation is
    /// removed and goes on as `storage_outcome` says, at time `now`.
    pub fn handle_storage_result(&mut self, msg: &[u8], now: u64) -> (step: IdentityStep)
        ensures
            handles_storage_result(old(self)@, msg@, now, final(self)@, step),
    {
        broadcast use vstd::laws_cmp::group_laws_cmp, vstd::std_specs::btree::group_btree_axioms;

        let frame = match parse_result_frame(msg) {
            Some(f) => f,
            None => {
                return IdentityStep::Idle;
            },
        };
        let op = match self.pending_ops.remove(&frame.request_id) {
            Some(op) => op,
            None => {
                assert(self.pending_ops@ =~= old(self).pending_ops@);
                return IdentityStep::Idle;
            },
        };
        dispatch_storage_result(op, frame.result_type, frame.data.as_slice(), now)
    }

    /// A network result frame. Frames shorter than their header and results
    /// nobody awaits are ignored; otherwise the awaiting request is removed
    /// and handed back with the body to decode: the frame's data when the
    /// fetch succeeded (result 0) with some data, and nothing otherwise.
    pub fn handle_net_result(&mut self, msg: &[u8]) -> (out: NetworkOutcome)
        ensures
            final(self)@.registered == old(self)@.registered,
            final(self)@.pending == old(self)@.pending,
            msg@.len() < 9 ==> final(self)@.pending_net == old(self)@.pending_net && out is Idle,
            msg@.len() >= 9 ==> {
                let id = le32_value(msg@[0], msg@[1], msg@[2], msg@[3]);
                let data = frame_data(msg@);
                if !old(self)@.pending_net.contains_key(id) {
                    final(self)@.pending_net == old(self)@.pending_net && out is Idle
                } else {
                    &&& final(self)@.pending_net == old(self)@.pending_net.remove(id)
                    &&& out matches NetworkOutcome::Response { op, body } && op == old(self)@.pending_net[id]
                        && if msg@[4] == 0 && data.len() > 0 {
                        body matches Some(b) && b@ == data
                    } else {
                        body is None
                    }
                }
            },
    {
        broadcast use vstd::laws_cmp::group_laws_cmp, vstd::std_specs::btree::group_btree_axioms;

        let frame = match parse_result_frame(msg) {
            Some(f) => f,
            None => {
                return NetworkOutcome::Idle;
            },
        };
        let op = match self.pending_net_ops.remove(&frame.request_id) {
            Some(op) => op,
            None => {
                assert(self.pending_net_ops@ =~= old(self).pending_net_ops@);
                return NetworkOutcome::Idle;
            },
        };
        let body = if frame.result_type == 0 && frame.data.len() > 0 {
            Some(frame.data)
        } else {
            None
        };
        NetworkOutcome::Response { op, body }
    }
}

// ============================================================================
// Laws
// ============================================================================

/// The client an operation works for.
pub open spec fn client_of(op: PendingStorageOp) -> u32 {
    match op {
        PendingStorageOp::CheckIdentityDirectory { client_pid, .. } => client_pid,
        PendingStorageOp::CreateIdentityDirectory { client_pid, .. } => client_pid,
        PendingStorageOp::CheckKeyExists { client_pid, .. } => client_pid,
        PendingStorageOp::WriteKeyStoreContent { client_pid, .. } => client_pid,
        PendingStorageOp::WriteKeyStoreInode { client_pid, .. } => client_pid,
        PendingStorageOp::GetIdentityKey { client_pid, .. } => client_pid,
        PendingStorageOp::ReadIdentityForRecovery { client_pid, .. } => client_pid,
        PendingStorageOp::WriteRecoveredKeyStoreContent { client_pid, .. } => client_pid,
        PendingStorageOp::WriteRecoveredKeyStoreInode { client_pid, .. } => client_pid,
        PendingStorageOp::ReadIdentityForMachine { client_pid, .. } => client_pid,
        PendingStorageOp::WriteMachineKeyContent { client_pid, .. } => client_pid,
        PendingStorageOp::WriteMachineKeyInode { client_pid, .. } => client_pid,
        PendingStorageOp::ListMachineKeys { client_pid, .. } => client_pid,
        PendingStorageOp::ReadMachineKey { client_pid, .. } => client_pid,
        PendingStorageOp::DeleteMachineKey { client_pid, .. } => client_pid,
        PendingStorageOp::DeleteMachineKeyInode { client_pid, .. } => client_pid,
        PendingStorageOp::ReadMachineForRotate { client_pid, .. } => client_pid,
        PendingStorageOp::WriteRotatedMachineKeyContent { client_pid, .. } => client_pid,
        PendingStorageOp::WriteRotatedMachineKeyInode { client_pid, .. } => client_pid,
        PendingStorageOp::ReadSingleMachineKey { client_pid, .. } => client_pid,
        PendingStorageOp::ReadCredentialsForAttach { client_pid, .. } => client_pid,
        PendingStorageOp::GetCredentials { client_pid, .. } => client_pid,
        PendingStorageOp::ReadCredentialsForUnlink { client_pid, .. } => client_pid,
        PendingStorageOp::WriteUnlinkedCredentialContent { client_pid, .. } => client_pid,
        PendingStorageOp::WriteUnlinkedCredentialInode { client_pid, .. } => client_pid,
        PendingStorageOp::WriteEmailCredentialContent { client_pid, .. } => client_pid,
        PendingStorageOp::WriteEmailCredentialInode { client_pid, .. } => client_pid,
        PendingStorageOp::ReadMachineKeyForZidLogin { client_pid, .. } => client_pid,
        PendingStorageOp::WriteZidSessionContent { client_pid, .. } => client_pid,
        PendingStorageOp::WriteZidSessionInode { client_pid, .. } => client_pid,
        PendingStorageOp::ReadMachineKeyForZidEnroll { client_pid, .. } => client_pid,
        PendingStorageOp::WriteZidEnrollSessionContent { client_pid, .. } => client_pid,
        PendingStorageOp::WriteZidEnrollSessionInode { client_pid, .. } => client_pid,
        PendingStorageOp::ReadIdentityPreferences { client_pid, .. } => client_pid,
        PendingStorageOp::ReadPreferencesForUpdate { client_pid, .. } => client_pid,
        PendingStorageOp::WritePreferencesContent { client_pid, .. } => client_pid,
        PendingStorageOp::WritePreferencesInode { client_pid, .. } => client_pid,
    }
}

/// The capability slots an operation's answer goes through.
pub open spec fn slots_of(op: PendingStorageOp) -> Vec<u32> {
    match op {
        PendingStorageOp::CheckIdentityDirectory { cap_slots, .. } => cap_slots,
        PendingStorageOp::CreateIdentityDirectory { cap_slots, .. } => cap_slots,
        PendingStorageOp::CheckKeyExists { cap_slots, .. } => cap_slots,
        PendingStorageOp::WriteKeyStoreContent { cap_slots, .. } => cap_slots,
        PendingStorageOp::WriteKeyStoreInode { cap_slots, .. } => cap_slots,
        PendingStorageOp::GetIdentityKey { cap_slots, .. } => cap_slots,
        PendingStorageOp::ReadIdentityForRecovery { cap_slots, .. } => cap_slots,
        PendingStorageOp::WriteRecoveredKeyStoreContent { cap_slots, .. } => cap_slots,
        PendingStorageOp::WriteRecoveredKeyStoreInode { cap_slots, .. } => cap_slots,
        PendingStorageOp::ReadIdentityForMachine { cap_slots, .. } => cap_slots,
        PendingStorageOp::WriteMachineKeyContent { cap_slots, .. } => cap_slots,
        PendingStorageOp::WriteMachineKeyInode { cap_slots, .. } => cap_slots,
        PendingStorageOp::ListMachineKeys { cap_slots, .. } => cap_slots,
        PendingStorageOp::ReadMachineKey { cap_slots, .. } => cap_slots,
        PendingStorageOp::DeleteMachineKey { cap_slots, .. } => cap_slots,
        PendingStorageOp::DeleteMachineKeyInode { cap_slots, .. } => cap_slots,
        PendingStorageOp::ReadMachineForRotate { cap_slots, .. } => cap_slots,
        PendingStorageOp::WriteRotatedMachineKeyContent { cap_slots, .. } => cap_slots,
        PendingStorageOp::WriteRotatedMachineKeyInode { cap_slots, .. } => cap_slots,
        PendingStorageOp::ReadSingleMachineKey { cap_slots, .. } => cap_slots,
        PendingStorageOp::ReadCredentialsForAttach { cap_slots, .. } => cap_slots,
        PendingStorageOp::GetCredentials { cap_slots, .. } => cap_slots,
        PendingStorageOp::ReadCredentialsForUnlink { cap_slots, .. } => cap_slots,
        PendingStorageOp::WriteUnlinkedCredentialContent { cap_slots, .. } => cap_slots,
        PendingStorageOp::WriteUnlinkedCredentialInode { cap_slots, .. } => cap_slots,
        PendingStorageOp::WriteEmailCredentialContent { cap_slots, .. } => cap_slots,
        PendingStorageOp::WriteEmailCredentialInode { cap_slots, .. } => cap_slots,
        PendingStorageOp::ReadMachineKeyForZidLogin { cap_slots, .. } => cap_slots,
        PendingStorageOp::WriteZidSessionContent { cap_slots, .. } => cap_slots,
        PendingStorageOp::WriteZidSessionInode { cap_slots, .. } => cap_slots,
        PendingStorageOp::ReadMachineKeyForZidEnroll { cap_slots, .. } => cap_slots,
        PendingStorageOp::WriteZidEnrollSessionContent { cap_slots, .. } => cap_slots,
        PendingStorageOp::WriteZidEnrollSessionInode { cap_slots, .. } => cap_slots,
        PendingStorageOp::ReadIdentityPreferences { cap_slots, .. } => cap_slots,
        PendingStorageOp::ReadPreferencesForUpdate { cap_slots, .. } => cap_slots,
        PendingStorageOp::WritePreferencesContent { cap_slots, .. } => cap_slots,
        PendingStorageOp::WritePreferencesInode { cap_slots, .. } => cap_slots,
    }
}

/// Whatever a storage result leads to stays with the client that asked: an
/// answer goes to that client through its capability slots, a next
/// operation works for the same client with the same slots, and a record
/// to decode is awaited by the very same operation.
pub proof fn lemma_results_stay_with_client(op: PendingStorageOp, result_type: u8, data: Seq<u8>, now: u64, step: IdentityStep)
    requires
        storage_outcome(op, result_type, data, now, step),
    ensures
        step matches IdentityStep::Reply(r) ==> r.to_pid == client_of(op) && r.cap_slots == slots_of(op),
        step matches IdentityStep::Start { op: next, .. } ==> client_of(next) == client_of(op) && slots_of(next)
            == slots_of(op),
        step matches IdentityStep::Decode { op: o, .. } ==> o == op,
{
}

/// A generated neural key reaches its client only after both the key
/// store's content and its inode were written: a successful content write
/// leads to the inode write, and a successful inode write to the answer
/// with the result.
pub proof fn lemma_key_store_written_then_answered(
    client_pid: u32,
    user_id: u128,
    path: String,
    result: Vec<u8>,
    json_bytes: Vec<u8>,
    cap_slots: Vec<u32>,
    data1: Seq<u8>,
    now: u64,
    step1: IdentityStep,
    data2: Seq<u8>,
    step2: IdentityStep,
)
    requires
        storage_outcome(
            (PendingStorageOp::WriteKeyStoreContent { client_pid, user_id, path, result, json_bytes, cap_slots }),
            WRITE_OK,
            data1,
            now,
            step1,
        ),
        step1 matches IdentityStep::Start { op: next, .. } && storage_outcome(next, WRITE_OK, data2, now, step2),
    ensures
        step1 matches IdentityStep::Start { call, .. } && owned_inode_write(call, path@, user_id, false, json_bytes@.len() as int, now),
        answers(step2, client_pid, cap_slots, |a: IdentityAnswer| a == IdentityAnswer::GenerateNeuralKey(Ok(result))),
{
}

/// Whatever the host's decoding of a record leads to stays with the client
/// that asked, as for storage results.
pub proof fn lemma_decoded_stays_with_client(op: PendingStorageOp, decoded: Result<Vec<u8>, String>, step: IdentityStep)
    requires
        decoded_outcome(op, decoded, step),
    ensures
        step matches IdentityStep::Reply(r) ==> r.to_pid == client_of(op) && r.cap_slots == slots_of(op),
        step matches IdentityStep::Start { op: next, .. } ==> client_of(next) == client_of(op) && slots_of(next)
            == slots_of(op),
{
}

proof fn lemma_decimal_has_no_slash(n: nat)
    ensures
        forall|j: int| 0 <= j < decimal(n).len() ==> decimal(n)[j] != '/',
    decreases n,
{
    if n >= 10 {
        lemma_decimal_has_no_slash(n / 10);
        assert forall|j: int| 0 <= j < decimal(n).len() implies decimal(n)[j] != '/' by {
            if j < decimal(n / 10).len() {
                assert(decimal(n)[j] == decimal(n / 10)[j]);
            }
        }
    }
}

proof fn lemma_parent_of_child(p: Seq<char>, seg: Seq<char>)
    requires
        p.len() > 0,
        forall|j: int| 0 <= j < seg.len() ==> seg[j] != '/',
    ensures
        parent_of(p + seq!['/'] + seg) == p,
    decreases seg.len(),
{
    let path = p + seq!['/'] + seg;
    crate::vfs_service::lemma_last_slash(path);
    let i = p.len() as int;
    assert(path[i] == '/');
    assert forall|j: int| i < j < path.len() implies path[j] != '/' by {
        assert(path[j] == seg[j - i - 1]);
    }
    match last_slash(path) {
        Some(k) => {
            assert(k == i);
            assert(path.take(i) =~= p);
        },
        None => {
            assert(false);
        },
    }
}

/// Each of the identity's directories is created after the one that holds
/// it: the first lies in `/home`, and each next one in the one before.
pub proof fn lemma_identity_directories_nest(user_id: u128)
    ensures
        parent_of(identity_directories_spec(user_id)[0]) == "/home"@,
        forall|i: int| 0 < i < 4 ==> parent_of(#[trigger] identity_directories_spec(user_id)[i])
            == identity_directories_spec(user_id)[i - 1],
{
    let d = identity_directories_spec(user_id);
    lemma_decimal_has_no_slash(user_id as nat);
    reveal_strlit("/home/");
    reveal_strlit("/home");
    reveal_strlit("");
    reveal_strlit("/.zos");
    reveal_strlit("/.zos/identity");
    reveal_strlit("/.zos/identity/machine");
    let dec = decimal(user_id as nat);
    assert(d[0] =~= "/home"@ + seq!['/'] + dec);
    lemma_parent_of_child("/home"@, dec);
    let zos = seq!['.', 'z', 'o', 's'];
    assert(d[1] =~= d[0] + seq!['/'] + zos);
    lemma_parent_of_child(d[0], zos);
    let identity = seq!['i', 'd', 'e', 'n', 't', 'i', 't', 'y'];
    assert(d[2] =~= d[1] + seq!['/'] + identity);
    lemma_parent_of_child(d[1], identity);
    let machine = seq!['m', 'a', 'c', 'h', 'i', 'n', 'e'];
    assert(d[3] =~= d[2] + seq!['/'] + machine);
    lemma_parent_of_child(d[2], machine);
}

/// The client is told the identity key that is stored: the answer's
/// identity signing key is the key store's, in `0x` hex, and its machine
/// keys are the store's zero placeholders.
pub proof fn lemma_answer_matches_store(
    user_id: u128,
    d: DerivedIdentity,
    created_at: u64,
    r: NeuralKeyRecord,
    k: KeyStoreRecord,
)
    requires
        neural_key_records_spec(user_id, d, created_at, r, k),
    ensures
        r.identity_signing_pub_key@ == hex_key(k.identity_signing_public_key@),
        r.machine_signing_pub_key@ == hex_key(k.machine_signing_public_key@),
        r.machine_encryption_pub_key@ == hex_key(k.machine_encryption_public_key@),
        r.created_at == k.created_at,
{
}

/// Each storage result is acted on once: handing the service the same
/// result frame again, with nothing started in between, does nothing.
pub proof fn lemma_result_acted_on_once(
    s0: IdentityServiceView,
    msg: Seq<u8>,
    now: u64,
    s1: IdentityServiceView,
    step1: IdentityStep,
    later: u64,
    s2: IdentityServiceView,
    step2: IdentityStep,
)
    requires
        handles_storage_result(s0, msg, now, s1, step1),
        handles_storage_result(s1, msg, later, s2, step2),
    ensures
        step2 is Idle,
        s2.pending == s1.pending,
{
}

} // verus!
