//! Decisions of the identity service that stand on their own: reading back
//! machine-key lookups, walking the machine-key listing, and building the
//! paths and request bodies of the ZID login and enrollment flows.

use vstd::prelude::*;

use crate::crypto::{
    base64_decode, base64_decode_spec, bytes_to_hex, format_uuid, hex32, hex_string,
    sign_challenge, signature_spec, uuid_string,
};
use crate::service::{
    find_chars, json_string_list, parse_string_list, strings_view, EXISTS_OK, LIST_OK, NOT_FOUND,
    READ_OK,
};
use crate::text::{chars_of, push_str, string_from, string_push};
use crate::wire::append_bytes;

verus! {

// ============================================================================
// Reading machine keys for the ZID flows
// ============================================================================

/// What a machine-key lookup for a ZID login gave: the listing of the
/// machine-key directory, or the stored record of one machine key.
#[derive(Debug)]
pub enum ZidLoginReadResult {
    PathList {
        paths: Vec<String>,
        client_pid: u32,
        user_id: u128,
        zid_endpoint: String,
        cap_slots: Vec<u32>,
    },
    MachineKeyData {
        data: Vec<u8>,
        client_pid: u32,
        user_id: u128,
        zid_endpoint: String,
        cap_slots: Vec<u32>,
    },
}

/// What a machine-key lookup for a ZID enrollment gave (as for a login).
#[derive(Debug)]
pub enum ZidEnrollReadResult {
    PathList {
        paths: Vec<String>,
        client_pid: u32,
        user_id: u128,
        zid_endpoint: String,
        cap_slots: Vec<u32>,
    },
    MachineKeyData {
        data: Vec<u8>,
        client_pid: u32,
        user_id: u128,
        zid_endpoint: String,
        cap_slots: Vec<u32>,
    },
}

/// The error a ZID flow answers its client with.
#[derive(Clone, Debug)]
pub enum ZidFailure {
    MachineKeyNotFound,
    NetworkError(String),
    InvalidChallenge,
    AuthenticationFailed,
    EnrollmentFailed(String),
}

/// The paths a listing's data holds: its JSON list of strings, and none
/// when the data is empty or does not parse.
pub open spec fn listed_paths(data: Seq<u8>) -> Seq<Seq<char>> {
    if data.len() > 0 {
        match json_string_list(data) {
            Ok(ps) => ps,
            Err(_) => Seq::empty(),
        }
    } else {
        Seq::empty()
    }
}

/// How a machine-key lookup result reads: a listing gives its paths, a
/// read with data gives the data, a missing key means no machine key, and
/// anything else is a storage failure.
pub open spec fn machine_read_kind(result_type: u8, data: Seq<u8>) -> int {
    if result_type == LIST_OK {
        0
    } else if result_type == READ_OK && data.len() > 0 {
        1
    } else if result_type == NOT_FOUND {
        2
    } else {
        3
    }
}

/// The failure when a lookup found no machine key or the storage failed
/// (see `machine_read_kind`).
pub open spec fn machine_read_failure(f: ZidFailure, result_type: u8) -> bool {
    if result_type == NOT_FOUND {
        f is MachineKeyNotFound
    } else {
        f matches ZidFailure::NetworkError(m) && m@ == "Storage read failed"@
    }
}

pub(crate) fn listed_paths_exec(data: &[u8]) -> (paths: Vec<String>)
    ensures
        strings_view(paths@) == listed_paths(data@),
{
    if data.len() > 0 {
        match parse_string_list(data) {
            Ok(ps) => ps,
            Err(_) => {
                let v: Vec<String> = Vec::new();
                assert(strings_view(v@) =~= Seq::<Seq<char>>::empty());
                v
            },
        }
    } else {
        let v: Vec<String> = Vec::new();
        assert(strings_view(v@) =~= Seq::<Seq<char>>::empty());
        v
    }
}

fn copy_data(data: &[u8]) -> (v: Vec<u8>)
    ensures
        v@ == data@,
{
    let mut v: Vec<u8> = Vec::new();
    append_bytes(&mut v, data);
    v
}

pub(crate) fn storage_read_failure(result_type: u8) -> (f: ZidFailure)
    ensures
        machine_read_failure(f, result_type),
{
    if result_type == NOT_FOUND {
        ZidFailure::MachineKeyNotFound
    } else {
        ZidFailure::NetworkError(string_from("Storage read failed"))
    }
}

/// Read a machine-key lookup for a ZID login (see `machine_read_kind`).
pub fn handle_read_machine_for_zid_login(
    client_pid: u32,
    user_id: u128,
    zid_endpoint: String,
    cap_slots: Vec<u32>,
    result_type: u8,
    data: &[u8],
) -> (r: Result<ZidLoginReadResult, ZidFailure>)
    ensures
        machine_read_kind(result_type, data@) == 0 ==> (r matches Ok(
            ZidLoginReadResult::PathList { paths, client_pid: p, user_id: u, zid_endpoint: z, cap_slots: c },
        ) && strings_view(paths@) == listed_paths(data@) && p == client_pid && u == user_id && z
            == zid_endpoint && c == cap_slots),
        machine_read_kind(result_type, data@) == 1 ==> (r matches Ok(
            ZidLoginReadResult::MachineKeyData { data: d, client_pid: p, user_id: u, zid_endpoint: z, cap_slots: c },
        ) && d@ == data@ && p == client_pid && u == user_id && z == zid_endpoint && c == cap_slots),
        machine_read_kind(result_type, data@) >= 2 ==> (r matches Err(f) && machine_read_failure(
            f,
            result_type,
        )),
{
    if result_type == LIST_OK {
        let paths = listed_paths_exec(data);
        Ok(ZidLoginReadResult::PathList { paths, client_pid, user_id, zid_endpoint, cap_slots })
    } else if result_type == READ_OK && data.len() > 0 {
        Ok(
            ZidLoginReadResult::MachineKeyData {
                data: copy_data(data),
                client_pid,
                user_id,
                zid_endpoint,
                cap_slots,
            },
        )
    } else {
        Err(storage_read_failure(result_type))
    }
}

/// Read a machine-key lookup for a ZID enrollment (see `machine_read_kind`).
pub fn handle_read_machine_for_zid_enroll(
    client_pid: u32,
    user_id: u128,
    zid_endpoint: String,
    cap_slots: Vec<u32>,
    result_type: u8,
    data: &[u8],
) -> (r: Result<ZidEnrollReadResult, ZidFailure>)
    ensures
        machine_read_kind(result_type, data@) == 0 ==> (r matches Ok(
            ZidEnrollReadResult::PathList { paths, client_pid: p, user_id: u, zid_endpoint: z, cap_slots: c },
        ) && strings_view(paths@) == listed_paths(data@) && p == client_pid && u == user_id && z
            == zid_endpoint && c == cap_slots),
        machine_read_kind(result_type, data@) == 1 ==> (r matches Ok(
            ZidEnrollReadResult::MachineKeyData { data: d, client_pid: p, user_id: u, zid_endpoint: z, cap_slots: c },
        ) && d@ == data@ && p == client_pid && u == user_id && z == zid_endpoint && c == cap_slots),
        machine_read_kind(result_type, data@) >= 2 ==> (r matches Err(f) && machine_read_failure(
            f,
            result_type,
        )),
{
    if result_type == LIST_OK {
        let paths = listed_paths_exec(data);
        Ok(ZidEnrollReadResult::PathList { paths, client_pid, user_id, zid_endpoint, cap_slots })
    } else if result_type == READ_OK && data.len() > 0 {
        Ok(
            ZidEnrollReadResult::MachineKeyData {
                data: copy_data(data),
                client_pid,
                user_id,
                zid_endpoint,
                cap_slots,
            },
        )
    } else {
        Err(storage_read_failure(result_type))
    }
}

/// Whether an existence check found the key, passed on with the request's
/// client, user and capability slots.
pub fn handle_check_key_exists(
    client_pid: u32,
    user_id: u128,
    cap_slots: Vec<u32>,
    result_type: u8,
    data: &[u8],
) -> (r: (bool, u32, u128, Vec<u32>))
    ensures
        r.0 == (result_type == EXISTS_OK && data@.len() > 0 && data@[0] == 1),
        r.1 == client_pid,
        r.2 == user_id,
        r.3 == cap_slots,
{
    let exists = if result_type == EXISTS_OK {
        data.len() > 0 && data[0] == 1
    } else {
        false
    };
    (exists, client_pid, user_id, cap_slots)
}

// ============================================================================
// Machine-key paths
// ============================================================================

/// Whether a path names a JSON record.
pub open spec fn is_json_path(p: Seq<char>) -> bool {
    p.len() >= 5 && p.skip(p.len() - 5) == ".json"@
}

fn ends_with_json(p: &String) -> (r: bool)
    ensures
        r == is_json_path(p@),
{
    let cs = chars_of(p.as_str());
    let n = cs.len();
    proof {
        reveal_strlit(".json");
    }
    if n < 5 {
        return false;
    }
    let r = cs[n - 5] == '.' && cs[n - 4] == 'j' && cs[n - 3] == 's' && cs[n - 2] == 'o' && cs[n
        - 1] == 'n';
    let ghost t = cs@.skip(n - 5);
    assert(".json"@ =~= seq!['.', 'j', 's', 'o', 'n']);
    assert(t[0] == cs@[n - 5] && t[1] == cs@[n - 4] && t[2] == cs@[n - 3] && t[3] == cs@[n - 2] && t[4]
        == cs@[n - 1]);
    if r {
        assert(t =~= ".json"@);
    } else {
        assert(t != ".json"@);
    }
    r
}

/// The first JSON path of a listing.
pub open spec fn first_json_path(paths: Seq<Seq<char>>) -> Option<Seq<char>>
    decreases paths.len(),
{
    if paths.len() == 0 {
        None
    } else if is_json_path(paths[0]) {
        Some(paths[0])
    } else {
        first_json_path(paths.drop_first())
    }
}

/// The content key of the first JSON path of a listing, which a ZID flow
/// reads next; `None` means there is no machine key.
pub fn machine_key_to_read(paths: &Vec<String>) -> (key: Option<String>)
    ensures
        match first_json_path(strings_view(paths@)) {
            Some(p) => key matches Some(k) && k@ == "content:"@ + p,
            None => key is None,
        },
{
    let mut i: usize = 0;
    assert(strings_view(paths@).skip(0) =~= strings_view(paths@));
    while i < paths.len()
        invariant
            i <= paths@.len(),
            first_json_path(strings_view(paths@)) == first_json_path(strings_view(paths@).skip(
                i as int,
            )),
        decreases paths@.len() - i,
    {
        assert(strings_view(paths@).skip(i as int)[0] == paths@[i as int]@);
        if ends_with_json(&paths[i]) {
            let mut k = string_from("content:");
            push_str(&mut k, paths[i].as_str());
            return Some(k);
        }
        assert(strings_view(paths@).skip(i as int).drop_first() =~= strings_view(paths@).skip(
            i + 1,
        ));
        i = i + 1;
    }
    None
}

/// The content keys of the JSON paths of a listing, in order.
pub open spec fn json_content_keys(paths: Seq<Seq<char>>) -> Seq<Seq<char>>
    decreases paths.len(),
{
    if paths.len() == 0 {
        Seq::empty()
    } else {
        let rest = json_content_keys(paths.drop_last());
        if is_json_path(paths.last()) {
            rest.push("content:"@ + paths.last())
        } else {
            rest
        }
    }
}

/// The machine-key records to read after a listing: the content keys of
/// its JSON paths; none when the listing failed or did not parse.
pub fn machine_key_reads(result_type: u8, data: &[u8]) -> (keys: Vec<String>)
    ensures
        strings_view(keys@) == if result_type == LIST_OK {
            match json_string_list(data@) {
                Ok(ps) => json_content_keys(ps),
                Err(_) => Seq::empty(),
            }
        } else {
            Seq::empty()
        },
{
    let mut keys: Vec<String> = Vec::new();
    if result_type != LIST_OK {
        assert(strings_view(keys@) =~= Seq::<Seq<char>>::empty());
        return keys;
    }
    let paths = match parse_string_list(data) {
        Ok(ps) => ps,
        Err(_) => {
            assert(strings_view(keys@) =~= Seq::<Seq<char>>::empty());
            return keys;
        },
    };
    let mut i: usize = 0;
    while i < paths.len()
        invariant
            i <= paths@.len(),
            strings_view(keys@) == json_content_keys(strings_view(paths@).take(i as int)),
        decreases paths@.len() - i,
    {
        let ghost before = strings_view(paths@).take(i as int);
        assert(strings_view(paths@).take(i + 1).drop_last() =~= before);
        assert(strings_view(paths@).take(i + 1).last() == paths@[i as int]@);
        if ends_with_json(&paths[i]) {
            let mut k = string_from("content:");
            push_str(&mut k, paths[i].as_str());
            keys.push(k);
            assert(strings_view(keys@) =~= json_content_keys(before).push("content:"@ + paths@[i as int]@));
        }
        i = i + 1;
    }
    assert(strings_view(paths@).take(paths@.len() as int) =~= strings_view(paths@));
    keys
}

/// The next step of reading machine-key records one by one.
#[derive(Debug)]
pub enum MachineKeyProgress<R> {
    /// Every record was read: answer with these.
    Done(Vec<R>),
    /// Read `key` next, with these still to come and these collected.
    Next { key: String, remaining: Vec<String>, records: Vec<R> },
}

/// One record read arrived: keep it when it was read and decoded (the host
/// decodes it into `record`), then read the next key, or finish when none
/// is left.
pub fn handle_read_machine_key<R>(
    remaining_paths: Vec<String>,
    records: Vec<R>,
    result_type: u8,
    record: Option<R>,
) -> (step: MachineKeyProgress<R>)
    ensures
        ({
            let kept = match record {
                Some(x) => if result_type == READ_OK {
                    records@.push(x)
                } else {
                    records@
                },
                None => records@,
            };
            if remaining_paths@.len() == 0 {
                step matches MachineKeyProgress::Done(rs) && rs@ == kept
            } else {
                step matches MachineKeyProgress::Next { key, remaining, records: rs } && key
                    == remaining_paths@[0] && remaining@ == remaining_paths@.drop_first() && rs@
                    == kept
            }
        }),
{
    let mut records = records;
    if result_type == READ_OK {
        match record {
            Some(x) => records.push(x),
            None => {},
        }
    }
    if remaining_paths.len() == 0 {
        return MachineKeyProgress::Done(records);
    }
    let mut remaining = remaining_paths;
    let key = remaining.remove(0);
    MachineKeyProgress::Next { key, remaining, records }
}

// ============================================================================
// ZID paths and bodies
// ============================================================================

/// Where a user's ZID session is stored:
/// `/home/<user id as 32 hex digits>/.zos/identity/zid_session.json`.
pub open spec fn zid_session_path_spec(user_id: u128) -> Seq<char> {
    "/home/"@ + hex32(user_id) + "/.zos/identity/zid_session.json"@
}

fn push_hex32(s: &mut String, value: u128)
    ensures
        final(s)@ == old(s)@ + hex32(value),
{
    let u = format_uuid(value);
    let cs = chars_of(u.as_str());
    let ghost h = hex32(value);
    assert(cs@ == uuid_string(value));
    let ghost start = s@;
    let mut i: usize = 0;
    while i < 36
        invariant
            i <= 36,
            cs@ == uuid_string(value),
            h == hex32(value),
            s@ == start + uuid_digits(h, i as int),
        decreases 36 - i,
    {
        assert(uuid_string(value).len() == 36);
        if i != 8 && i != 13 && i != 18 && i != 23 {
            string_push(s, cs[i]);
        }
        i = i + 1;
        proof {
            lemma_uuid_digits_step(h, i as int);
        }
    }
    proof {
        lemma_uuid_digits_all(h);
    }
}

/// The hex digits among the first `i` characters of a UUID's text.
pub open spec fn uuid_digits(h: Seq<char>, i: int) -> Seq<char> {
    if i <= 8 {
        h.take(i)
    } else if i <= 13 {
        h.take(8) + h.subrange(8, i - 1)
    } else if i <= 18 {
        h.take(12) + h.subrange(12, i - 2)
    } else if i <= 23 {
        h.take(16) + h.subrange(16, i - 3)
    } else {
        h.take(20) + h.subrange(20, i - 4)
    }
}

proof fn lemma_uuid_digits_step(h: Seq<char>, i: int)
    requires
        h.len() == 32,
        1 <= i <= 36,
    ensures
        ({
            let u = h.subrange(0, 8) + seq!['-'] + h.subrange(8, 12) + seq!['-'] + h.subrange(12, 16)
                + seq!['-'] + h.subrange(16, 20) + seq!['-'] + h.subrange(20, 32);
            uuid_digits(h, i) == if i - 1 == 8 || i - 1 == 13 || i - 1 == 18 || i - 1 == 23 {
                uuid_digits(h, i - 1)
            } else {
                uuid_digits(h, i - 1).push(u[i - 1])
            }
        }),
{
    let u = h.subrange(0, 8) + seq!['-'] + h.subrange(8, 12) + seq!['-'] + h.subrange(12, 16)
        + seq!['-'] + h.subrange(16, 20) + seq!['-'] + h.subrange(20, 32);
    let j = i - 1;
    if j == 8 || j == 13 || j == 18 || j == 23 {
        assert(uuid_digits(h, i) =~= uuid_digits(h, i - 1));
    } else {
        assert(uuid_digits(h, i) =~= uuid_digits(h, i - 1).push(u[i - 1]));
    }
}

proof fn lemma_uuid_digits_all(h: Seq<char>)
    requires
        h.len() == 32,
    ensures
        uuid_digits(h, 36) == h,
{
    assert(uuid_digits(h, 36) =~= h);
}

/// The path of a user's ZID session (see `zid_session_path_spec`).
pub fn zid_session_path(user_id: u128) -> (p: String)
    ensures
        p@ == zid_session_path_spec(user_id),
{
    let mut p = string_from("/home/");
    push_hex32(&mut p, user_id);
    push_str(&mut p, "/.zos/identity/zid_session.json");
    p
}

/// Where a user's machine keys are listed for the ZID flows:
/// `/home/<user id as 32 hex digits>/.zos/identity/machine`.
pub open spec fn zid_machine_dir_spec(user_id: u128) -> Seq<char> {
    "/home/"@ + hex32(user_id) + "/.zos/identity/machine"@
}

/// The machine-key directory of the ZID flows (see `zid_machine_dir_spec`).
pub fn zid_machine_dir(user_id: u128) -> (p: String)
    ensures
        p@ == zid_machine_dir_spec(user_id),
{
    let mut p = string_from("/home/");
    push_hex32(&mut p, user_id);
    push_str(&mut p, "/.zos/identity/machine");
    p
}

/// `<endpoint>/v1/credentials/email`.
pub fn email_credential_url(zid_endpoint: &str) -> (url: String)
    ensures
        url@ == zid_endpoint@ + "/v1/credentials/email"@,
{
    let mut url = string_from(zid_endpoint);
    push_str(&mut url, "/v1/credentials/email");
    url
}

/// `{"email":"<email>","password":"<password>"}`, the texts as they are.
pub fn email_credential_body(email: &str, password: &str) -> (body: String)
    ensures
        body@ == "{\"email\":\""@ + email@ + "\",\"password\":\""@ + password@ + "\"}"@,
{
    let mut body = string_from("{\"email\":\"");
    push_str(&mut body, email);
    push_str(&mut body, "\",\"password\":\"");
    push_str(&mut body, password);
    push_str(&mut body, "\"}");
    body
}

/// `<endpoint>/v1/auth/challenge?machine_id=<machine id as a UUID>`.
pub fn challenge_url(zid_endpoint: &str, machine_id: u128) -> (url: String)
    ensures
        url@ == zid_endpoint@ + "/v1/auth/challenge?machine_id="@ + uuid_string(machine_id),
{
    let mut url = string_from(zid_endpoint);
    push_str(&mut url, "/v1/auth/challenge?machine_id=");
    let uuid = format_uuid(machine_id);
    push_str(&mut url, uuid.as_str());
    url
}

/// The login body for a challenge, or `None` when the challenge is not
/// valid base64: `{"challenge_id":"..","machine_id":"<uuid>","signature":"<hex>"}`
/// with the decoded challenge signed by the machine's signing key.
pub open spec fn login_body_spec(
    challenge: Seq<char>,
    challenge_id: Seq<char>,
    machine_id: u128,
    signing_key: Seq<u8>,
) -> Option<Seq<char>> {
    match base64_decode_spec(challenge) {
        Ok(bytes) => Some(
            "{\"challenge_id\":\""@ + challenge_id + "\",\"machine_id\":\""@ + uuid_string(machine_id)
                + "\",\"signature\":\""@ + hex_string(signature_spec(bytes, signing_key)) + "\"}"@,
        ),
        Err(_) => None,
    }
}

/// Build the machine login body (see `login_body_spec`); `None` means the
/// challenge is invalid.
pub fn machine_login_body(
    challenge: &str,
    challenge_id: &str,
    machine_id: u128,
    signing_key: &[u8; 32],
) -> (body: Option<String>)
    ensures
        match login_body_spec(challenge@, challenge_id@, machine_id, signing_key@) {
            Some(b) => body matches Some(s) && s@ == b,
            None => body is None,
        },
{
    let bytes = match base64_decode(challenge) {
        Ok(b) => b,
        Err(_) => {
            return None;
        },
    };
    let signature = sign_challenge(bytes.as_slice(), signing_key);
    let signature_hex = bytes_to_hex(&signature);
    let uuid = format_uuid(machine_id);
    let mut body = string_from("{\"challenge_id\":\"");
    push_str(&mut body, challenge_id);
    push_str(&mut body, "\",\"machine_id\":\"");
    push_str(&mut body, uuid.as_str());
    push_str(&mut body, "\",\"signature\":\"");
    push_str(&mut body, signature_hex.as_str());
    push_str(&mut body, "\"}");
    Some(body)
}

/// `{"machine_id":"<uuid>","public_key":"<hex>"}`.
pub fn enroll_body(machine_id: u128, public_key: &[u8; 32]) -> (body: String)
    ensures
        body@ == "{\"machine_id\":\""@ + uuid_string(machine_id) + "\",\"public_key\":\""@
            + hex_string(public_key@) + "\"}"@,
{
    let uuid = format_uuid(machine_id);
    let key_hex = bytes_to_hex(public_key);
    let mut body = string_from("{\"machine_id\":\"");
    push_str(&mut body, uuid.as_str());
    push_str(&mut body, "\",\"public_key\":\"");
    push_str(&mut body, key_hex.as_str());
    push_str(&mut body, "\"}");
    body
}

/// When a session issued at `now` for `expires_in` seconds expires, in
/// milliseconds.
pub fn session_expiry(now: u64, expires_in: u64) -> (at: u64)
    requires
        now + expires_in * 1000 <= u64::MAX,
    ensures
        at == now + expires_in * 1000,
{
    now + expires_in * 1000
}

} // verus!
