//! Core app types: who runs an app, the context its methods receive, the
//! control flow its update returns, and the messages it is handed.

use vstd::prelude::*;

use crate::text::{decimal, push_decimal, push_str, string_from};

verus! {

/// User ID type (128-bit UUID).
pub type UserId = u128;

/// Session ID type (128-bit UUID).
pub type SessionId = u128;

/// User identity context for apps.
#[derive(Clone, Debug, Default)]
pub struct UserContext {
    /// User who launched this app (None = system process)
    pub user_id: Option<UserId>,
    /// Session this app runs under (None = system process)
    pub session_id: Option<SessionId>,
    /// Display name of the user
    pub display_name: Option<String>,
}

/// The mathematical value of a user context.
pub struct UserContextView {
    pub user_id: Option<u128>,
    pub session_id: Option<u128>,
    pub display_name: Option<Seq<char>>,
}

impl View for UserContext {
    type V = UserContextView;

    open spec fn view(&self) -> UserContextView {
        UserContextView {
            user_id: self.user_id,
            session_id: self.session_id,
            display_name: match self.display_name {
                Some(n) => Some(n@),
                None => None,
            },
        }
    }
}

/// The context of a system process: no user, no session, no name.
pub open spec fn system_user() -> UserContextView {
    UserContextView { user_id: None, session_id: None, display_name: None }
}

impl UserContext {
    /// A system context (no user).
    pub fn system() -> (u: Self)
        ensures
            u@ == system_user(),
    {
        UserContext { user_id: None, session_id: None, display_name: None }
    }

    /// A user context.
    pub fn user(user_id: UserId, session_id: SessionId, display_name: String) -> (u: Self)
        ensures
            u@ == (UserContextView {
                user_id: Some(user_id),
                session_id: Some(session_id),
                display_name: Some(display_name@),
            }),
    {
        UserContext {
            user_id: Some(user_id),
            session_id: Some(session_id),
            display_name: Some(display_name),
        }
    }

    /// Whether this is a system context (no user).
    pub fn is_system(&self) -> (r: bool)
        ensures
            r == self.user_id.is_none(),
    {
        self.user_id.is_none()
    }

    /// Whether this is a user context.
    pub fn is_user(&self) -> (r: bool)
        ensures
            r == self.user_id.is_some(),
    {
        self.user_id.is_some()
    }
}

/// Execution context provided to app methods.
#[derive(Clone, Debug)]
pub struct AppContext {
    /// This process's ID
    pub pid: u32,
    /// Monotonic uptime in nanoseconds
    pub uptime_ns: u64,
    /// Wall-clock time in milliseconds since the Unix epoch
    pub wallclock_ms: u64,
    /// Capability slot for communicating with the UI
    pub ui_endpoint: Option<u32>,
    /// Capability slot for receiving input
    pub input_endpoint: Option<u32>,
    /// Who launched this app
    pub user: UserContext,
    /// App ID (from the manifest)
    pub app_id: String,
}

/// A user's home directory: `/home/{user_id}` (decimal).
pub open spec fn home_path(user_id: u128) -> Seq<char> {
    "/home/"@ + decimal(user_id as nat)
}

/// An app directory: under the user's home for user apps
/// (`/home/{user_id}/Apps/{app_id}/{leaf}`), under `system_root` otherwise
/// (`{system_root}{app_id}/{leaf}`).
pub open spec fn app_dir_path(
    user_id: Option<u128>,
    app_id: Seq<char>,
    system_root: Seq<char>,
    leaf: Seq<char>,
) -> Seq<char> {
    match user_id {
        Some(u) => home_path(u) + "/Apps/"@ + app_id + "/"@ + leaf,
        None => system_root + app_id + "/"@ + leaf,
    }
}

impl AppContext {
    /// A context for a system process with no app ID.
    pub fn new(
        pid: u32,
        uptime_ns: u64,
        wallclock_ms: u64,
        ui_endpoint: Option<u32>,
        input_endpoint: Option<u32>,
    ) -> (c: Self)
        ensures
            c.pid == pid,
            c.uptime_ns == uptime_ns,
            c.wallclock_ms == wallclock_ms,
            c.ui_endpoint == ui_endpoint,
            c.input_endpoint == input_endpoint,
            c.user@ == system_user(),
            c.app_id@ == Seq::<char>::empty(),
    {
        AppContext {
            pid,
            uptime_ns,
            wallclock_ms,
            ui_endpoint,
            input_endpoint,
            user: UserContext::system(),
            app_id: String::new(),
        }
    }

    /// The same context with the given user.
    pub fn with_user(self, user: UserContext) -> (c: Self)
        ensures
            c.user@ == user@,
            c.pid == self.pid,
            c.uptime_ns == self.uptime_ns,
            c.wallclock_ms == self.wallclock_ms,
            c.ui_endpoint == self.ui_endpoint,
            c.input_endpoint == self.input_endpoint,
            c.app_id@ == self.app_id@,
    {
        let mut c = self;
        c.user = user;
        c
    }

    /// The same context with the given app ID.
    pub fn with_app_id(self, app_id: String) -> (c: Self)
        ensures
            c.app_id@ == app_id@,
            c.pid == self.pid,
            c.uptime_ns == self.uptime_ns,
            c.wallclock_ms == self.wallclock_ms,
            c.ui_endpoint == self.ui_endpoint,
            c.input_endpoint == self.input_endpoint,
            c.user@ == self.user@,
    {
        let mut c = self;
        c.app_id = app_id;
        c
    }

    fn app_dir(&self, system_root: &str, leaf: &str) -> (p: String)
        ensures
            p@ == app_dir_path(self.user.user_id, self.app_id@, system_root@, leaf@),
    {
        match self.user.user_id {
            Some(user_id) => {
                let mut p = string_from("/home/");
                push_decimal(&mut p, user_id);
                push_str(&mut p, "/Apps/");
                push_str(&mut p, self.app_id.as_str());
                push_str(&mut p, "/");
                push_str(&mut p, leaf);
                p
            },
            None => {
                let mut p = string_from(system_root);
                push_str(&mut p, self.app_id.as_str());
                push_str(&mut p, "/");
                push_str(&mut p, leaf);
                p
            },
        }
    }

    /// The app's data directory: `/home/{user_id}/Apps/{app_id}/data` for
    /// user apps, `/system/apps/{app_id}/data` for system apps.
    pub fn data_dir(&self) -> (p: String)
        ensures
            p@ == app_dir_path(self.user.user_id, self.app_id@, "/system/apps/"@, "data"@),
    {
        self.app_dir("/system/apps/", "data")
    }

    /// The app's config directory: `/home/{user_id}/Apps/{app_id}/config` for
    /// user apps, `/system/apps/{app_id}/config` for system apps.
    pub fn config_dir(&self) -> (p: String)
        ensures
            p@ == app_dir_path(self.user.user_id, self.app_id@, "/system/apps/"@, "config"@),
    {
        self.app_dir("/system/apps/", "config")
    }

    /// The app's cache directory: `/home/{user_id}/Apps/{app_id}/cache` for
    /// user apps, `/tmp/apps/{app_id}/cache` for system apps.
    pub fn cache_dir(&self) -> (p: String)
        ensures
            p@ == app_dir_path(self.user.user_id, self.app_id@, "/tmp/apps/"@, "cache"@),
    {
        self.app_dir("/tmp/apps/", "cache")
    }

    /// The user's home directory, for user apps.
    pub fn home_dir(&self) -> (p: Option<String>)
        ensures
            match self.user.user_id {
                Some(u) => p is Some && p->0@ == home_path(u),
                None => p is None,
            },
    {
        match self.user.user_id {
            Some(user_id) => {
                let mut p = string_from("/home/");
                push_decimal(&mut p, user_id);
                Some(p)
            },
            None => None,
        }
    }

    /// Whether this app runs as a system process.
    pub fn is_system_app(&self) -> (r: bool)
        ensures
            r == self.user.user_id.is_none(),
    {
        self.user.is_system()
    }
}

/// Control flow returned by an app's update.
#[derive(Clone, Copy, Debug, PartialEq, Eq, Structural)]
pub enum ControlFlow {
    /// Continue to the next update cycle
    Continue,
    /// Exit with the given code
    Exit(i32),
    /// Yield the CPU until the next scheduling quantum
    Yield,
}

/// An IPC message received by an app.
#[derive(Clone, Debug)]
pub struct Message {
    /// Message tag (identifies the message type)
    pub tag: u32,
    /// Sender's process ID
    pub from_pid: u32,
    /// Capability slots where transferred capabilities were installed
    pub cap_slots: Vec<u32>,
    /// Message payload
    pub data: Vec<u8>,
}

impl Message {
    /// Create a new message.
    pub fn new(tag: u32, from_pid: u32, cap_slots: Vec<u32>, data: Vec<u8>) -> (m: Self)
        ensures
            m.tag == tag,
            m.from_pid == from_pid,
            m.cap_slots@ == cap_slots@,
            m.data@ == data@,
    {
        Message { tag, from_pid, cap_slots, data }
    }
}

} // verus!
