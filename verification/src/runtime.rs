//! The app runtime's state and the decisions of its event loop: which
//! context an app sees, when an update is due, and what the loop does with
//! the control flow an update returns. The loop itself (receiving messages,
//! yielding, exiting) is carried out by the host.

use vstd::prelude::*;

use crate::app::{AppContext, ControlFlow, UserContext, UserContextView, system_user};
use crate::text::string_from;

verus! {

/// Default update interval (~60 FPS), in nanoseconds.
pub const DEFAULT_UPDATE_INTERVAL_NS: u64 = 16_666_667;

/// Runtime environment for a Zero application.
pub struct AppRuntime {
    pid: u32,
    ui_slot: Option<u32>,
    input_slot: Option<u32>,
    last_update_ns: u64,
    update_interval_ns: u64,
    user_context: UserContext,
    app_id: String,
}

/// The mathematical value of a runtime.
pub struct AppRuntimeView {
    pub pid: u32,
    pub ui_slot: Option<u32>,
    pub input_slot: Option<u32>,
    pub last_update_ns: u64,
    pub update_interval_ns: u64,
    pub user: UserContextView,
    pub app_id: Seq<char>,
}

impl View for AppRuntime {
    type V = AppRuntimeView;

    closed spec fn view(&self) -> AppRuntimeView {
        AppRuntimeView {
            pid: self.pid,
            ui_slot: self.ui_slot,
            input_slot: self.input_slot,
            last_update_ns: self.last_update_ns,
            update_interval_ns: self.update_interval_ns,
            user: self.user_context@,
            app_id: self.app_id@,
        }
    }
}

/// What the event loop does after an update.
#[derive(Clone, Copy, Debug, PartialEq, Eq, Structural)]
pub enum LoopAction {
    /// Go straight to the next iteration
    Continue,
    /// Yield the CPU
    Yield,
    /// Shut the app down, then exit with the code
    ShutdownAndExit(i32),
}

impl AppRuntime {
    /// A runtime for the process with the given ID: no endpoints, no update
    /// yet, the default interval, a system user and an empty app ID.
    pub fn new(pid: u32) -> (r: Self)
        ensures
            r@ == (AppRuntimeView {
                pid,
                ui_slot: None,
                input_slot: None,
                last_update_ns: 0,
                update_interval_ns: DEFAULT_UPDATE_INTERVAL_NS,
                user: system_user(),
                app_id: seq![],
            }),
    {
        AppRuntime {
            pid,
            ui_slot: None,
            input_slot: None,
            last_update_ns: 0,
            update_interval_ns: DEFAULT_UPDATE_INTERVAL_NS,
            user_context: UserContext::system(),
            app_id: String::new(),
        }
    }

    /// The same runtime with the given user context.
    pub fn with_user(self, user_context: UserContext) -> (r: Self)
        ensures
            r@ == (AppRuntimeView { user: user_context@, ..self@ }),
    {
        let mut r = self;
        r.user_context = user_context;
        r
    }

    /// Set the app ID.
    pub fn set_app_id(&mut self, app_id: &str)
        ensures
            final(self)@ == (AppRuntimeView { app_id: app_id@, ..old(self)@ }),
    {
        self.app_id = string_from(app_id);
    }

    /// Set the user context.
    pub fn set_user_context(&mut self, user_context: UserContext)
        ensures
            final(self)@ == (AppRuntimeView { user: user_context@, ..old(self)@ }),
    {
        self.user_context = user_context;
    }

    /// Set the UI endpoint slot.
    pub fn set_ui_endpoint(&mut self, slot: u32)
        ensures
            final(self)@ == (AppRuntimeView { ui_slot: Some(slot), ..old(self)@ }),
    {
        self.ui_slot = Some(slot);
    }

    /// Set the input endpoint slot.
    pub fn set_input_endpoint(&mut self, slot: u32)
        ensures
            final(self)@ == (AppRuntimeView { input_slot: Some(slot), ..old(self)@ }),
    {
        self.input_slot = Some(slot);
    }

    /// Set the update interval in milliseconds.
    pub fn set_update_interval_ms(&mut self, ms: u64)
        requires
            ms * 1_000_000 <= u64::MAX,
        ensures
            final(self)@ == (AppRuntimeView {
                update_interval_ns: (ms * 1_000_000) as u64,
                ..old(self)@
            }),
    {
        self.update_interval_ns = ms * 1_000_000;
    }

    /// Set the update interval in nanoseconds.
    pub fn set_update_interval_ns(&mut self, ns: u64)
        ensures
            final(self)@ == (AppRuntimeView { update_interval_ns: ns, ..old(self)@ }),
    {
        self.update_interval_ns = ns;
    }

    /// The process ID.
    pub fn pid(&self) -> (p: u32)
        ensures
            p == self@.pid,
    {
        self.pid
    }

    /// The slot messages are received on, if any.
    pub fn input_slot(&self) -> (s: Option<u32>)
        ensures
            s == self@.input_slot,
    {
        self.input_slot
    }

    /// The context an app sees at the given clock readings.
    pub fn build_context(&self, uptime_ns: u64, wallclock_ms: u64) -> (c: AppContext)
        ensures
            c.pid == self@.pid,
            c.uptime_ns == uptime_ns,
            c.wallclock_ms == wallclock_ms,
            c.ui_endpoint == self@.ui_slot,
            c.input_endpoint == self@.input_slot,
            c.user@ == self@.user,
            c.app_id@ == self@.app_id,
    {
        AppContext {
            pid: self.pid,
            uptime_ns,
            wallclock_ms,
            ui_endpoint: self.ui_slot,
            input_endpoint: self.input_slot,
            user: self.clone_user(),
            app_id: string_from(self.app_id.as_str()),
        }
    }

    fn clone_user(&self) -> (u: UserContext)
        ensures
            u@ == self.user_context@,
    {
        UserContext {
            user_id: self.user_context.user_id,
            session_id: self.user_context.session_id,
            display_name: match &self.user_context.display_name {
                Some(n) => Some(string_from(n.as_str())),
                None => None,
            },
        }
    }

    /// Whether an update is due at `uptime_ns`: at least the update interval
    /// has passed since the last update. When it is due, the update is
    /// recorded at `uptime_ns`.
    pub fn update_due(&mut self, uptime_ns: u64) -> (due: bool)
        requires
            old(self)@.last_update_ns <= uptime_ns,
        ensures
            due == (uptime_ns - old(self)@.last_update_ns >= old(self)@.update_interval_ns),
            due ==> final(self)@ == (AppRuntimeView { last_update_ns: uptime_ns, ..old(self)@ }),
            !due ==> final(self)@ == old(self)@,
    {
        if uptime_ns - self.last_update_ns >= self.update_interval_ns {
            self.last_update_ns = uptime_ns;
            true
        } else {
            false
        }
    }
}

/// What the loop does with the control flow an update returned.
pub fn loop_action(flow: ControlFlow) -> (a: LoopAction)
    ensures
        a == match flow {
            ControlFlow::Continue => LoopAction::Continue,
            ControlFlow::Yield => LoopAction::Yield,
            ControlFlow::Exit(code) => LoopAction::ShutdownAndExit(code),
        },
{
    match flow {
        ControlFlow::Continue => LoopAction::Continue,
        ControlFlow::Yield => LoopAction::Yield,
        ControlFlow::Exit(code) => LoopAction::ShutdownAndExit(code),
    }
}

} // verus!
