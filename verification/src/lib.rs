//! Zero OS application library: the wire protocol spoken between app
//! backends and UI surfaces, the app framework's plain data types, the
//! terminal's command language and state machine, the decision logic of
//! the system services (time, network, VFS, identity), and the
//! supervisor's kernel shell, worker system calls and ping-pong test.

pub mod allocator;
pub mod app;
pub mod calculator;
pub mod calendar;
pub mod command;
pub mod crypto;
pub mod error;
pub mod fields;
pub mod identity;
pub mod identity_service;
pub mod input;
pub mod kernel_shell;
pub mod latency;
pub mod manifest;
pub mod clock;
pub mod modifiers;
pub mod network_service;
pub mod pingpong;
pub mod serializable;
pub mod service;
pub mod runtime;
pub mod settings;
pub mod syscalls;
pub mod tags;
pub mod terminal;
pub mod terminal_state;
pub mod time_service;
pub mod text;
pub mod type_tags;
pub mod vfs_service;
pub mod wire;
pub mod words;
