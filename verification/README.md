# zos_apps

The application library of Zero OS, written in Verus: every public function
in `src/` carries a contract that Verus proves (as do most private helpers), and the laws the library keeps
(round trips of its codecs, what its state machines do over several calls)
stand there as proof functions.

## Layout

- `src/` — the verified library
  - `wire`, `fields`, `input`, `settings`, `clock`, `terminal_state`,
    `serializable`, `type_tags`, `tags`, `modifiers`: the binary protocol
    between app backends and UI surfaces, with encode/decode round trips.
  - `app`, `manifest`, `runtime`, `error`: the app framework's data types
    and run loop decisions.
  - `command`, `words`, `text`, `terminal`: the terminal's command language
    and its state machine.
  - `calculator`, `calendar`: the calculator's display logic and civil-date
    arithmetic.
  - `service`, `time_service`, `network_service`, `vfs_service`,
    `identity`, `identity_service`, `crypto`: the system services' decisions,
    written as step functions from state and event to next state and action.
  - `kernel_shell`, `pingpong`, `syscalls`, `latency`: the supervisor's test
    shell, its latency tests and their figures, and the worker system-call
    interface.
  - `allocator`: the bump allocator's address arithmetic.
- `tests/` — tests of the library on concrete values.
- `app/` — the host side: system calls, JSON forms, floating-point
  arithmetic and error display, driving the library's step functions.
