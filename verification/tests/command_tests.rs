use zos_apps::command::{Command, ParseError};
use zos_apps::manifest::Permissions;

#[test]
fn test_parse_simple_commands() {
    assert_eq!(Command::parse("help"), Ok(Command::Help));
    assert_eq!(Command::parse("?"), Ok(Command::Help));
    assert_eq!(Command::parse("ps"), Ok(Command::Ps));
    assert_eq!(Command::parse("caps"), Ok(Command::Caps));
    assert_eq!(Command::parse("time"), Ok(Command::Time));
    assert_eq!(Command::parse("uptime"), Ok(Command::Time));
    assert_eq!(Command::parse("clear"), Ok(Command::Clear));
    assert_eq!(Command::parse("cls"), Ok(Command::Clear));
    assert_eq!(Command::parse("exit"), Ok(Command::Exit));
    assert_eq!(Command::parse("quit"), Ok(Command::Exit));
}

#[test]
fn test_parse_spawn() {
    assert_eq!(
        Command::parse("spawn clock"),
        Ok(Command::Spawn { process_type: "clock".to_string() })
    );

    assert_eq!(
        Command::parse("spawn"),
        Err(ParseError::MissingArgument { command: "spawn", argument: "process_type" })
    );
}

#[test]
fn test_parse_kill() {
    assert_eq!(Command::parse("kill 42"), Ok(Command::Kill { pid: 42 }));

    assert_eq!(
        Command::parse("kill"),
        Err(ParseError::MissingArgument { command: "kill", argument: "pid" })
    );

    assert_eq!(
        Command::parse("kill abc"),
        Err(ParseError::InvalidArgument { argument: "pid", reason: "must be a number" })
    );
}

#[test]
fn test_parse_grant() {
    let result = Command::parse("grant 1 42 rw");
    assert_eq!(
        result,
        Ok(Command::Grant {
            from_slot: 1,
            to_pid: 42,
            permissions: Permissions { read: true, write: true, grant: false }
        })
    );

    let result = Command::parse("grant 0 1 rwg");
    assert_eq!(
        result,
        Ok(Command::Grant {
            from_slot: 0,
            to_pid: 1,
            permissions: Permissions { read: true, write: true, grant: true }
        })
    );
}

#[test]
fn test_parse_revoke() {
    assert_eq!(Command::parse("revoke 5"), Ok(Command::Revoke { slot: 5 }));
}

#[test]
fn test_parse_echo() {
    assert_eq!(
        Command::parse("echo hello world"),
        Ok(Command::Echo { text: "hello world".to_string() })
    );

    assert_eq!(Command::parse("echo"), Ok(Command::Echo { text: String::new() }));
}

#[test]
fn test_parse_unknown() {
    assert_eq!(Command::parse("foobar"), Ok(Command::Unknown { cmd: "foobar".to_string() }));
}

#[test]
fn test_parse_empty() {
    assert_eq!(Command::parse(""), Ok(Command::Unknown { cmd: String::new() }));
    assert_eq!(Command::parse("   "), Ok(Command::Unknown { cmd: String::new() }));
}

#[test]
fn parse_collapses_whitespace_between_words() {
    assert_eq!(
        Command::parse("  echo   a \t b  "),
        Ok(Command::Echo { text: "a b".to_string() })
    );
    assert_eq!(Command::parse("  kill\t7 "), Ok(Command::Kill { pid: 7 }));
}

#[test]
fn parse_grant_errors() {
    assert_eq!(
        Command::parse("grant 1 2"),
        Err(ParseError::MissingArgument { command: "grant", argument: "from_slot, to_pid, perms" })
    );
    assert_eq!(
        Command::parse("grant x 2 r"),
        Err(ParseError::InvalidArgument { argument: "from_slot", reason: "must be a number" })
    );
    assert_eq!(
        Command::parse("grant 1 y r"),
        Err(ParseError::InvalidArgument { argument: "to_pid", reason: "must be a number" })
    );
    assert_eq!(
        Command::parse("grant 3 4 xg"),
        Ok(Command::Grant {
            from_slot: 3,
            to_pid: 4,
            permissions: Permissions { read: false, write: false, grant: true }
        })
    );
}

#[test]
fn parse_revoke_errors() {
    assert_eq!(
        Command::parse("revoke"),
        Err(ParseError::MissingArgument { command: "revoke", argument: "slot" })
    );
    assert_eq!(
        Command::parse("revoke five"),
        Err(ParseError::InvalidArgument { argument: "slot", reason: "must be a number" })
    );
}

#[test]
fn usage_describes_each_command() {
    assert_eq!(Command::Help.usage(), "help - Display available commands");
    assert_eq!(Command::Kill { pid: 1 }.usage(), "kill <pid> - Request process termination");
    assert_eq!(Command::Unknown { cmd: String::new() }.usage(), "Unknown command");
}
