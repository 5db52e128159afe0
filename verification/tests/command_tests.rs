use session_core::command::{parse_command, Command, ParseError};

#[test]
fn connect_alone_opens_one_connection() {
    assert!(matches!(parse_command(b"connect"), Ok(Command::Connect)));
    assert!(matches!(parse_command(b"c"), Ok(Command::Connect)));
}

#[test]
fn connect_with_count_opens_many() {
    assert!(matches!(
        parse_command(b"connect 5"),
        Ok(Command::ConnectMultiple(5))
    ));
    assert!(matches!(
        parse_command(b"c 12"),
        Ok(Command::ConnectMultiple(12))
    ));
}

#[test]
fn connect_count_must_be_a_number() {
    assert!(matches!(
        parse_command(b"connect abc"),
        Err(ParseError::InvalidCount)
    ));
    assert!(matches!(
        parse_command(b"connect 1 2"),
        Err(ParseError::ConnectUsage)
    ));
}

#[test]
fn close_needs_an_argument() {
    assert!(matches!(parse_command(b"close"), Err(ParseError::CloseUsage)));
    assert!(matches!(parse_command(b"close 3"), Ok(Command::Close(3))));
    assert!(matches!(parse_command(b"close all"), Ok(Command::CloseAll)));
    assert!(matches!(parse_command(b"close ALL"), Ok(Command::CloseAll)));
    assert!(matches!(
        parse_command(b"close xyz"),
        Err(ParseError::InvalidId)
    ));
}

#[test]
fn list_and_alias() {
    assert!(matches!(parse_command(b"list"), Ok(Command::List)));
    assert!(matches!(parse_command(b"ls"), Ok(Command::List)));
}

#[test]
fn send_joins_the_message_tokens() {
    match parse_command(b"send 1 hello") {
        Ok(Command::Send(id, message)) => {
            assert_eq!(id, 1);
            assert_eq!(message, b"hello".to_vec());
        }
        other => panic!("unexpected parse: {:?}", other.err()),
    }
    match parse_command(b"s 2  spaced   words ") {
        Ok(Command::Send(id, message)) => {
            assert_eq!(id, 2);
            assert_eq!(message, b"spaced words".to_vec());
        }
        other => panic!("unexpected parse: {:?}", other.err()),
    }
}

#[test]
fn send_needs_id_and_message() {
    assert!(matches!(parse_command(b"send 1"), Err(ParseError::SendUsage)));
    assert!(matches!(
        parse_command(b"send x hello"),
        Err(ParseError::InvalidId)
    ));
}

#[test]
fn help_quit_and_aliases() {
    assert!(matches!(parse_command(b"help"), Ok(Command::Help)));
    assert!(matches!(parse_command(b"h"), Ok(Command::Help)));
    assert!(matches!(parse_command(b"quit"), Ok(Command::Quit)));
    assert!(matches!(parse_command(b"exit"), Ok(Command::Quit)));
    assert!(matches!(parse_command(b"q"), Ok(Command::Quit)));
}

#[test]
fn first_token_is_read_without_regard_to_case() {
    assert!(matches!(parse_command(b"CONNECT"), Ok(Command::Connect)));
    assert!(matches!(parse_command(b"Quit"), Ok(Command::Quit)));
}

#[test]
fn empty_and_unknown_lines() {
    assert!(matches!(parse_command(b""), Err(ParseError::Empty)));
    assert!(matches!(parse_command(b"   \t  "), Err(ParseError::Empty)));
    assert!(matches!(parse_command(b"frobnicate"), Err(ParseError::Unknown)));
}

#[test]
fn numbers_with_plus_sign_and_overflow() {
    assert!(matches!(parse_command(b"close +4"), Ok(Command::Close(4))));
    // Far beyond what the id type holds.
    assert!(matches!(
        parse_command(b"close 99999999999999999999999999"),
        Err(ParseError::InvalidId)
    ));
}
