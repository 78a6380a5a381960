use std::str;
use stepper_drive::serial_commands::{find_command, Buffer, Command, SerialCommands};

fn feed(bytes: &[u8]) -> SerialCommands {
    let mut serial_commands = SerialCommands::default();
    for data in bytes {
        serial_commands.add_character(*data);
    }
    serial_commands
}

#[test]
fn buffer() {
    let mut buffer = Buffer::default();

    for data in b"0123456789_abcdefghi_012345" {
        buffer.add_byte(*data);
    }

    assert_eq!(b'5', buffer.last_byte());
    assert_eq!(Ok("789_abcdefghi_012345"), str::from_utf8(&buffer.create_arranged_buffer()));
    buffer.reset();
    assert_eq!([0u8; 20], buffer.create_arranged_buffer());
}

#[test]
fn more_than_buffer_size_no_panic() {
    let mut serial_commands = SerialCommands::default();

    for data in 0..100 {
        serial_commands.add_character(data);
    }
}

#[test]
fn command_parsing() {
    let command = Command::parse_from("cur 100".as_bytes());
    assert_eq!(Some(Command::Cur { current: 100 }), command);

    let command = Command::parse_from("cur -5".as_bytes());
    assert_eq!(Some(Command::Cur { current: -5 }), command);
}

#[test]
fn parse_single_command() {
    let mut serial_commands = feed(b"disable\r");

    assert_eq!(Some(Command::Disable), serial_commands.get_command());
    assert_eq!(None, serial_commands.get_command());
}

#[test]
fn parse_command_leading_chars() {
    let mut serial_commands = feed(b"le _ 1 disable\r");

    assert_eq!(Some(Command::Disable), serial_commands.get_command());
    assert_eq!(None, serial_commands.get_command());
}

#[test]
fn parse_command_with_value() {
    let mut serial_commands = feed(b"cur 100\r");

    assert_eq!(Some(Command::Cur { current: 100 }), serial_commands.get_command());
}

#[test]
fn every_command_parses() {
    let cases: [(&[u8], Command); 13] = [
        (b"e", Command::Enable),
        (b"enable", Command::Enable),
        (b"d", Command::Disable),
        (b"h", Command::Hold),
        (b"hold", Command::Hold),
        (b"r -30", Command::Run { speed: -30 }),
        (b"run 7", Command::Run { speed: 7 }),
        (b"c +12", Command::Cur { current: 12 }),
        (b"mp 3", Command::P(3)),
        (b"mi 2147483647", Command::I(i32::MAX)),
        (b"md -2147483648", Command::D(i32::MIN)),
        (b"mp 0007", Command::P(7)),
        (b"cur\t100", Command::Cur { current: 100 }),
    ];
    for (line, expected) in cases {
        assert_eq!(Some(expected), Command::parse_from(line));
    }
}

#[test]
fn malformed_commands_are_rejected() {
    let cases: [&[u8]; 10] = [
        b"",
        b" e",
        b"stop",
        b"cur",
        b"cur ",
        b"cur 1x",
        b"cur -",
        b"mi 2147483648",
        b"md -2147483649",
        b"cur  100",
    ];
    for line in cases {
        assert_eq!(None, Command::parse_from(line));
    }
}

#[test]
fn command_needs_carriage_return() {
    let mut serial_commands = feed(b"hold");
    assert_eq!(None, serial_commands.get_command());
    serial_commands.add_character(b'\r');
    assert_eq!(Some(Command::Hold), serial_commands.get_command());
}

#[test]
fn invalid_utf8_gives_no_command() {
    let mut serial_commands = feed(b"\xff hold\r");
    assert_eq!(None, serial_commands.get_command());
    // Valid multi-byte text separates tokens like any other non-ASCII byte.
    let mut serial_commands = feed("\u{e9} hold\r".as_bytes());
    assert_eq!(Some(Command::Hold), serial_commands.get_command());
}

#[test]
fn first_token_of_a_full_buffer_is_not_a_keyword() {
    // The oldest text may be a fragment of an overwritten token.
    let mut serial_commands = feed(b"disable 1234567890 \r");
    assert_eq!(None, serial_commands.get_command());
    let mut serial_commands = feed(b"xx disable 12345678\r");
    assert_eq!(Some(Command::Disable), serial_commands.get_command());
}

#[test]
fn find_command_skips_the_first_token() {
    assert_eq!(Some(Command::Run { speed: 5 }), find_command(b"xx run 5"));
    assert_eq!(None, find_command(b"run 5"));
    assert_eq!(Some(Command::Hold), find_command(b" hold"));
    assert_eq!(None, find_command(b""));
}
