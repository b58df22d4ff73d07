use countryman::cmd::Cmd;

#[test]
fn serial_characters_are_read_as_commands() {
    assert_eq!(Cmd::from_serial_char('Z'), Some(Cmd::Okay));
    assert_eq!(Cmd::from_serial_char('z'), Some(Cmd::Okay));
    assert_eq!(Cmd::from_serial_char('X'), Some(Cmd::Exit));
    assert_eq!(Cmd::from_serial_char('x'), Some(Cmd::Exit));
    assert_eq!(Cmd::from_serial_char(' '), Some(Cmd::Exit));
    assert_eq!(Cmd::from_serial_char('S'), Some(Cmd::Previous));
    assert_eq!(Cmd::from_serial_char('s'), Some(Cmd::Previous));
    assert_eq!(Cmd::from_serial_char('A'), Some(Cmd::Next));
    assert_eq!(Cmd::from_serial_char('a'), Some(Cmd::Next));
    assert_eq!(Cmd::from_serial_char('P'), Some(Cmd::Plus));
    assert_eq!(Cmd::from_serial_char('p'), Some(Cmd::Plus));
    assert_eq!(Cmd::from_serial_char('W'), Some(Cmd::Plus));
    assert_eq!(Cmd::from_serial_char('w'), Some(Cmd::Plus));
    assert_eq!(Cmd::from_serial_char('+'), Some(Cmd::Plus));
    assert_eq!(Cmd::from_serial_char('M'), Some(Cmd::Minus));
    assert_eq!(Cmd::from_serial_char('m'), Some(Cmd::Minus));
    assert_eq!(Cmd::from_serial_char('Q'), Some(Cmd::Minus));
    assert_eq!(Cmd::from_serial_char('q'), Some(Cmd::Minus));
    assert_eq!(Cmd::from_serial_char('-'), Some(Cmd::Minus));
}

#[test]
fn the_code_sent_for_a_command_is_read_back_as_it() {
    for cmd in [Cmd::Okay, Cmd::Exit, Cmd::Previous, Cmd::Next, Cmd::Plus, Cmd::Minus] {
        assert_eq!(Cmd::from_serial_char(cmd.serial_char()), Some(cmd));
    }
    assert_eq!(Cmd::from_serial_char('K'), Some(Cmd::Okay));
    assert_eq!(Cmd::from_serial_char('U'), Some(Cmd::Previous));
    assert_eq!(Cmd::from_serial_char('D'), Some(Cmd::Next));
}

#[test]
fn other_characters_are_no_command() {
    assert_eq!(Cmd::from_serial_char('k'), None);
    assert_eq!(Cmd::from_serial_char('u'), None);
    assert_eq!(Cmd::from_serial_char('d'), None);
    assert_eq!(Cmd::from_serial_char('0'), None);
    assert_eq!(Cmd::from_serial_char('\n'), None);
    assert_eq!(Cmd::from_serial_char('é'), None);
}

#[test]
fn commands_have_a_serial_character() {
    assert_eq!(Cmd::Okay.serial_char(), 'K');
    assert_eq!(Cmd::Exit.serial_char(), 'X');
    assert_eq!(Cmd::Previous.serial_char(), 'U');
    assert_eq!(Cmd::Next.serial_char(), 'D');
    assert_eq!(Cmd::Plus.serial_char(), 'P');
    assert_eq!(Cmd::Minus.serial_char(), 'M');
}

#[test]
fn serial_characters_of_commands_differ() {
    let all = [Cmd::Okay, Cmd::Exit, Cmd::Previous, Cmd::Next, Cmd::Plus, Cmd::Minus];
    for a in all.iter() {
        for b in all.iter() {
            if a != b {
                assert_ne!(a.serial_char(), b.serial_char());
            }
        }
    }
}

#[test]
fn commands_have_a_name() {
    assert_eq!(Cmd::Okay.name(), "OK");
    assert_eq!(Cmd::Exit.name(), "EXIT");
    assert_eq!(Cmd::Previous.name(), "PREVIOUS");
    assert_eq!(Cmd::Next.name(), "NEXT");
    assert_eq!(Cmd::Plus.name(), "PLUS");
    assert_eq!(Cmd::Minus.name(), "MINUS");
}
