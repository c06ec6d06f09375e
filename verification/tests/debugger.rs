use nesferratu_core::debugger::{
    is_ascii_space, repetitions, Arg, Command, CommandDelegate, CommandParseError,
    CommandRunError,
};

fn command(cmd: &str, delegate: CommandDelegate, args: Vec<Arg>) -> Command {
    Command { cmd: cmd.to_owned(), delegate, args }
}

fn text(s: &str) -> Arg {
    Arg::String(s.to_owned())
}

#[test]
fn an_empty_line_is_an_error_of_its_own() {
    assert_eq!(Command::parse(""), Err(CommandParseError::EmptyInput));
}

#[test]
fn commands_by_name_and_by_initial() {
    assert_eq!(Command::parse("cycle"), Ok(vec![command("cycle", CommandDelegate::Cycle, vec![])]));
    assert_eq!(Command::parse("c"), Ok(vec![command("c", CommandDelegate::Cycle, vec![])]));
    assert_eq!(Command::parse("step"), Ok(vec![command("step", CommandDelegate::Step, vec![])]));
    assert_eq!(Command::parse("s"), Ok(vec![command("s", CommandDelegate::Step, vec![])]));
    assert_eq!(Command::parse("run"), Ok(vec![command("run", CommandDelegate::Run, vec![])]));
    assert_eq!(Command::parse("r"), Ok(vec![command("r", CommandDelegate::Run, vec![])]));
}

#[test]
fn a_number_as_argument() {
    assert_eq!(
        Command::parse("cycle 10"),
        Ok(vec![command("cycle", CommandDelegate::Cycle, vec![Arg::UInt(10)])])
    );
    assert_eq!(
        Command::parse("s 3"),
        Ok(vec![command("s", CommandDelegate::Step, vec![Arg::UInt(3)])])
    );
    assert_eq!(
        Command::parse("cycle +5"),
        Ok(vec![command("cycle", CommandDelegate::Cycle, vec![Arg::UInt(5)])])
    );
    assert_eq!(
        Command::parse("cycle 007"),
        Ok(vec![command("cycle", CommandDelegate::Cycle, vec![Arg::UInt(7)])])
    );
    assert_eq!(
        Command::parse("cycle 4294967295"),
        Ok(vec![command("cycle", CommandDelegate::Cycle, vec![Arg::UInt(u32::MAX)])])
    );
}

#[test]
fn a_word_as_argument() {
    assert_eq!(
        Command::parse("cycle often"),
        Ok(vec![command("cycle", CommandDelegate::Cycle, vec![text("often")])])
    );
    assert_eq!(
        Command::parse("step héllo"),
        Ok(vec![command("step", CommandDelegate::Step, vec![text("héllo")])])
    );
}

#[test]
fn a_token_with_a_digit_has_to_be_a_number() {
    for line in ["cycle 12a", "cycle a1", "cycle -1", "cycle 1.5", "cycle 4294967296", "cycle ٣"] {
        assert_eq!(
            Command::parse(line),
            Err(CommandParseError::InvalidArgument { index: 0 }),
            "{}",
            line
        );
    }
}

#[test]
fn too_many_arguments() {
    assert_eq!(
        Command::parse("run 1"),
        Err(CommandParseError::InvalidArgumentNum { expected: 0, got: 1 })
    );
    assert_eq!(
        Command::parse("cycle 1 2"),
        Err(CommandParseError::InvalidArgumentNum { expected: 1, got: 2 })
    );
    assert_eq!(
        Command::parse("step 1 2 3"),
        Err(CommandParseError::InvalidArgumentNum { expected: 1, got: 2 })
    );
    // The first argument is looked at first.
    assert_eq!(
        Command::parse("step 1x 2"),
        Err(CommandParseError::InvalidArgument { index: 0 })
    );
}

#[test]
fn unknown_commands() {
    for line in ["help", "nop", "quit", "42", " ", ";", "\t"] {
        assert_eq!(Command::parse(line), Err(CommandParseError::UnknownCommand), "{:?}", line);
    }
}

#[test]
fn a_name_is_found_anywhere_in_the_command() {
    // Cycle is looked for first, then step, then run; what stands
    // before the name is dropped, what follows it are the arguments.
    assert_eq!(
        Command::parse("bogus"),
        Ok(vec![command("s", CommandDelegate::Step, vec![])])
    );
    assert_eq!(
        Command::parse("xcycle 5"),
        Ok(vec![command("cycle", CommandDelegate::Cycle, vec![Arg::UInt(5)])])
    );
    assert_eq!(
        Command::parse("src"),
        Ok(vec![command("c", CommandDelegate::Cycle, vec![])])
    );
    assert_eq!(
        Command::parse("cy 2"),
        Err(CommandParseError::InvalidArgumentNum { expected: 1, got: 2 })
    );
    assert_eq!(
        Command::parse("cyc"),
        Ok(vec![command("c", CommandDelegate::Cycle, vec![text("yc")])])
    );
    assert_eq!(
        Command::parse("rerun"),
        Err(CommandParseError::InvalidArgumentNum { expected: 0, got: 1 })
    );
}

#[test]
fn several_commands_on_a_line() {
    assert_eq!(
        Command::parse("step 3; run"),
        Ok(vec![
            command("step", CommandDelegate::Step, vec![Arg::UInt(3)]),
            command("run", CommandDelegate::Run, vec![]),
        ])
    );
    assert_eq!(
        Command::parse("c;s;r"),
        Ok(vec![
            command("c", CommandDelegate::Cycle, vec![]),
            command("s", CommandDelegate::Step, vec![]),
            command("r", CommandDelegate::Run, vec![]),
        ])
    );
}

#[test]
fn the_first_error_on_a_line_wins() {
    assert_eq!(Command::parse("cycle;"), Err(CommandParseError::UnknownCommand));
    assert_eq!(Command::parse(";cycle"), Err(CommandParseError::UnknownCommand));
    assert_eq!(
        Command::parse("run 1; help"),
        Err(CommandParseError::InvalidArgumentNum { expected: 0, got: 1 })
    );
    assert_eq!(Command::parse("help; run 1"), Err(CommandParseError::UnknownCommand));
    assert_eq!(
        Command::parse("cycle 1; step x1"),
        Err(CommandParseError::InvalidArgument { index: 0 })
    );
}

#[test]
fn white_space_around_a_command_is_ignored() {
    let expected = Ok(vec![command("cycle", CommandDelegate::Cycle, vec![Arg::UInt(5)])]);
    assert_eq!(Command::parse("  cycle 5  "), expected);
    assert_eq!(Command::parse("\tcycle\t5\n"), expected);
    assert_eq!(Command::parse("cycle     5"), expected);
    assert_eq!(Command::parse("\u{a0}cycle 5\u{3000}"), expected);
    assert_eq!(Command::parse("\u{2003}cycle 5\u{85}"), expected);
}

#[test]
fn only_ascii_white_space_separates_arguments() {
    // A no-break space is part of the token, and so is a vertical tab.
    assert_eq!(
        Command::parse("cycle\u{a0}5"),
        Err(CommandParseError::InvalidArgument { index: 0 })
    );
    assert_eq!(
        Command::parse("cycle a\u{b}b"),
        Ok(vec![command("cycle", CommandDelegate::Cycle, vec![text("a\u{b}b")])])
    );
    assert_eq!(
        Command::parse("cycle a\u{c}b"),
        Err(CommandParseError::InvalidArgumentNum { expected: 1, got: 2 })
    );
    for c in [' ', '\t', '\n', '\x0C', '\r'] {
        assert!(is_ascii_space(c));
    }
    for c in ['\x0B', '\u{a0}', 'a', ';', '\u{2003}', '\0'] {
        assert!(!is_ascii_space(c));
    }
}

#[test]
fn arguments_by_themselves() {
    assert_eq!(Arg::parse("10"), Some(Arg::UInt(10)));
    assert_eq!(Arg::parse("+10"), Some(Arg::UInt(10)));
    assert_eq!(Arg::parse("0"), Some(Arg::UInt(0)));
    assert_eq!(Arg::parse("ten"), Some(text("ten")));
    assert_eq!(Arg::parse(""), Some(text("")));
    assert_eq!(Arg::parse("+"), Some(text("+")));
    assert_eq!(Arg::parse("1 "), None);
    assert_eq!(Arg::parse("x10"), None);
    assert_eq!(Arg::parse("99999999999"), None);
    assert_eq!(Arg::parse("１"), None);
}

#[test]
fn patterns_and_argument_counts() {
    assert_eq!(CommandDelegate::Cycle.pattern(), "c(?:ycle)?");
    assert_eq!(CommandDelegate::Step.pattern(), "s(?:tep)?");
    assert_eq!(CommandDelegate::Run.pattern(), "r(?:un)?");
    assert_eq!(CommandDelegate::Cycle.argnum(), 1);
    assert_eq!(CommandDelegate::Step.argnum(), 1);
    assert_eq!(CommandDelegate::Run.argnum(), 0);
}

#[test]
fn counting_commands_act_once_by_default() {
    assert_eq!(repetitions(&vec![]), Ok(1));
    assert_eq!(repetitions(&vec![Arg::UInt(0)]), Ok(0));
    assert_eq!(repetitions(&vec![Arg::UInt(250)]), Ok(250));
    assert_eq!(repetitions(&vec![Arg::UInt(7), text("x")]), Ok(7));
    assert_eq!(
        repetitions(&vec![text("often")]),
        Err(CommandRunError::InvalidArgumentType(0, Arg::UInt(0), text("often")))
    );
}

#[test]
fn a_copy_of_an_argument() {
    assert_eq!(Arg::UInt(5).duplicate(), Arg::UInt(5));
    assert_eq!(text("abc").duplicate(), text("abc"));
}

#[test]
fn arguments_and_commands_as_text() {
    assert_eq!(Arg::UInt(0).to_text(), "0");
    assert_eq!(Arg::UInt(7).to_text(), "7");
    assert_eq!(Arg::UInt(10).to_text(), "10");
    assert_eq!(Arg::UInt(4_000_000_123).to_text(), "4000000123");
    assert_eq!(Arg::UInt(u32::MAX).to_text(), "4294967295");
    assert_eq!(text("héllo").to_text(), "héllo");
    for value in [1u32, 9, 99, 100, 101, 65_535, 65_536, 999_999_999, 1_000_000_000] {
        assert_eq!(Arg::UInt(value).to_text(), format!("{}", value));
    }
    assert_eq!(command("cycle", CommandDelegate::Cycle, vec![]).to_text(), "cycle");
    assert_eq!(command("c", CommandDelegate::Cycle, vec![Arg::UInt(12)]).to_text(), "c 12");
    assert_eq!(
        command("step", CommandDelegate::Step, vec![text("a"), Arg::UInt(3)]).to_text(),
        "step a 3"
    );
}

#[test]
fn the_prompt_shows_the_last_command() {
    assert_eq!(nesferratu_core::debugger::format_prompt(None), ">> ");
    let last = command("s", CommandDelegate::Step, vec![Arg::UInt(5)]);
    assert_eq!(nesferratu_core::debugger::format_prompt(Some(&last)), "[s 5] >> ");
}

#[test]
fn a_parsed_command_is_shown_as_it_was_typed() {
    let commands = Command::parse("  cycle   25 ; s").unwrap();
    assert_eq!(commands[0].to_text(), "cycle 25");
    assert_eq!(commands[1].to_text(), "s");
}
