use bigworlds::client::{ClientConfig, CompressionPolicy};
use bigworlds::error::Error;
use bigworlds::interactive::{create_prompt, parse_command, show_line, split_first_word, widest_addr, ReplCommand, RunState};
use bigworlds::machine::cmd::spawn::Spawn;
use bigworlds::machine::cmd::{Command, CommandResult};
use bigworlds::machine::error::ErrorKind;
use bigworlds::machine::search::command_search;
use bigworlds::machine::{CommandPrototype, LocationInfo};
use bigworlds::text::{parse_i32, parse_usize, trim, IntParseErrorKind, SignedParseErrorKind};

fn proto(name: &str, args: &[&str]) -> CommandPrototype {
    CommandPrototype {
        name: Some(name.to_string()),
        arguments: Some(args.iter().map(|a| a.to_string()).collect()),
        output: None,
    }
}

#[test]
fn parse_usize_reads_numbers_like_std() {
    assert_eq!(parse_usize("42"), Ok(42));
    assert_eq!(parse_usize("+7"), Ok(7));
    assert_eq!(parse_usize(""), Err(IntParseErrorKind::Empty));
    assert_eq!(parse_usize("-"), Err(IntParseErrorKind::InvalidDigit));
    assert_eq!(parse_usize("4x"), Err(IntParseErrorKind::InvalidDigit));
    assert_eq!(parse_usize("99999999999999999999999"), Err(IntParseErrorKind::PosOverflow));
}

#[test]
fn parse_i32_reads_signed_numbers_like_std() {
    assert_eq!(parse_i32("-12"), Ok(-12));
    assert_eq!(parse_i32("+12"), Ok(12));
    assert_eq!(parse_i32("2147483647"), Ok(i32::MAX));
    assert_eq!(parse_i32("-2147483648"), Ok(i32::MIN));
    assert_eq!(parse_i32("2147483648"), Err(SignedParseErrorKind::PosOverflow));
    assert_eq!(parse_i32("-2147483649"), Err(SignedParseErrorKind::NegOverflow));
    assert_eq!(parse_i32("1a"), Err(SignedParseErrorKind::InvalidDigit));
    assert_eq!(parse_i32(""), Err(SignedParseErrorKind::Empty));
}

#[test]
fn trim_and_split_first_word() {
    assert_eq!(trim("  run 5  "), "run 5");
    assert_eq!(split_first_word("  cfg   show_on true "), ("cfg", "show_on true"));
    assert_eq!(split_first_word("quit"), ("quit", ""));
    assert_eq!(split_first_word("   "), ("", ""));
}

#[test]
fn compression_policy_from_str() {
    assert!(matches!(CompressionPolicy::from_str("all"), Ok(CompressionPolicy::Everything)));
    assert!(matches!(CompressionPolicy::from_str("everything"), Ok(CompressionPolicy::Everything)));
    assert!(matches!(CompressionPolicy::from_str("only_data"), Ok(CompressionPolicy::OnlyDataTransfers)));
    assert!(matches!(CompressionPolicy::from_str("nothing"), Ok(CompressionPolicy::Nothing)));
    assert!(matches!(CompressionPolicy::from_str("larger_than_1024"), Ok(CompressionPolicy::LargerThan(1024))));
    assert!(matches!(CompressionPolicy::from_str("bigger_than_5"), Ok(CompressionPolicy::LargerThan(5))));
    match CompressionPolicy::from_str("larger_than_x") {
        Err(Error::Other(m)) => assert_eq!(m, "invalid digit found in string"),
        other => panic!("unexpected: {:?}", other),
    }
    match CompressionPolicy::from_str("some") {
        Err(Error::Other(m)) => assert_eq!(m, "failed parsing compression policy from string: some"),
        other => panic!("unexpected: {:?}", other),
    }
}

#[test]
fn client_config_default() {
    let c = ClientConfig::default();
    assert_eq!(c.name, "default_client");
    assert_eq!(c.heartbeat_interval.map(|d| d.micros), Some(1_000_000));
    assert!(!c.is_blocking);
    assert!(matches!(c.compress, CompressionPolicy::OnlyDataTransfers));
}

#[test]
fn command_result_from_str() {
    assert!(matches!(CommandResult::from_str("jump.12"), Some(CommandResult::JumpToLine(12))));
    assert!(matches!(CommandResult::from_str("OK"), Some(CommandResult::Continue)));
    assert!(matches!(CommandResult::from_str("continue"), Some(CommandResult::Continue)));
    assert!(matches!(CommandResult::from_str("break"), Some(CommandResult::Break)));
    assert!(CommandResult::from_str("nope").is_none());
}

#[test]
fn location_info_to_string() {
    let loc = LocationInfo::empty();
    assert_eq!(loc.to_string(), "Source: unknown, Line: 0");
    let mut loc = LocationInfo::empty().with_source("/proj", "logic.toml");
    loc.source_line = Some(17);
    assert_eq!(loc.to_string(), "Source: logic.toml, Line: 17");
    assert_eq!(loc.root.as_deref(), Some("/proj"));
}

#[test]
fn command_search_finds_end_and_middles() {
    let commands = vec![
        proto("if", &[]),
        proto("print", &[]),
        proto("else", &[]),
        proto("if", &[]),
        proto("end", &[]),
        proto("end", &[]),
    ];
    let begin = vec!["if".to_string()];
    let middle = vec!["else".to_string()];
    let end = vec!["end".to_string()];
    let none: Vec<String> = vec![];
    let res = command_search(&LocationInfo::empty(), &commands, (1, None), (&begin, &middle, &end), (&none, &none), true);
    match res {
        Ok(Some((e, middles))) => {
            assert_eq!(e, 5);
            assert_eq!(middles, vec![2]);
        }
        other => panic!("unexpected: {:?}", other),
    }
}

#[test]
fn command_search_reports_missing_end() {
    let commands = vec![proto("if", &[]), proto("print", &[])];
    let begin = vec!["if".to_string()];
    let end = vec!["end".to_string()];
    let none: Vec<String> = vec![];
    match command_search(&LocationInfo::empty(), &commands, (1, None), (&begin, &none, &end), (&none, &none), true) {
        Err(e) => match e.kind {
            ErrorKind::CommandSearchFailed(m) => assert_eq!(m, "no end of structure for begin defs: [\"if\"]"),
            other => panic!("unexpected: {:?}", other),
        },
        other => panic!("unexpected: {:?}", other),
    }
    match command_search(&LocationInfo::empty(), &commands, (0, None), (&none, &none, &end), (&none, &none), true) {
        Err(e) => match e.kind {
            ErrorKind::CommandSearchFailed(m) => {
                assert_eq!(m, "command search requires begin definitions to be non-empty")
            }
            other => panic!("unexpected: {:?}", other),
        },
        other => panic!("unexpected: {:?}", other),
    }
}

#[test]
fn command_search_rejects_nesting_without_recursion() {
    let commands = vec![proto("if", &[]), proto("if", &[]), proto("end", &[])];
    let begin = vec!["if".to_string()];
    let end = vec!["end".to_string()];
    let none: Vec<String> = vec![];
    match command_search(&LocationInfo::empty(), &commands, (1, None), (&begin, &none, &end), (&none, &none), false) {
        Err(e) => match e.kind {
            ErrorKind::CommandSearchFailed(m) => assert_eq!(m, "bad nesting: got if"),
            other => panic!("unexpected: {:?}", other),
        },
        other => panic!("unexpected: {:?}", other),
    }
}

#[test]
fn command_from_prototype_builds_known_commands() {
    let loc = LocationInfo::empty();
    let commands = vec![];
    match Command::from_prototype(&proto("goto", &["idle"]), &loc, &commands) {
        Ok(Command::Goto(g)) => assert_eq!(g.target_state, "idle"),
        other => panic!("unexpected: {:?}", other),
    }
    match Command::from_prototype(&proto("invoke", &["tick", "tock"]), &loc, &commands) {
        Ok(Command::Invoke(i)) => assert_eq!(i.events, vec!["tick".to_string(), "tock".to_string()]),
        other => panic!("unexpected: {:?}", other),
    }
    assert!(matches!(Command::from_prototype(&proto("break", &[]), &loc, &commands), Ok(Command::Break(_))));
    match Command::from_prototype(&proto("fly", &[]), &loc, &commands) {
        Err(e) => assert!(matches!(e.kind, ErrorKind::UnknownCommand(ref n) if n == "fly")),
        other => panic!("unexpected: {:?}", other),
    }
    for name in ["print", "set", "query", "entity", "if", "loop", "eval", "component", "while"] {
        match Command::from_prototype(&proto(name, &["x"]), &loc, &commands) {
            Err(e) => assert!(matches!(e.kind, ErrorKind::CommandNotAvailable(ref n) if n == name)),
            other => panic!("unexpected: {:?}", other),
        }
    }
    let nameless = CommandPrototype { name: None, arguments: None, output: None };
    match Command::from_prototype(&nameless, &loc, &commands) {
        Err(e) => assert!(matches!(e.kind, ErrorKind::NoCommandPresent)),
        other => panic!("unexpected: {:?}", other),
    }
}

#[test]
fn spawn_command_reads_its_options() {
    let loc = LocationInfo::empty();
    let commands = vec![];
    match Command::from_prototype(&proto("spawn", &["tree", "oak", "--out", "/oak/name"]), &loc, &commands) {
        Ok(Command::Spawn(s)) => {
            assert_eq!(s.prefab.as_deref(), Some("tree"));
            assert_eq!(s.spawn_id.as_deref(), Some("oak"));
            assert_eq!(s.out.as_deref(), Some("/oak/name"));
        }
        other => panic!("unexpected: {:?}", other),
    }
    match Command::from_prototype(&proto("spawn", &["a", "b", "c"]), &loc, &commands) {
        Err(e) => match e.kind {
            ErrorKind::InvalidCommandBody(m) => assert_eq!(m, "can't accept more than 2 arguments"),
            other => panic!("unexpected: {:?}", other),
        },
        other => panic!("unexpected: {:?}", other),
    }
    match Command::from_prototype(&proto("spawn", &["--bogus"]), &loc, &commands) {
        Err(e) => assert!(matches!(e.kind, ErrorKind::ParseError(_))),
        other => panic!("unexpected: {:?}", other),
    }
}

#[test]
fn spawn_command_from_parsed_arguments() {
    let loc = LocationInfo::empty();
    let args = vec!["tree".to_string(), "-o".to_string(), "out".to_string(), "oak".to_string()];
    let parsed = Ok((vec!["tree".to_string(), "oak".to_string()], Some("out".to_string())));
    let sp = Spawn::from_parsed(args.clone(), parsed, &loc).unwrap();
    assert_eq!(sp.prefab.as_deref(), Some("tree"));
    assert_eq!(sp.spawn_id.as_deref(), Some("-o"));
    assert_eq!(sp.out.as_deref(), Some("out"));
    match Spawn::from_parsed(args, Err("bad option".to_string()), &loc) {
        Err(e) => assert!(matches!(e.kind, ErrorKind::ParseError(ref m) if m == "bad option")),
        other => panic!("unexpected: {:?}", other),
    }
}

#[test]
fn paced_run_steps_after_a_full_interval() {
    let mut run = RunState::new();
    run.start_freq(4);
    assert!(!run.tick_freq(249_999_999));
    assert!(!run.do_run);
    assert!(run.tick_freq(250_000_000));
    assert!(run.do_run);
    let mut run = RunState::new();
    run.start_freq(3);
    assert!(run.tick_freq(333_333_333));
    assert!(!run.tick_freq(333_333_332));
}

#[test]
fn goto_switches_state() {
    let loc = LocationInfo::empty();
    match Command::from_prototype(&proto("goto", &["running"]), &loc, &vec![]) {
        Ok(Command::Goto(g)) => {
            let mut state = "idle".to_string();
            assert!(matches!(g.execute_loc(&mut state), CommandResult::Continue));
            assert_eq!(state, "running");
        }
        other => panic!("unexpected: {:?}", other),
    }
}

#[test]
fn repl_parses_commands() {
    assert_eq!(parse_command(""), ReplCommand::Turn);
    assert_eq!(parse_command("run 10"), ReplCommand::Run(10));
    assert_eq!(parse_command("runf 3"), ReplCommand::RunFast(3));
    assert_eq!(parse_command("run-freq"), ReplCommand::RunFreq(10));
    assert_eq!(parse_command("run-freq 60"), ReplCommand::RunFreq(60));
    assert_eq!(parse_command("l"), ReplCommand::List);
    assert_eq!(parse_command("snap my file"), ReplCommand::SnapPathHasSpaces);
    assert_eq!(parse_command("cfg show_on true"), ReplCommand::Cfg("show_on".to_string(), "true".to_string()));
    assert_eq!(parse_command("cfg-get turn_ticks"), ReplCommand::CfgGet("turn_ticks".to_string()));
    assert_eq!(parse_command("  quit  "), ReplCommand::Quit);
    assert_eq!(parse_command("dance now"), ReplCommand::Unknown("dance now".to_string()));
    assert_eq!(parse_command("spawn tree oak"), ReplCommand::Spawn("tree".to_string(), "oak".to_string()));
    assert_eq!(parse_command("spawn tree oak extra"), ReplCommand::Spawn("tree".to_string(), "oak".to_string()));
    assert_eq!(parse_command("spawn tree  oak"), ReplCommand::Spawn("tree".to_string(), String::new()));
}

#[test]
fn run_loop_counts_down() {
    let mut s = RunState::new();
    assert!(!s.running());
    s.start_run(2);
    assert!(s.running());
    s.tick_loop();
    assert!(s.do_run);
    assert_eq!(s.run_loop_count, 1);
    s.tick_loop();
    assert!(s.do_run);
    assert_eq!(s.run_loop_count, 0);
    s.tick_loop();
    assert!(!s.do_run);
    assert!(!s.do_run_loop);
    s.start_freq(30);
    assert_eq!(s.do_run_freq, Some(30));
    s.stop();
    assert!(!s.running());
}

#[test]
fn prompt_fills_format_slots() {
    assert_eq!(create_prompt("", None, 12), "[12] ");
    let values = vec!["3".to_string(), "May".to_string()];
    assert_eq!(create_prompt("day {} of {}", Some(&values), 7), "[day 3 of May] ");
    assert_eq!(create_prompt("day {}", Some(&values), 7), "[7] ");
    assert_eq!(create_prompt("day {} of {}", None, 7), "[7] ");
    let tricky = vec!["{}".to_string(), "x".to_string()];
    assert_eq!(create_prompt("{}-{}", Some(&tricky), 0), "[x-{}] ");
}

#[test]
fn show_lines_line_up() {
    let list = vec!["/a/b".to_string(), "/long/addr".to_string()];
    let w = widest_addr(&list);
    assert_eq!(w, 10);
    assert_eq!(show_line("/a/b", w, "5"), "/a/b            5");
    assert_eq!(show_line("/long/addr", w, "x"), "/long/addr      x");
}
