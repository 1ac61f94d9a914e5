use notion::{
    handle, ActivityKind, Args, CommandName, Event, ExitCode, Help, Session, ACTIVATE_USAGE,
    CONFIG_USAGE, CURRENT_USAGE, DEACTIVATE_USAGE, FETCH_USAGE, HELP_USAGE, INSTALL_USAGE,
    NOTION_USAGE, PIN_USAGE, USE_USAGE, VERSION_USAGE,
};

fn args(name: Option<&str>) -> Args {
    Args {
        arg_command: name.map(|s| s.to_string()),
    }
}

fn help_events(code: ExitCode) -> Vec<Event> {
    vec![
        Event::Start(ActivityKind::Help),
        Event::End(ActivityKind::Help, code),
    ]
}

fn registry() -> Vec<(&'static str, CommandName, &'static str)> {
    vec![
        ("pin", CommandName::Pin, PIN_USAGE),
        ("use", CommandName::Use, USE_USAGE),
        ("config", CommandName::Config, CONFIG_USAGE),
        ("current", CommandName::Current, CURRENT_USAGE),
        ("deactivate", CommandName::Deactivate, DEACTIVATE_USAGE),
        ("activate", CommandName::Activate, ACTIVATE_USAGE),
        ("help", CommandName::Help, HELP_USAGE),
        ("version", CommandName::Version, VERSION_USAGE),
        ("fetch", CommandName::Fetch, FETCH_USAGE),
        ("install", CommandName::Install, INSTALL_USAGE),
    ]
}

#[test]
fn no_command_gives_general_usage() {
    let mut session = Session::new();
    let r = handle(args(None), &mut session);
    assert_eq!(r.ok(), Some(NOTION_USAGE));
    assert_eq!(session.events(), &help_events(ExitCode::Success));
    assert_eq!(ExitCode::Success.code(), 0);
}

#[test]
fn pin_gives_pin_usage() {
    let mut session = Session::new();
    let r = handle(args(Some("pin")), &mut session);
    assert_eq!(r.ok(), Some(PIN_USAGE));
    assert_eq!(session.events(), &help_events(ExitCode::Success));
}

#[test]
fn help_gives_its_own_usage() {
    let mut session = Session::new();
    let r = handle(args(Some("help")), &mut session);
    assert_eq!(r.ok(), Some(HELP_USAGE));
    assert!(HELP_USAGE.contains("notion help [<command>]"));
    assert_eq!(session.events(), &help_events(ExitCode::Success));
}

#[test]
fn unknown_command_is_rejected() {
    let mut session = Session::new();
    let r = handle(args(Some("frobnicate")), &mut session);
    let e = match r {
        Err(e) => e,
        Ok(_) => panic!("an unknown command was accepted"),
    };
    assert_eq!(e.error, "no such command: `frobnicate`");
    assert!(e.usage.is_none());
    assert_eq!(e.exit_code(), ExitCode::InvalidArguments);
    assert_ne!(e.exit_code().code(), 0);
    assert_eq!(session.events(), &help_events(ExitCode::InvalidArguments));
}

#[test]
fn every_known_name_resolves_to_its_command() {
    for (word, name, usage) in registry() {
        let h = Help::parse(args(Some(word))).ok().unwrap();
        assert_eq!(h, Help::Command(name));
        assert_eq!(h.select_usage(), usage);
        assert_eq!(name.as_str(), word);
        assert_eq!(name.usage_text(), usage);
        assert!(!usage.is_empty());
    }
}

#[test]
fn command_names_are_case_sensitive_and_exact() {
    for word in ["Pin", "PIN", " pin", "pin ", "pi", "pins", "", "notion"] {
        let e = Help::parse(args(Some(word))).err().unwrap();
        assert_eq!(e.error, format!("no such command: `{}`", word));
        assert!(e.error.contains(word));
    }
}

#[test]
fn unknown_name_message_keeps_the_name_verbatim() {
    let word = "ünïcode `quoted`";
    let e = Help::parse(args(Some(word))).err().unwrap();
    assert_eq!(e.error, "no such command: `ünïcode `quoted``");
}

#[test]
fn absent_name_is_general_help() {
    let h = Help::parse(args(None)).ok().unwrap();
    assert_eq!(h, Help::Notion);
    assert_eq!(h.select_usage(), NOTION_USAGE);
}

#[test]
fn help_flag_asks_for_help_usage() {
    assert_eq!(Help::help(), Help::Command(CommandName::Help));
    assert_eq!(Help::help().select_usage(), HELP_USAGE);
}

#[test]
fn run_records_start_then_end_after_earlier_events() {
    let mut session = Session::new();
    session.add_event_start(ActivityKind::Install);
    session.add_event_end(ActivityKind::Install, ExitCode::UnknownError);
    let text = Help::Command(CommandName::Fetch).run(&mut session);
    assert_eq!(text, FETCH_USAGE);
    assert_eq!(
        session.events(),
        &vec![
            Event::Start(ActivityKind::Install),
            Event::End(ActivityKind::Install, ExitCode::UnknownError),
            Event::Start(ActivityKind::Help),
            Event::End(ActivityKind::Help, ExitCode::Success),
        ]
    );
}

#[test]
fn all_lists_each_command_once() {
    let all = CommandName::all();
    assert_eq!(all.len(), 10);
    for (_, name, _) in registry() {
        assert_eq!(all.iter().filter(|c| **c == name).count(), 1);
    }
    for c in all {
        assert_eq!(CommandName::parse(c.as_str()), Some(c));
    }
}

#[test]
fn exit_codes() {
    assert_eq!(ExitCode::Success.code(), 0);
    assert_eq!(ExitCode::UnknownError.code(), 1);
    assert_eq!(ExitCode::InvalidArguments.code(), 2);
}
