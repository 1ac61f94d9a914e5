use vstd::prelude::*;

use crate::command::{CommandName, NOTION_USAGE};
use crate::error::CliParseError;
use crate::session::{ActivityKind, Event, ExitCode, Session};

verus! {

/// The arguments of the `help` command: the optional command name.
pub struct Args {
    pub arg_command: Option<String>,
}

/// What the user asked help for.
#[derive(Clone, Copy, Debug, PartialEq, Eq, Structural)]
pub enum Help {
    /// No command was named: the tool's general usage.
    Notion,
    /// The usage of one command.
    Command(CommandName),
}

/// The message given for a command name that names no command.
pub open spec fn no_such_command(name: Seq<char>) -> Seq<char> {
    "no such command: `"@ + name + "`"@
}

/// The view of an optional command-line argument.
pub open spec fn arg_view(raw: Option<String>) -> Option<Seq<char>> {
    match raw {
        Some(s) => Some(s@),
        None => None,
    }
}

/// What resolving an optional command name gives: the help request, or the
/// message of the parse error.
pub open spec fn resolution(raw: Option<Seq<char>>) -> Result<Help, Seq<char>> {
    match raw {
        None => Ok(Help::Notion),
        Some(s) => match CommandName::named(s) {
            Some(c) => Ok(Help::Command(c)),
            None => Err(no_such_command(s)),
        },
    }
}

/// Whether `r` is what resolving `raw` gives: the same request, or a parse
/// error without usage text and with the same message.
pub open spec fn resolves_to(raw: Option<Seq<char>>, r: Result<Help, CliParseError>) -> bool {
    match resolution(raw) {
        Ok(h) => r matches Ok(g) && g == h,
        Err(m) => r matches Err(e) && e.usage is None && e.error@ == m,
    }
}

impl Help {
    /// The usage text that this request selects.
    pub open spec fn usage(self) -> Seq<char> {
        match self {
            Help::Notion => NOTION_USAGE@,
            Help::Command(c) => c.usage(),
        }
    }

    /// The help command's request for its own usage, as `help --help` gives.
    pub fn help() -> (r: Help)
        ensures
            r == Help::Command(CommandName::Help),
    {
        Help::Command(CommandName::Help)
    }

    /// Resolves the optional command name into a help request.
    pub fn parse(args: Args) -> (r: Result<Help, CliParseError>)
        ensures
            resolves_to(arg_view(args.arg_command), r),
    {
        match args.arg_command {
            None => Ok(Help::Notion),
            Some(command) => match CommandName::parse(command.as_str()) {
                Some(name) => Ok(Help::Command(name)),
                None => {
                    let mut error = String::from_str("no such command: `");
                    error.append(command.as_str());
                    error.append("`");
                    Err(CliParseError { usage: None, error })
                },
            },
        }
    }

    /// The usage text that this request selects.
    pub fn select_usage(&self) -> (r: &'static str)
        ensures
            r@ == self.usage(),
    {
        match self {
            Help::Notion => NOTION_USAGE,
            Help::Command(c) => c.usage_text(),
        }
    }

    /// Runs the request: records its start, selects the usage text to show on
    /// the diagnostic stream, and records its successful end.
    pub fn run(self, session: &mut Session) -> (r: &'static str)
        ensures
            r@ == self.usage(),
            final(session)@ == old(session)@ + seq![
                Event::Start(ActivityKind::Help),
                Event::End(ActivityKind::Help, ExitCode::Success),
            ],
    {
        session.add_event_start(ActivityKind::Help);
        let text = self.select_usage();
        session.add_event_end(ActivityKind::Help, ExitCode::Success);
        text
    }
}

/// Handles one `help` invocation from its arguments: the usage text to show,
/// or the parse error. A start and an end event are recorded either way; the
/// end carries the error's exit code when resolution fails.
pub fn handle(args: Args, session: &mut Session) -> (r: Result<&'static str, CliParseError>)
    ensures
        match resolution(arg_view(args.arg_command)) {
            Ok(h) => {
                &&& r matches Ok(text) && text@ == h.usage()
                &&& final(session)@ == old(session)@ + seq![
                    Event::Start(ActivityKind::Help),
                    Event::End(ActivityKind::Help, ExitCode::Success),
                ]
            },
            Err(m) => {
                &&& r matches Err(e) && e.usage is None && e.error@ == m
                &&& final(session)@ == old(session)@ + seq![
                    Event::Start(ActivityKind::Help),
                    Event::End(ActivityKind::Help, ExitCode::InvalidArguments),
                ]
            },
        },
{
    match Help::parse(args) {
        Ok(help) => Ok(help.run(session)),
        Err(e) => {
            session.add_event_start(ActivityKind::Help);
            let code = e.exit_code();
            session.add_event_end(ActivityKind::Help, code);
            Err(e)
        },
    }
}

/// Naming a known command resolves to that command's help, which selects
/// exactly the usage text registered for it.
pub proof fn lemma_known_command_resolves(c: CommandName)
    ensures
        resolution(Some(c.name())) == Ok::<Help, Seq<char>>(Help::Command(c)),
        Help::Command(c).usage() == c.usage(),
{
    CommandName::lemma_named_of_name(c);
}

/// A name that no command has is rejected, and the message holds the name
/// exactly as given.
pub proof fn lemma_unknown_name_rejected(s: Seq<char>)
    requires
        forall|c: CommandName| c.name() != s,
    ensures
        resolution(Some(s)) == Err::<Help, Seq<char>>(no_such_command(s)),
        exists|i: int|
            0 <= i && i + s.len() <= no_such_command(s).len() && #[trigger] no_such_command(
                s,
            ).subrange(i, i + s.len()) == s,
{
    let p = "no such command: `"@;
    let m = no_such_command(s);
    let i = p.len() as int;
    assert(CommandName::named(s) is None);
    assert(resolution(Some(s)) == Err::<Help, Seq<char>>(m));
    assert(m.subrange(i, i + s.len()) =~= s);
}

/// Without a command name the request is for general help, which selects the
/// tool's own usage text.
pub proof fn lemma_absent_name_general_help()
    ensures
        resolution(None) == Ok::<Help, Seq<char>>(Help::Notion),
        Help::Notion.usage() == NOTION_USAGE@,
{
}

} // verus!
