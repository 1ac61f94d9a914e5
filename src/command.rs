use vstd::prelude::*;

verus! {

/// The usage text of the tool as a whole: its global flags and its commands.
pub const NOTION_USAGE: &'static str = "
Notion: the hassle-free Node.js manager

Usage:
    notion [-v | --verbose] <command> [<args> ...]
    notion -h | --help
    notion -V | --version

Options:
    -h, --help     Display this message
    -v, --verbose  Verbose output
    -V, --version  Print version info and exit

Commands:
    install        Install a toolchain to the local machine
    pin            Select a toolchain for the current project
    use            Select a toolchain for the current project (alias of pin)
    config         Get or set configuration values
    current        Display the currently activated toolchain
    deactivate     Remove Notion from the current shell
    activate       Re-enable Notion in the current shell
    fetch          Fetch a toolchain to the local machine
    help           Display this message or the help of a command
    version        Print Notion's version

See 'notion help <command>' for more information on a specific command.
";

pub const PIN_USAGE: &'static str = "
Select a toolchain for the current project

Usage:
    notion pin <tool> <version>
    notion pin -h | --help

Options:
    -h, --help     Display this message
";

pub const USE_USAGE: &'static str = "
Select a toolchain for the current project

Usage:
    notion use <tool> <version>
    notion use -h | --help

Options:
    -h, --help     Display this message
";

pub const CONFIG_USAGE: &'static str = "
Get or set configuration values

Usage:
    notion config get <key>
    notion config set <key> <value>
    notion config delete <key>
    notion config list
    notion config edit
    notion config -h | --help

Options:
    -h, --help     Display this message
";

pub const CURRENT_USAGE: &'static str = "
Display the currently activated toolchain

Usage:
    notion current [options]

Options:
    -h, --help     Display this message
    -l, --local    Display local toolchain
    -g, --global   Display global toolchain
";

pub const DEACTIVATE_USAGE: &'static str = "
Remove Notion from the current shell

Usage:
    notion deactivate
    notion deactivate -h | --help

Options:
    -h, --help     Display this message
";

pub const ACTIVATE_USAGE: &'static str = "
Re-enable Notion in the current shell

Usage:
    notion activate
    notion activate -h | --help

Options:
    -h, --help     Display this message
";

pub const HELP_USAGE: &'static str = "
Get some help with a Notion command

Usage:
    notion help [<command>]
    notion help -h | --help

Options:
    -h, --help     Display this message
";

pub const VERSION_USAGE: &'static str = "
Print Notion's version

Usage:
    notion version
    notion version -h | --help

Options:
    -h, --help     Display this message
";

pub const FETCH_USAGE: &'static str = "
Fetch a tool to the local machine

Usage:
    notion fetch <tool> <version>
    notion fetch -h | --help

Options:
    -h, --help     Display this message
";

pub const INSTALL_USAGE: &'static str = "
Install a tool in the user toolchain

Usage:
    notion install <tool> <version>
    notion install -h | --help

Options:
    -h, --help     Display this message
";

/// The closed set of commands that the tool knows, the help command included.
#[derive(Clone, Copy, Debug, PartialEq, Eq, Structural)]
pub enum CommandName {
    Pin,
    Use,
    Config,
    Current,
    Deactivate,
    Activate,
    Help,
    Version,
    Fetch,
    Install,
}

impl CommandName {
    /// The word that names this command on the command line.
    pub open spec fn name(self) -> Seq<char> {
        match self {
            CommandName::Pin => "pin"@,
            CommandName::Use => "use"@,
            CommandName::Config => "config"@,
            CommandName::Current => "current"@,
            CommandName::Deactivate => "deactivate"@,
            CommandName::Activate => "activate"@,
            CommandName::Help => "help"@,
            CommandName::Version => "version"@,
            CommandName::Fetch => "fetch"@,
            CommandName::Install => "install"@,
        }
    }

    /// The command that `s` names exactly, if any.
    pub open spec fn named(s: Seq<char>) -> Option<CommandName> {
        if exists|c: CommandName| c.name() == s {
            Some(choose|c: CommandName| c.name() == s)
        } else {
            None
        }
    }

    /// The usage text registered for this command.
    pub open spec fn usage(self) -> Seq<char> {
        match self {
            CommandName::Pin => PIN_USAGE@,
            CommandName::Use => USE_USAGE@,
            CommandName::Config => CONFIG_USAGE@,
            CommandName::Current => CURRENT_USAGE@,
            CommandName::Deactivate => DEACTIVATE_USAGE@,
            CommandName::Activate => ACTIVATE_USAGE@,
            CommandName::Help => HELP_USAGE@,
            CommandName::Version => VERSION_USAGE@,
            CommandName::Fetch => FETCH_USAGE@,
            CommandName::Install => INSTALL_USAGE@,
        }
    }

    /// Distinct commands have distinct names.
    pub proof fn lemma_name_injective(a: CommandName, b: CommandName)
        ensures
            a.name() == b.name() ==> a == b,
    {
        reveal_strlit("pin");
        reveal_strlit("use");
        reveal_strlit("config");
        reveal_strlit("current");
        reveal_strlit("deactivate");
        reveal_strlit("activate");
        reveal_strlit("help");
        reveal_strlit("version");
        reveal_strlit("fetch");
        reveal_strlit("install");
        if a.name() == b.name() && a != b {
            assert(a.name().len() == b.name().len());
            assert(a.name()[0] == b.name()[0]);
            assert(a.name()[1] == b.name()[1]);
            assert(a.name()[2] == b.name()[2]);
        }
    }

    /// Each command is named by its own word and by no other.
    pub proof fn lemma_named_of_name(c: CommandName)
        ensures
            CommandName::named(c.name()) == Some(c),
    {
        let d = choose|d: CommandName| d.name() == c.name();
        CommandName::lemma_name_injective(c, d);
    }

    /// The word that names this command.
    pub fn as_str(self) -> (r: &'static str)
        ensures
            r@ == self.name(),
    {
        match self {
            CommandName::Pin => "pin",
            CommandName::Use => "use",
            CommandName::Config => "config",
            CommandName::Current => "current",
            CommandName::Deactivate => "deactivate",
            CommandName::Activate => "activate",
            CommandName::Help => "help",
            CommandName::Version => "version",
            CommandName::Fetch => "fetch",
            CommandName::Install => "install",
        }
    }

    /// Every command, in declaration order.
    pub fn all() -> (r: Vec<CommandName>)
        ensures
            forall|c: CommandName| r@.contains(c),
    {
        let r = vec![
            CommandName::Pin,
            CommandName::Use,
            CommandName::Config,
            CommandName::Current,
            CommandName::Deactivate,
            CommandName::Activate,
            CommandName::Help,
            CommandName::Version,
            CommandName::Fetch,
            CommandName::Install,
        ];
        assert forall|c: CommandName| r@.contains(c) by {
            match c {
                CommandName::Pin => assert(r@[0] == c),
                CommandName::Use => assert(r@[1] == c),
                CommandName::Config => assert(r@[2] == c),
                CommandName::Current => assert(r@[3] == c),
                CommandName::Deactivate => assert(r@[4] == c),
                CommandName::Activate => assert(r@[5] == c),
                CommandName::Help => assert(r@[6] == c),
                CommandName::Version => assert(r@[7] == c),
                CommandName::Fetch => assert(r@[8] == c),
                CommandName::Install => assert(r@[9] == c),
            }
        }
        r
    }

    /// Looks up the command that `s` names, matching the word exactly and
    /// case-sensitively.
    pub fn parse(s: &str) -> (r: Option<CommandName>)
        ensures
            r == CommandName::named(s@),
    {
        let wanted = String::from_str(s);
        let all = CommandName::all();
        let mut i: usize = 0;
        while i < all.len()
            invariant
                0 <= i <= all@.len(),
                wanted@ == s@,
                forall|c: CommandName| all@.contains(c),
                forall|j: int| 0 <= j < i ==> all@[j].name() != s@,
            decreases all@.len() - i,
        {
            let c = all[i];
            let word = String::from_str(c.as_str());
            if word == wanted {
                proof {
                    CommandName::lemma_named_of_name(c);
                }
                return Some(c);
            }
            i = i + 1;
        }
        assert forall|c: CommandName| c.name() != s@ by {
            assert(all@.contains(c));
            let j = choose|j: int| 0 <= j < all@.len() && all@[j] == c;
            assert(all@[j].name() != s@);
        }
        None
    }

    /// The usage text registered for this command.
    pub fn usage_text(self) -> (r: &'static str)
        ensures
            r@ == self.usage(),
    {
        match self {
            CommandName::Pin => PIN_USAGE,
            CommandName::Use => USE_USAGE,
            CommandName::Config => CONFIG_USAGE,
            CommandName::Current => CURRENT_USAGE,
            CommandName::Deactivate => DEACTIVATE_USAGE,
            CommandName::Activate => ACTIVATE_USAGE,
            CommandName::Help => HELP_USAGE,
            CommandName::Version => VERSION_USAGE,
            CommandName::Fetch => FETCH_USAGE,
            CommandName::Install => INSTALL_USAGE,
        }
    }
}

} // verus!
