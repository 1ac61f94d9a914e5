//! Command-name resolution and usage-text dispatch for the `help` command of
//! a toolchain manager, with the lifecycle events recorded around it.

mod command;
mod error;
mod help;
mod session;

pub use command::{
    CommandName, ACTIVATE_USAGE, CONFIG_USAGE, CURRENT_USAGE, DEACTIVATE_USAGE, FETCH_USAGE,
    HELP_USAGE, INSTALL_USAGE, NOTION_USAGE, PIN_USAGE, USE_USAGE, VERSION_USAGE,
};
pub use error::CliParseError;
pub use help::{
    arg_view, handle, lemma_absent_name_general_help, lemma_known_command_resolves,
    lemma_unknown_name_rejected, no_such_command, resolution, resolves_to, Args, Help,
};
pub use session::{ActivityKind, Event, ExitCode, Session};
