use vstd::prelude::*;

use crate::cli::Cli;
use crate::conflict::{conflict, handle_argument_conflict, CliError, ErrorKind};

verus! {

/// The one thing that a valid command line asks for.
#[derive(Debug, PartialEq, Eq)]
pub enum Action {
    /// Write the completion script for this shell to standard output.
    Completions(clap_complete::Shell),
    /// Write the markdown help page to standard output.
    Markdown,
    /// Write the man page to standard output.
    Man,
    /// Create this file, empty, where nothing exists yet.
    CreateFile(String),
}

/// Whether `a` is the action that `cli` asks for: the render flag that is
/// set, or else the file to create.
pub open spec fn is_requested(cli: &Cli, a: Action) -> bool {
    match a {
        Action::Completions(shell) => cli.generate_completions == Some(shell),
        Action::Markdown => cli.generate_completions is None && cli.generate_markdown_page,
        Action::Man => cli.generate_completions is None && !cli.generate_markdown_page
            && cli.generate_man_page,
        Action::CreateFile(name) => cli.generate_completions is None
            && !cli.generate_markdown_page && !cli.generate_man_page && cli.filename is Some
            && name@ == cli.filename->Some_0@,
    }
}

/// Validates the command line and picks the one action it asks for.
pub fn plan_action(cli: &Cli) -> (r: Result<Action, CliError>)
    ensures
        match r {
            Ok(a) => conflict(cli) is None && is_requested(cli, a),
            Err(e) => conflict(cli) == Some(e@),
        },
{
    match handle_argument_conflict(cli) {
        Err(e) => Err(e),
        Ok(()) => {
            if let Some(shell) = cli.generate_completions {
                Ok(Action::Completions(shell))
            } else if cli.generate_markdown_page {
                Ok(Action::Markdown)
            } else if cli.generate_man_page {
                Ok(Action::Man)
            } else {
                match &cli.filename {
                    Some(name) => Ok(Action::CreateFile(name.clone())),
                    // Validation has refused a command line that asks for nothing.
                    None => Err(
                        CliError {
                            kind: ErrorKind::MissingRequiredArgument,
                            message: crate::conflict::missing_filename_message(),
                        },
                    ),
                }
            }
        },
    }
}

} // verus!
