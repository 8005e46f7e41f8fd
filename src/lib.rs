//! Creates empty files, refusing to overwrite, or renders shell completions,
//! a markdown help page or a man page in place of a file.
//!
//! The library decides what an invocation does: it validates the parsed
//! arguments, chooses the one action to perform, and words every message.
//! The program around it performs the action.

pub mod action;
pub mod cli;
pub mod conflict;
pub mod create;
pub mod laws;

pub use action::{plan_action, Action};
pub use cli::{Cli, RenderFlag};
pub use create::{already_exists_message, check_new_file, creating_message};
pub use conflict::{
    digit_text, filename_conflict_message, flag_list_text, handle_argument_conflict,
    missing_filename_message, too_many_flags_message, CliError, ErrorKind,
};
pub use laws::{
    lemma_at_most_one_render_flag, lemma_filename_alone_creates, lemma_filename_excludes_render_flags,
    lemma_nothing_requested, lemma_one_render_flag_renders, lemma_set_flags_exact,
};
