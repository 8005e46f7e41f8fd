use vstd::prelude::*;

use crate::action::{is_requested, Action};
use crate::cli::{flag_is_set, set_flags, Cli, RenderFlag};
use crate::conflict::{
    conflict, filename_conflict_text, missing_filename_text, too_many_flags_text, ErrorKind,
};

verus! {

/// The flags that `set_flags` lists are exactly the flags that are set,
/// each once.
pub proof fn lemma_set_flags_exact(cli: &Cli)
    ensures
        forall|f: RenderFlag| #[trigger] set_flags(cli).contains(f) <==> flag_is_set(cli, f),
        set_flags(cli).no_duplicates(),
        set_flags(cli).len() <= 3,
{
    let s = set_flags(cli);
    assert forall|f: RenderFlag| #[trigger] s.contains(f) <==> flag_is_set(cli, f) by {
        if flag_is_set(cli, f) {
            let i: int = match f {
                RenderFlag::Completion => 0,
                RenderFlag::Markdown => if flag_is_set(cli, RenderFlag::Completion) { 1 } else { 0 },
                RenderFlag::Man => (if flag_is_set(cli, RenderFlag::Completion) { 1int } else { 0 })
                    + (if flag_is_set(cli, RenderFlag::Markdown) { 1int } else { 0 }),
            };
            assert(s[i] == f);
        }
    }
}

/// A file name given together with any render flag is refused as a
/// conflict, so no action, and no file creation, follows.
pub proof fn lemma_filename_excludes_render_flags(cli: &Cli)
    requires
        cli.filename is Some,
        cli.generate_completions is Some || cli.generate_markdown_page || cli.generate_man_page,
    ensures
        conflict(cli) == Some((ErrorKind::ArgumentConflict, filename_conflict_text())),
{
    lemma_set_flags_exact(cli);
    if cli.generate_completions is Some {
        assert(set_flags(cli).contains(RenderFlag::Completion));
    } else if cli.generate_markdown_page {
        assert(set_flags(cli).contains(RenderFlag::Markdown));
    } else {
        assert(set_flags(cli).contains(RenderFlag::Man));
    }
}

/// Two or three render flags together are refused as a conflict, with or
/// without a file name; without one, the message gives their number and
/// names exactly the flags that are set.
pub proof fn lemma_at_most_one_render_flag(cli: &Cli)
    requires
        set_flags(cli).len() >= 2,
    ensures
        conflict(cli) matches Some((kind, _)) && kind == ErrorKind::ArgumentConflict,
        cli.filename is None ==> conflict(cli) == Some(
            (ErrorKind::ArgumentConflict, too_many_flags_text(set_flags(cli))),
        ),
        forall|f: RenderFlag| #[trigger] set_flags(cli).contains(f) <==> flag_is_set(cli, f),
{
    lemma_set_flags_exact(cli);
}

/// A command line with neither a file name nor a render flag is refused
/// with the missing-argument message.
pub proof fn lemma_nothing_requested(cli: &Cli)
    requires
        cli.filename is None,
        cli.generate_completions is None,
        !cli.generate_markdown_page,
        !cli.generate_man_page,
    ensures
        conflict(cli) == Some((ErrorKind::MissingRequiredArgument, missing_filename_text())),
{
}

/// A file name without render flags is valid, and the one action it asks
/// for is to create that file.
pub proof fn lemma_filename_alone_creates(cli: &Cli)
    requires
        cli.filename is Some,
        cli.generate_completions is None,
        !cli.generate_markdown_page,
        !cli.generate_man_page,
    ensures
        conflict(cli) is None,
        forall|a: Action| #[trigger]
            is_requested(cli, a) ==> (a matches Action::CreateFile(name) && name@
                == cli.filename->Some_0@),
{
}

/// Exactly one render flag without a file name is valid, and the one action
/// it asks for is to render what that flag names: no file is created.
pub proof fn lemma_one_render_flag_renders(cli: &Cli)
    requires
        cli.filename is None,
        set_flags(cli).len() == 1,
    ensures
        conflict(cli) is None,
        forall|a: Action| #[trigger]
            is_requested(cli, a) ==> match a {
                Action::Completions(shell) => set_flags(cli) == seq![RenderFlag::Completion]
                    && cli.generate_completions == Some(shell),
                Action::Markdown => set_flags(cli) == seq![RenderFlag::Markdown],
                Action::Man => set_flags(cli) == seq![RenderFlag::Man],
                Action::CreateFile(_) => false,
            },
{
    lemma_set_flags_exact(cli);
    assert forall|a: Action| #[trigger] is_requested(cli, a) implies match a {
        Action::Completions(shell) => set_flags(cli) == seq![RenderFlag::Completion]
            && cli.generate_completions == Some(shell),
        Action::Markdown => set_flags(cli) == seq![RenderFlag::Markdown],
        Action::Man => set_flags(cli) == seq![RenderFlag::Man],
        Action::CreateFile(_) => false,
    } by {
        match a {
            Action::Completions(_) => {
                assert(set_flags(cli) =~= seq![RenderFlag::Completion]);
            },
            Action::Markdown => {
                assert(set_flags(cli) =~= seq![RenderFlag::Markdown]);
            },
            Action::Man => {
                assert(set_flags(cli) =~= seq![RenderFlag::Man]);
            },
            Action::CreateFile(_) => {
                assert(set_flags(cli).len() == 0);
            },
        }
    }
}

} // verus!
