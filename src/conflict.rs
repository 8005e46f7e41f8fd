use vstd::prelude::*;

use crate::cli::{flag_name, set_flags, Cli, RenderFlag};

verus! {

/// What went wrong, in the terms of the argument parser's error kinds.
#[derive(Clone, Copy, Debug, PartialEq, Eq, Structural)]
pub enum ErrorKind {
    /// Options that exclude each other were given together.
    ArgumentConflict,
    /// Neither a file name nor a render flag was given.
    MissingRequiredArgument,
    /// The target file already exists, or the file system refused.
    Io,
}

/// A fatal error: the program reports `message` and exits non-zero.
#[derive(Clone, Debug, PartialEq, Eq)]
pub struct CliError {
    pub kind: ErrorKind,
    pub message: String,
}

impl View for CliError {
    type V = (ErrorKind, Seq<char>);

    open spec fn view(&self) -> (ErrorKind, Seq<char>) {
        (self.kind, self.message@)
    }
}

/// A flag as it is quoted in a message: `` `--name` ``.
pub open spec fn flag_token(f: RenderFlag) -> Seq<char> {
    "`--"@ + flag_name(f) + "`"@
}

/// The flags quoted one by one and joined by `, `.
pub open spec fn flag_list(fs: Seq<RenderFlag>) -> Seq<char>
    decreases fs.len(),
{
    if fs.len() == 0 {
        seq![]
    } else if fs.len() == 1 {
        flag_token(fs[0])
    } else {
        flag_list(fs.drop_last()) + ", "@ + flag_token(fs.last())
    }
}

/// The decimal digit for `n`, where `n < 10`.
pub open spec fn digit(n: nat) -> char {
    ((48 + n) as u8) as char
}

/// The message for a file name given together with a render flag.
pub open spec fn filename_conflict_text() -> Seq<char> {
    "positional argument [FILENAME] cannot be used in combination with one of: `--completion` / `--markdown` / `--man`"@
}

/// The message for more than one render flag: their number and the flags.
pub open spec fn too_many_flags_text(fs: Seq<RenderFlag>) -> Seq<char> {
    "cannot render more than 1 option, found "@ + seq![digit(fs.len())] + ": "@ + flag_list(fs)
}

/// The message for a command line that asks for nothing.
pub open spec fn missing_filename_text() -> Seq<char> {
    "missing positional argument [FILENAME]"@
}

/// The error that a command line gives, checked in this order: a file name
/// beside any render flag; more than one render flag; neither a file name nor
/// a render flag. `None` where the command line is valid.
pub open spec fn conflict(cli: &Cli) -> Option<(ErrorKind, Seq<char>)> {
    let flags = set_flags(cli);
    if cli.filename is Some && flags.len() > 0 {
        Some((ErrorKind::ArgumentConflict, filename_conflict_text()))
    } else if flags.len() > 1 {
        Some((ErrorKind::ArgumentConflict, too_many_flags_text(flags)))
    } else if flags.len() == 0 && cli.filename is None {
        Some((ErrorKind::MissingRequiredArgument, missing_filename_text()))
    } else {
        None
    }
}

/// Quotes each flag and joins them with `, `.
pub fn flag_list_text(fs: &Vec<RenderFlag>) -> (r: String)
    ensures
        r@ == flag_list(fs@),
{
    let mut r = String::new();
    let mut i: usize = 0;
    while i < fs.len()
        invariant
            i <= fs.len(),
            r@ == flag_list(fs@.subrange(0, i as int)),
        decreases fs.len() - i,
    {
        let ghost before = r@;
        if i > 0 {
            r.append(", ");
        }
        r.append("`--");
        r.append(fs[i].name());
        r.append("`");
        proof {
            let next = fs@.subrange(0, i + 1);
            assert(next.drop_last() =~= fs@.subrange(0, i as int));
            assert(next.last() == fs@[i as int]);
            if i == 0 {
                assert(r@ =~= flag_token(fs@[0]));
            } else {
                assert(r@ =~= before + ", "@ + flag_token(fs@[i as int]));
            }
        }
        i += 1;
    }
    proof {
        assert(fs@.subrange(0, fs@.len() as int) =~= fs@);
    }
    r
}

/// The decimal digit for `n`, as text.
pub fn digit_text(n: usize) -> (r: &'static str)
    requires
        n < 10,
    ensures
        r@ == seq![digit(n as nat)],
{
    match n {
        0 => {
            proof {
                reveal_strlit("0");
            }
            "0"
        },
        1 => {
            proof {
                reveal_strlit("1");
            }
            "1"
        },
        2 => {
            proof {
                reveal_strlit("2");
            }
            "2"
        },
        3 => {
            proof {
                reveal_strlit("3");
            }
            "3"
        },
        4 => {
            proof {
                reveal_strlit("4");
            }
            "4"
        },
        5 => {
            proof {
                reveal_strlit("5");
            }
            "5"
        },
        6 => {
            proof {
                reveal_strlit("6");
            }
            "6"
        },
        7 => {
            proof {
                reveal_strlit("7");
            }
            "7"
        },
        8 => {
            proof {
                reveal_strlit("8");
            }
            "8"
        },
        _ => {
            proof {
                reveal_strlit("9");
            }
            "9"
        },
    }
}

/// The message for a file name given together with a render flag.
pub fn filename_conflict_message() -> (r: String)
    ensures
        r@ == filename_conflict_text(),
{
    String::from_str(
        "positional argument [FILENAME] cannot be used in combination with one of: `--completion` / `--markdown` / `--man`",
    )
}

/// The message for more than one render flag, naming each flag that is set.
pub fn too_many_flags_message(fs: &Vec<RenderFlag>) -> (r: String)
    requires
        fs.len() < 10,
    ensures
        r@ == too_many_flags_text(fs@),
{
    let mut r = String::from_str("cannot render more than 1 option, found ");
    r.append(digit_text(fs.len()));
    r.append(": ");
    let list = flag_list_text(fs);
    r.append(list.as_str());
    proof {
        assert(r@ =~= too_many_flags_text(fs@));
    }
    r
}

/// The message for a command line that asks for nothing.
pub fn missing_filename_message() -> (r: String)
    ensures
        r@ == missing_filename_text(),
{
    String::from_str("missing positional argument [FILENAME]")
}

/// Validates a command line before any action is taken: a file name excludes
/// the render flags, at most one render flag may be set, and with no render
/// flag the file name is required.
pub fn handle_argument_conflict(cli: &Cli) -> (r: Result<(), CliError>)
    ensures
        match r {
            Ok(()) => conflict(cli) is None,
            Err(e) => conflict(cli) == Some(e@),
        },
{
    let flags = cli.render_flags();
    if cli.filename.is_some() && flags.len() > 0 {
        Err(CliError { kind: ErrorKind::ArgumentConflict, message: filename_conflict_message() })
    } else if flags.len() > 1 {
        Err(CliError { kind: ErrorKind::ArgumentConflict, message: too_many_flags_message(&flags) })
    } else if flags.len() == 0 && cli.filename.is_none() {
        Err(
            CliError {
                kind: ErrorKind::MissingRequiredArgument,
                message: missing_filename_message(),
            },
        )
    } else {
        Ok(())
    }
}

} // verus!
