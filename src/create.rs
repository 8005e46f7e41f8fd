use vstd::prelude::*;

use crate::conflict::{CliError, ErrorKind};

verus! {

/// `s` between double quotes.
pub open spec fn quoted(s: Seq<char>) -> Seq<char> {
    "\""@ + s + "\""@
}

/// The line printed before a file is created.
pub open spec fn creating_text(name: Seq<char>) -> Seq<char> {
    "Creating: "@ + quoted(name)
}

/// The message for a file name under which something already exists.
pub open spec fn already_exists_text(name: Seq<char>) -> Seq<char> {
    "file already exists: "@ + quoted(name)
}

/// The line printed before `filename` is created.
pub fn creating_message(filename: &str) -> (r: String)
    ensures
        r@ == creating_text(filename@),
{
    let mut r = String::from_str("Creating: ");
    r.append("\"");
    r.append(filename);
    r.append("\"");
    proof {
        assert(r@ =~= creating_text(filename@));
    }
    r
}

/// The message for a `filename` under which something already exists.
pub fn already_exists_message(filename: &str) -> (r: String)
    ensures
        r@ == already_exists_text(filename@),
{
    let mut r = String::from_str("file already exists: ");
    r.append("\"");
    r.append(filename);
    r.append("\"");
    proof {
        assert(r@ =~= already_exists_text(filename@));
    }
    r
}

/// Decides, once the file system has said whether something `exists` under
/// `filename`, between refusing and going on: an existing entry is never
/// overwritten; otherwise the line to print before the file is created.
pub fn check_new_file(filename: &str, exists: bool) -> (r: Result<String, CliError>)
    ensures
        exists ==> (r matches Err(e) && e@ == (ErrorKind::Io, already_exists_text(filename@))),
        !exists ==> (r matches Ok(line) && line@ == creating_text(filename@)),
{
    if exists {
        Err(CliError { kind: ErrorKind::Io, message: already_exists_message(filename) })
    } else {
        Ok(creating_message(filename))
    }
}

} // verus!
