//! What a command line asks for.

use vstd::prelude::*;

verus! {

/// What to do for a command line.
#[derive(Clone, Debug)]
pub enum Command {
    /// Analyse the one file at `path`.
    File { path: String, json: bool },
    /// Analyse every file under the directory at `path`.
    Directory { path: String, json: bool },
    /// Explain how the program is called.
    Usage,
}

/// A [`Command`] as contracts speak of it.
pub enum CommandView {
    File { path: Seq<char>, json: bool },
    Directory { path: Seq<char>, json: bool },
    Usage,
}

impl View for Command {
    type V = CommandView;

    open spec fn view(&self) -> CommandView {
        match self {
            Command::File { path, json } => CommandView::File { path: path@, json: *json },
            Command::Directory { path, json } => CommandView::Directory {
                path: path@,
                json: *json,
            },
            Command::Usage => CommandView::Usage,
        }
    }
}

/// The line that explains how the program is called.
pub const USAGE: &'static str = "Usage: checksec <-f|-d> <file|directory> [--json]";

pub const FILE_FLAG: &'static str = "-f";

pub const DIRECTORY_FLAG: &'static str = "-d";

pub const JSON_FLAG: &'static str = "--json";

/// The arguments have the shape of a scan: the name of the program, a flag,
/// a path and, if there is any more, `--json`.
pub open spec fn well_shaped(args: Seq<Seq<char>>) -> bool {
    args.len() == 3 || (args.len() == 4 && args[3] == JSON_FLAG@)
}

/// What the arguments ask for. The first of them is the name of the
/// program.
pub open spec fn command_spec(args: Seq<Seq<char>>) -> CommandView {
    if !well_shaped(args) {
        CommandView::Usage
    } else if args[1] == FILE_FLAG@ {
        CommandView::File { path: args[2], json: args.len() == 4 }
    } else if args[1] == DIRECTORY_FLAG@ {
        CommandView::Directory { path: args[2], json: args.len() == 4 }
    } else {
        CommandView::Usage
    }
}

fn is_text(arg: &String, text: &str) -> (same: bool)
    ensures
        same == (arg@ == text@),
{
    let wanted: String = text.to_owned();
    *arg == wanted
}

/// Reads a command line, the name of the program first.
///
/// One of `-f` and `-d` with a path asks for a scan, and `--json` behind the
/// path asks for one document in place of lines of text. Every other
/// command line asks for the usage line.
pub fn parse_args(args: &Vec<String>) -> (command: Command)
    ensures
        command@ == command_spec(crate::names::names_of(args@)),
{
    let n = args.len();
    if !(n == 3 || (n == 4 && is_text(&args[3], JSON_FLAG))) {
        return Command::Usage;
    }
    let json = n == 4;
    if is_text(&args[1], FILE_FLAG) {
        Command::File { path: args[2].clone(), json }
    } else if is_text(&args[1], DIRECTORY_FLAG) {
        Command::Directory { path: args[2].clone(), json }
    } else {
        Command::Usage
    }
}

} // verus!
