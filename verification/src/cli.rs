//! The command line: its commands, and the rules behind them.

pub mod pub_command;
pub mod server_subcommand;

use vstd::prelude::*;
use vstd::string::{StrSliceExecFns, StringExecFns};
use crate::cli::server_subcommand::ServerSubcommand;
use crate::network::server::{Server, ServerView, is_server_text};
use crate::text::{join, joined, texts};

verus! {

/// The commands of the client.
pub enum Cli {
    /// Search the server in use for the words of `query`.
    Search { query: Vec<String> },
    /// Print what the server in use says about itself.
    Stats,
    /// Publish a post with `title`, or titled after the file at `path`,
    /// whose text is the file's, or written in an editor when there is no file.
    Pub { title: Option<String>, path: Option<String> },
    /// Manage the known servers.
    Server(ServerSubcommand),
    /// Tell which server is in use.
    Whoami,
}

/// Whether a first argument is taken as the start of a search: it is no
/// flag (it does not start with `-`) and it is not `help`.
pub open spec fn starts_search(arg: Seq<char>) -> bool {
    !((arg.len() > 0 && arg[0] == '-') || arg == "help"@)
}

/// Whether `t` tells the user they are on server `s`.
pub open spec fn is_whoami_message(t: Seq<char>, s: ServerView) -> bool {
    exists|x: Seq<char>| #![trigger is_server_text(x, s, false, false)]
        is_server_text(x, s, false, false) && t == "You are on "@ + x
}

/// The arguments as they are parsed: `--search` put before a first argument
/// that starts a search.
pub open spec fn search_shortcut(args: Seq<Seq<char>>) -> Seq<Seq<char>> {
    if args.len() > 1 && starts_search(args[1]) {
        args.insert(1, "--search"@)
    } else {
        args
    }
}

/// Law: the shortcut is applied once at most: the arguments it gives are
/// left as they are when it is applied again.
pub proof fn lemma_search_shortcut_idempotent(args: Seq<Seq<char>>)
    ensures
        search_shortcut(search_shortcut(args)) == search_shortcut(args),
{
    reveal_strlit("--search");
    if args.len() > 1 && starts_search(args[1]) {
        let once = args.insert(1, "--search"@);
        assert(once[1] == "--search"@);
        assert(!starts_search(once[1]));
    }
}

impl Cli {
    /// What `ts --whoami` says of the server in use.
    pub fn whoami_message(server: &Server) -> (r: String)
        ensures
            is_whoami_message(r@, server@),
    {
        let mut r = String::from_str("You are on ");
        let shown = server.to_string();
        r.append(shown.as_str());
        r
    }

    /// The arguments as they are parsed: where the first argument after the
    /// program's name starts a search, `--search` is put before it, so that
    /// `ts some words` means `ts --search some words`.
    pub fn with_search_shortcut(args: Vec<String>) -> (r: Vec<String>)
        ensures
            texts(r@) == search_shortcut(texts(args@)),
            !(args@.len() > 1 && starts_search(args@[1]@)) ==> r@ == args@,
    {
        if args.len() > 1 {
            let command = args[1].as_str();
            let dash = command.unicode_len() > 0 && command.get_char(0) == '-';
            let help = args[1] == String::from_str("help");
            if !(dash || help) {
                let mut r = args;
                let ghost before = r@;
                r.insert(1, String::from_str("--search"));
                proof {
                    assert(texts(r@) =~= texts(before).insert(1, "--search"@));
                }
                return r;
            }
        }
        args
    }

    /// The query searched for by `ts --search <words>`: the words joined by spaces.
    pub fn search_query(words: &Vec<String>) -> (r: String)
        ensures
            r@ == joined(texts(words@), seq![' ']),
    {
        let sep = " ";
        proof {
            reveal_strlit(" ");
        }
        assert(sep@ =~= seq![' ']);
        join(words, sep)
    }
}

/// What is left to do once a command has run.
pub enum AfterCommand {
    /// Write the list of servers back to disk.
    Store,
    /// Stop with this message; the list is not written back.
    Fail(String),
}

pub open spec fn read_failed_text(e: Seq<char>) -> Seq<char> {
    "I had a problem reading from disk: "@ + e
}

pub open spec fn write_failed_text(e: Seq<char>) -> Seq<char> {
    "I got an error when trying to write to disk: \n"@ + e
}

/// What the client says when the list of servers cannot be read: every
/// command stops there.
pub fn read_failed_message(e: &str) -> (r: String)
    ensures
        r@ == read_failed_text(e@),
{
    let mut r = String::from_str("I had a problem reading from disk: ");
    r.append(e);
    r
}

/// What the client says when the list of servers cannot be written back.
pub fn write_failed_message(e: &str) -> (r: String)
    ensures
        r@ == write_failed_text(e@),
{
    let mut r = String::from_str("I got an error when trying to write to disk: \n");
    r.append(e);
    r
}

/// The list of servers is written back only after the command succeeded;
/// a failed command stops with its own message.
pub fn after_command(outcome: Result<(), String>) -> (r: AfterCommand)
    ensures
        match outcome {
            Ok(()) => r is Store,
            Err(e) => r matches AfterCommand::Fail(m) && m@ == e@,
        },
{
    match outcome {
        Ok(()) => AfterCommand::Store,
        Err(e) => AfterCommand::Fail(e),
    }
}

} // verus!
